//! Whole courses of a command: every step that a session hands out while the
//! caller reports one event after another, and what holds of all of them.

use crate::action::UploadAction;
use crate::command::CommandView;
use crate::failure::{Failure, Purpose};
use crate::image::image_path;
use crate::invocation::{build_preamble, BuildProfile, InvocationView, Tool};
use crate::session::{closing, is_success, opening, reaction, EventView, SessionView, StepView};
use vstd::prelude::*;

verus! {

/// The steps that a session hands out in answer to a run of events, one for
/// each event.
pub open spec fn steps_after(session: SessionView, events: Seq<EventView>) -> Seq<StepView>
    decreases events.len(),
{
    if events.len() == 0 {
        Seq::empty()
    } else {
        let moved = reaction(session, events.first());
        seq![moved.1] + steps_after(moved.0, events.drop_first())
    }
}

/// Every step of a command on the project in `project`: the one that opens
/// the session, then one in answer to each event.
pub open spec fn course(project: Seq<char>, command: CommandView, events: Seq<EventView>) -> Seq<
    StepView,
> {
    let opened = opening(project, command);
    seq![opened.1] + steps_after(opened.0, events)
}

/// Whether a step runs the given program.
pub open spec fn runs(step: StepView, tool: Tool) -> bool {
    step matches StepView::Run(invocation) && invocation.tool() == tool
}

/// Whether an event reports a program that ended with success.
pub open spec fn reports_success(event: EventView) -> bool {
    event matches EventView::Exited { code, .. } && is_success(code)
}

/// Whether an event reports a program that ended with success and built at
/// least one executable.
pub open spec fn yields_artifact(event: EventView) -> bool {
    event matches EventView::Exited { code, executables } && is_success(code) && executables.len()
        > 0
}

/// The artifact of a build that built at least one executable: the one that
/// it reported last.
pub open spec fn artifact_of(event: EventView) -> Seq<char>
    recommends
        yields_artifact(event),
{
    event->executables.last()
}

/// How many programs a session may still run, at most.
pub open spec fn programs_left(session: SessionView) -> nat {
    match session {
        SessionView::Building(_) => 3,
        SessionView::Converting { .. } => 2,
        SessionView::Uploading => 1,
        SessionView::Simulating => 1,
        SessionView::Closed(_) => 0,
    }
}

/// Each event brings an open session nearer to its end. A step that runs a
/// program leaves the session waiting for that very program, and any other
/// step closes it with the verdict that the step tells.
pub proof fn lemma_reaction_nears_end(session: SessionView, event: EventView)
    ensures
        session.awaited() is Some ==> programs_left(reaction(session, event).0) < programs_left(
            session,
        ),
        match reaction(session, event).1 {
            StepView::Run(invocation) => reaction(session, event).0.awaited() == Some(
                invocation.tool(),
            ),
            StepView::Succeed => reaction(session, event).0 == SessionView::Closed(None),
            StepView::Fail(failure) => reaction(session, event).0 == SessionView::Closed(
                Some(failure),
            ),
        },
{
}

/// A failure is never passed over and nothing is tried again: where the
/// awaited program is missing, or has not ended with success, the session
/// closes at once with the failure that names the program, and with the
/// program's own status where it has one other than zero.
pub proof fn lemma_failure_ends_the_command(session: SessionView, event: EventView)
    requires
        session.awaited() is Some,
        !reports_success(event),
    ensures
        ({
            let tool = session.awaited()->Some_0;
            let failure = match event {
                EventView::NotFound => Failure::ToolNotFound(tool),
                EventView::Exited { code, .. } => Failure::SubprocessFailed(tool, code),
            };
            &&& reaction(session, event) == closing(Some(failure))
            &&& reaction(session, event).1 == StepView::Fail(failure)
            &&& failure.status() != 0
            &&& event matches EventView::Exited { code: Some(status), .. } ==> failure.status()
                == status
        }),
{
}

/// A session hands out one step for each event: the first in answer to the
/// first event, the others as the session that the first event leaves
/// behind hands them out for the rest.
pub proof fn lemma_steps_after_unfold(session: SessionView, events: Seq<EventView>)
    ensures
        steps_after(session, events).len() == events.len(),
        events.len() > 0 ==> steps_after(session, events)[0] == reaction(
            session,
            events.first(),
        ).1,
        forall|i: int|
            1 <= i < events.len() ==> #[trigger] steps_after(session, events)[i] == steps_after(
                reaction(session, events.first()).0,
                events.drop_first(),
            )[i - 1],
    decreases events.len(),
{
    if events.len() > 0 {
        lemma_steps_after_unfold(reaction(session, events.first()).0, events.drop_first());
    }
}

/// A closed session answers every event with its verdict.
pub proof fn lemma_closed_session_repeats_verdict(verdict: Option<Failure>, events: Seq<EventView>)
    ensures
        steps_after(SessionView::Closed(verdict), events).len() == events.len(),
        forall|i: int|
            0 <= i < events.len() ==> #[trigger] steps_after(
                SessionView::Closed(verdict),
                events,
            )[i] == closing(verdict).1,
    decreases events.len(),
{
    if events.len() > 0 {
        lemma_closed_session_repeats_verdict(verdict, events.drop_first());
    }
}

/// No session runs more than three programs: from the third event on, every
/// step is a verdict.
pub proof fn lemma_course_ends_within_three_events(
    project: Seq<char>,
    command: CommandView,
    events: Seq<EventView>,
)
    ensures
        course(project, command, events).len() == events.len() + 1,
        forall|i: int|
            3 <= i <= events.len() ==> !(#[trigger] course(project, command, events)[i] is Run),
{
    let opened = opening(project, command);
    lemma_steps_after_unfold(opened.0, events);
    if events.len() >= 3 {
        let first = reaction(opened.0, events.first());
        let rest = events.drop_first();
        lemma_steps_after_unfold(first.0, rest);
        let second = reaction(first.0, rest.first());
        let others = rest.drop_first();
        lemma_steps_after_unfold(second.0, others);
        let third = reaction(second.0, others.first());
        lemma_reaction_nears_end(opened.0, events.first());
        lemma_reaction_nears_end(first.0, rest.first());
        lemma_reaction_nears_end(second.0, others.first());
        lemma_closed_session_repeats_verdict(third.0->Closed_0, others.drop_first());
    }
}

/// A build command asks the build system for the simulator's target exactly
/// when the simulator flag is set and for the robot's target otherwise, and
/// hands on the caller's own arguments unchanged and in their order, behind
/// the target.
pub proof fn lemma_build_selects_profile_and_forwards_arguments(
    project: Seq<char>,
    simulator: bool,
    args: Seq<Seq<char>>,
)
    ensures
        opening(project, CommandView::Build { simulator, args }).1 == StepView::Run(
            InvocationView::Build { project, profile: BuildProfile::selected(simulator), args },
        ),
        BuildProfile::selected(simulator) == BuildProfile::Simulator <==> simulator,
        BuildProfile::selected(simulator) == BuildProfile::Device <==> !simulator,
        BuildProfile::Device.target_name() != BuildProfile::Simulator.target_name(),
        ({
            let arguments = InvocationView::Build {
                project,
                profile: BuildProfile::selected(simulator),
                args,
            }.arguments();
            &&& arguments.len() == 5 + args.len()
            &&& arguments.subrange(0, 4) == build_preamble()
            &&& arguments[4] == BuildProfile::selected(simulator).target_name()
            &&& arguments.subrange(5, arguments.len() as int) == args
        }),
{
    reveal_strlit("armv7a-none-eabi");
    reveal_strlit("wasm32-unknown-unknown");
    assert("armv7a-none-eabi"@.len() != "wasm32-unknown-unknown"@.len());
    let arguments = InvocationView::Build {
        project,
        profile: BuildProfile::selected(simulator),
        args,
    }.arguments();
}

/// A build command runs the converter only for the robot, only in answer to
/// a build that ended with success and reported an executable, and then
/// from that artifact to its image. It runs neither the uploader nor the
/// simulator.
pub proof fn lemma_build_converts_device_artifact(
    project: Seq<char>,
    simulator: bool,
    args: Seq<Seq<char>>,
    events: Seq<EventView>,
)
    ensures
        ({
            let steps = course(project, CommandView::Build { simulator, args }, events);
            &&& steps.len() == events.len() + 1
            &&& forall|i: int|
                0 <= i < steps.len() ==> !runs(#[trigger] steps[i], Tool::Uploader) && !runs(
                    steps[i],
                    Tool::Simulator,
                )
            &&& forall|i: int|
                0 <= i < steps.len() && runs(#[trigger] steps[i], Tool::Converter) ==> {
                    &&& !simulator
                    &&& i == 1
                    &&& yields_artifact(events[0])
                    &&& steps[1] == StepView::Run(
                        InvocationView::Convert {
                            input: artifact_of(events[0]),
                            output: image_path(artifact_of(events[0])),
                        },
                    )
                }
        }),
{
    let opened = opening(project, CommandView::Build { simulator, args });
    lemma_steps_after_unfold(opened.0, events);
    if events.len() > 0 {
        let first = reaction(opened.0, events.first());
        let rest = events.drop_first();
        lemma_steps_after_unfold(first.0, rest);
        if first.0 is Closed {
            lemma_closed_session_repeats_verdict(first.0->Closed_0, rest);
        } else if rest.len() > 0 {
            let second = reaction(first.0, rest.first());
            lemma_closed_session_repeats_verdict(second.0->Closed_0, rest.drop_first());
        }
    }
}

/// An upload of a given file that is not to be stripped runs the uploader on
/// exactly that file, and runs nothing else, whatever is reported.
pub proof fn lemma_upload_sends_given_file(
    project: Seq<char>,
    slot: u8,
    file: Seq<char>,
    action: UploadAction,
    args: Seq<Seq<char>>,
    events: Seq<EventView>,
)
    ensures
        ({
            let command = CommandView::Upload { slot, file: Some(file), strip: false, action, args };
            let steps = course(project, command, events);
            &&& steps.len() == events.len() + 1
            &&& steps[0] == StepView::Run(InvocationView::Upload { slot, action, artifact: file })
            &&& InvocationView::Upload { slot, action, artifact: file }.arguments().last() == file
            &&& forall|i: int| 1 <= i < steps.len() ==> !(#[trigger] steps[i] is Run)
        }),
{
    let command = CommandView::Upload { slot, file: Some(file), strip: false, action, args };
    lemma_steps_after_unfold(SessionView::Uploading, events);
    if events.len() > 0 {
        let first = reaction(SessionView::Uploading, events.first());
        lemma_closed_session_repeats_verdict(first.0->Closed_0, events.drop_first());
    }
}

/// An upload of a given file that is to be stripped first runs the converter
/// from the file to its image. It runs the uploader only in answer to the
/// converter's success, which it does answer so, and then on the image. It
/// runs no build and no simulator.
pub proof fn lemma_upload_sends_image_of_stripped_file(
    project: Seq<char>,
    slot: u8,
    file: Seq<char>,
    action: UploadAction,
    args: Seq<Seq<char>>,
    events: Seq<EventView>,
)
    ensures
        ({
            let command = CommandView::Upload { slot, file: Some(file), strip: true, action, args };
            let steps = course(project, command, events);
            let upload = StepView::Run(
                InvocationView::Upload { slot, action, artifact: image_path(file) },
            );
            &&& steps.len() == events.len() + 1
            &&& steps[0] == StepView::Run(
                InvocationView::Convert { input: file, output: image_path(file) },
            )
            &&& events.len() > 0 && reports_success(events[0]) ==> steps[1] == upload
            &&& forall|i: int|
                0 <= i < steps.len() && runs(#[trigger] steps[i], Tool::Uploader) ==> {
                    &&& i == 1
                    &&& reports_success(events[0])
                    &&& steps[1] == upload
                }
            &&& forall|i: int|
                0 <= i < steps.len() ==> !runs(#[trigger] steps[i], Tool::Builder) && !runs(
                    steps[i],
                    Tool::Simulator,
                )
        }),
{
    let command = CommandView::Upload { slot, file: Some(file), strip: true, action, args };
    let opened = opening(project, command);
    lemma_steps_after_unfold(opened.0, events);
    if events.len() > 0 {
        let first = reaction(opened.0, events.first());
        let rest = events.drop_first();
        lemma_steps_after_unfold(first.0, rest);
        if first.0 is Closed {
            lemma_closed_session_repeats_verdict(first.0->Closed_0, rest);
        } else if rest.len() > 0 {
            let second = reaction(first.0, rest.first());
            lemma_closed_session_repeats_verdict(second.0->Closed_0, rest.drop_first());
        }
    }
}

/// Where the image of a file is another path than the file itself, an upload
/// that is to strip the file never runs the uploader on the file.
pub proof fn lemma_upload_never_sends_unstripped_file(
    project: Seq<char>,
    slot: u8,
    file: Seq<char>,
    action: UploadAction,
    args: Seq<Seq<char>>,
    events: Seq<EventView>,
)
    requires
        image_path(file) != file,
    ensures
        ({
            let command = CommandView::Upload { slot, file: Some(file), strip: true, action, args };
            let steps = course(project, command, events);
            forall|i: int|
                0 <= i < steps.len() ==> !(#[trigger] steps[i] matches StepView::Run(
                    InvocationView::Upload { artifact, .. },
                ) && artifact == file)
        }),
{
    lemma_upload_sends_image_of_stripped_file(project, slot, file, action, args, events);
}

/// An upload without a file starts with a build for the robot, to which it
/// hands on the caller's arguments. It runs the converter only in answer to
/// a build that ended with success and reported an executable, from that
/// artifact to its image, and the uploader only in answer to the
/// converter's success, on that image. Where the build ends with success
/// and reports no executable, every further step is the failure for want of
/// an artifact.
pub proof fn lemma_upload_without_file_sends_image_of_build(
    project: Seq<char>,
    slot: u8,
    strip: bool,
    action: UploadAction,
    args: Seq<Seq<char>>,
    events: Seq<EventView>,
)
    ensures
        ({
            let command = CommandView::Upload { slot, file: None, strip, action, args };
            let steps = course(project, command, events);
            &&& steps.len() == events.len() + 1
            &&& steps[0] == StepView::Run(
                InvocationView::Build { project, profile: BuildProfile::Device, args },
            )
            &&& forall|i: int|
                0 <= i < steps.len() && runs(#[trigger] steps[i], Tool::Converter) ==> {
                    &&& i == 1
                    &&& yields_artifact(events[0])
                    &&& steps[1] == StepView::Run(
                        InvocationView::Convert {
                            input: artifact_of(events[0]),
                            output: image_path(artifact_of(events[0])),
                        },
                    )
                }
            &&& forall|i: int|
                0 <= i < steps.len() && runs(#[trigger] steps[i], Tool::Uploader) ==> {
                    &&& i == 2
                    &&& yields_artifact(events[0])
                    &&& reports_success(events[1])
                    &&& steps[2] == StepView::Run(
                        InvocationView::Upload {
                            slot,
                            action,
                            artifact: image_path(artifact_of(events[0])),
                        },
                    )
                }
            &&& events.len() > 0 && reports_success(events[0]) && !yields_artifact(events[0])
                ==> forall|i: int|
                1 <= i < steps.len() ==> #[trigger] steps[i] == StepView::Fail(
                    Failure::MissingArtifact(Purpose::Upload),
                )
        }),
{
    let command = CommandView::Upload { slot, file: None, strip, action, args };
    let opened = opening(project, command);
    lemma_steps_after_unfold(opened.0, events);
    lemma_course_ends_within_three_events(project, command, events);
    if events.len() > 0 {
        let first = reaction(opened.0, events.first());
        let rest = events.drop_first();
        lemma_steps_after_unfold(first.0, rest);
        if first.0 is Closed {
            lemma_closed_session_repeats_verdict(first.0->Closed_0, rest);
        }
    }
}

/// A simulation starts with a build for the simulator, to which it hands on
/// the caller's arguments. It runs the simulator only in answer to a build
/// that ended with success and reported an executable, and then on the
/// project, that artifact and the chosen interface. Where the build ends
/// with success and reports no executable, every further step is the
/// failure for want of an artifact. It runs neither converter nor uploader.
pub proof fn lemma_simulation_runs_artifact_of_build(
    project: Seq<char>,
    ui: Option<Seq<char>>,
    args: Seq<Seq<char>>,
    events: Seq<EventView>,
)
    ensures
        ({
            let command = CommandView::Sim { ui, args };
            let steps = course(project, command, events);
            &&& steps.len() == events.len() + 1
            &&& steps[0] == StepView::Run(
                InvocationView::Build { project, profile: BuildProfile::Simulator, args },
            )
            &&& forall|i: int|
                0 <= i < steps.len() && runs(#[trigger] steps[i], Tool::Simulator) ==> {
                    &&& i == 1
                    &&& yields_artifact(events[0])
                    &&& steps[1] == StepView::Run(
                        InvocationView::Simulate {
                            project,
                            artifact: artifact_of(events[0]),
                            ui,
                        },
                    )
                }
            &&& forall|i: int|
                0 <= i < steps.len() ==> !runs(#[trigger] steps[i], Tool::Converter) && !runs(
                    steps[i],
                    Tool::Uploader,
                )
            &&& events.len() > 0 && reports_success(events[0]) && !yields_artifact(events[0])
                ==> forall|i: int|
                1 <= i < steps.len() ==> #[trigger] steps[i] == StepView::Fail(
                    Failure::MissingArtifact(Purpose::Simulation),
                )
        }),
{
    let command = CommandView::Sim { ui, args };
    let opened = opening(project, command);
    lemma_steps_after_unfold(opened.0, events);
    if events.len() > 0 {
        let first = reaction(opened.0, events.first());
        let rest = events.drop_first();
        lemma_steps_after_unfold(first.0, rest);
        if first.0 is Closed {
            lemma_closed_session_repeats_verdict(first.0->Closed_0, rest);
        } else if rest.len() > 0 {
            let second = reaction(first.0, rest.first());
            lemma_closed_session_repeats_verdict(second.0->Closed_0, rest.drop_first());
        }
    }
}

} // verus!
