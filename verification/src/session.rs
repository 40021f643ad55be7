//! The course of one command: which program runs next, given how the last
//! one ended.
//!
//! A session is opened with a command and hands out one step at a time. The
//! caller runs the program that a step names, reports how it ended, and gets
//! the next step, until the session closes with a verdict.

use crate::action::UploadAction;
use crate::command::{Command, CommandView};
use crate::failure::{Failure, Purpose};
use crate::image::{binary_image_path, image_path};
use crate::invocation::{BuildProfile, Invocation, InvocationView, Tool};
use vstd::prelude::*;

verus! {

/// How the program of the last step ended.
#[derive(Debug, PartialEq, Eq)]
pub enum Event {
    /// The program is not installed.
    NotFound,
    /// The program ran to its end. `code` is its exit status, missing where
    /// it was ended from outside; `executables` are the paths of the
    /// executables that it reported to have built, in the order of the
    /// reports, and empty for a program that builds nothing.
    Exited { code: Option<i32>, executables: Vec<String> },
}

/// An [`Event`] as the contracts see it.
pub enum EventView {
    NotFound,
    Exited { code: Option<i32>, executables: Seq<Seq<char>> },
}

impl View for Event {
    type V = EventView;

    open spec fn view(&self) -> EventView {
        match self {
            Event::NotFound => EventView::NotFound,
            Event::Exited { code, executables } => EventView::Exited {
                code: *code,
                executables: executables.deep_view(),
            },
        }
    }
}

/// What the caller does next.
#[derive(Debug, PartialEq, Eq)]
pub enum Step {
    /// Run this program and report how it ended.
    Run(Invocation),
    /// The command is done.
    Succeed,
    /// The command has failed.
    Fail(Failure),
}

/// A [`Step`] as the contracts see it.
pub enum StepView {
    Run(InvocationView),
    Succeed,
    Fail(Failure),
}

impl View for Step {
    type V = StepView;

    open spec fn view(&self) -> StepView {
        match self {
            Step::Run(invocation) => StepView::Run(invocation@),
            Step::Succeed => StepView::Succeed,
            Step::Fail(failure) => StepView::Fail(*failure),
        }
    }
}

/// What a build is followed by.
#[derive(Debug, PartialEq, Eq)]
enum Sequel {
    Nothing,
    Image,
    Upload { slot: u8, action: UploadAction },
    Simulate { project: String, ui: Option<String> },
}

/// What a build is followed by, as the contracts see it.
pub enum SequelView {
    /// Nothing: the build is all that was asked for.
    Nothing,
    /// The artifact is turned into a flashable image.
    Image,
    /// The artifact is turned into a flashable image, which is uploaded.
    Upload { slot: u8, action: UploadAction },
    /// The artifact is run in the simulator.
    Simulate { project: Seq<char>, ui: Option<Seq<char>> },
}

/// The program whose end is awaited, with what is to follow it, or the
/// verdict.
#[derive(Debug, PartialEq, Eq)]
enum Stage {
    Building(Sequel),
    Converting { image: String, upload: Option<(u8, UploadAction)> },
    Uploading,
    Simulating,
    Closed(Option<Failure>),
}

/// The course of one command.
#[derive(Debug, PartialEq, Eq)]
pub struct Session {
    stage: Stage,
}

/// A [`Session`] as the contracts see it: the program whose end is awaited,
/// with what is to follow it, or the verdict.
pub enum SessionView {
    /// The build system runs.
    Building(SequelView),
    /// The converter writes `image`, which is uploaded afterwards where
    /// `upload` holds a slot and an action.
    Converting { image: Seq<char>, upload: Option<(u8, UploadAction)> },
    /// The uploader runs.
    Uploading,
    /// The simulator runs.
    Simulating,
    /// The command has ended, with a failure or without.
    Closed(Option<Failure>),
}

impl SessionView {
    /// The program whose end is awaited, if any.
    pub open spec fn awaited(self) -> Option<Tool> {
        match self {
            SessionView::Building(_) => Some(Tool::Builder),
            SessionView::Converting { .. } => Some(Tool::Converter),
            SessionView::Uploading => Some(Tool::Uploader),
            SessionView::Simulating => Some(Tool::Simulator),
            SessionView::Closed(_) => None,
        }
    }
}

impl View for Sequel {
    type V = SequelView;

    closed spec fn view(&self) -> SequelView {
        match self {
            Sequel::Nothing => SequelView::Nothing,
            Sequel::Image => SequelView::Image,
            Sequel::Upload { slot, action } => SequelView::Upload { slot: *slot, action: *action },
            Sequel::Simulate { project, ui } => SequelView::Simulate {
                project: project@,
                ui: ui.deep_view(),
            },
        }
    }
}

impl View for Session {
    type V = SessionView;

    closed spec fn view(&self) -> SessionView {
        match self.stage {
            Stage::Building(sequel) => SessionView::Building(sequel@),
            Stage::Converting { image, upload } => SessionView::Converting {
                image: image@,
                upload: upload,
            },
            Stage::Uploading => SessionView::Uploading,
            Stage::Simulating => SessionView::Simulating,
            Stage::Closed(verdict) => SessionView::Closed(verdict),
        }
    }
}

/// Whether an exit status reports success.
pub open spec fn is_success(code: Option<i32>) -> bool {
    code == Some(0i32)
}

/// The end of a session: its last state and its last step.
pub open spec fn closing(verdict: Option<Failure>) -> (SessionView, StepView) {
    (
        SessionView::Closed(verdict),
        match verdict {
            Some(failure) => StepView::Fail(failure),
            None => StepView::Succeed,
        },
    )
}

/// The conversion of an artifact into its flashable image, which is uploaded
/// afterwards where `upload` holds a slot and an action.
pub open spec fn converting(artifact: Seq<char>, upload: Option<(u8, UploadAction)>) -> (
    SessionView,
    StepView,
) {
    (
        SessionView::Converting { image: image_path(artifact), upload },
        StepView::Run(
            InvocationView::Convert { input: artifact, output: image_path(artifact) },
        ),
    )
}

/// How a session opens: the first step of a command on the project in the
/// directory `project`.
pub open spec fn opening(project: Seq<char>, command: CommandView) -> (SessionView, StepView) {
    match command {
        CommandView::Build { simulator, args } => (
            SessionView::Building(
                if simulator {
                    SequelView::Nothing
                } else {
                    SequelView::Image
                },
            ),
            StepView::Run(
                InvocationView::Build { project, profile: BuildProfile::selected(simulator), args },
            ),
        ),
        CommandView::Upload { slot, file: Some(file), strip, action, args } => if strip {
            converting(file, Some((slot, action)))
        } else {
            (
                SessionView::Uploading,
                StepView::Run(InvocationView::Upload { slot, action, artifact: file }),
            )
        },
        CommandView::Upload { slot, file: None, strip, action, args } => (
            SessionView::Building(SequelView::Upload { slot, action }),
            StepView::Run(InvocationView::Build { project, profile: BuildProfile::Device, args }),
        ),
        CommandView::Sim { ui, args } => (
            SessionView::Building(SequelView::Simulate { project, ui }),
            StepView::Run(
                InvocationView::Build { project, profile: BuildProfile::Simulator, args },
            ),
        ),
    }
}

/// What follows a build that succeeded and reported `executables`. Where it
/// reported several, the last one is the artifact.
pub open spec fn built(sequel: SequelView, executables: Seq<Seq<char>>) -> (
    SessionView,
    StepView,
) {
    match sequel {
        SequelView::Nothing => closing(None),
        SequelView::Image => if executables.len() == 0 {
            closing(None)
        } else {
            converting(executables.last(), None)
        },
        SequelView::Upload { slot, action } => if executables.len() == 0 {
            closing(Some(Failure::MissingArtifact(Purpose::Upload)))
        } else {
            converting(executables.last(), Some((slot, action)))
        },
        SequelView::Simulate { project, ui } => if executables.len() == 0 {
            closing(Some(Failure::MissingArtifact(Purpose::Simulation)))
        } else {
            (
                SessionView::Simulating,
                StepView::Run(
                    InvocationView::Simulate { project, artifact: executables.last(), ui },
                ),
            )
        },
    }
}

/// How a session goes on when the awaited program has ended: the next state
/// and the next step. A closed session stays closed and repeats its verdict.
pub open spec fn reaction(session: SessionView, event: EventView) -> (SessionView, StepView) {
    match session.awaited() {
        None => closing(session->Closed_0),
        Some(tool) => match event {
            EventView::NotFound => closing(Some(Failure::ToolNotFound(tool))),
            EventView::Exited { code, executables } => if !is_success(code) {
                closing(Some(Failure::SubprocessFailed(tool, code)))
            } else {
                match session {
                    SessionView::Building(sequel) => built(sequel, executables),
                    SessionView::Converting { image, upload: Some((slot, action)) } => (
                        SessionView::Uploading,
                        StepView::Run(InvocationView::Upload { slot, action, artifact: image }),
                    ),
                    _ => closing(None),
                }
            },
        },
    }
}

/// Closes a session with its verdict.
fn close(verdict: Option<Failure>) -> (closed: (Session, Step))
    ensures
        (closed.0@, closed.1@) == closing(verdict),
{
    let step = match verdict {
        Some(failure) => Step::Fail(failure),
        None => Step::Succeed,
    };
    (Session { stage: Stage::Closed(verdict) }, step)
}

/// Asks for the conversion of an artifact into its flashable image.
fn convert(artifact: String, upload: Option<(u8, UploadAction)>) -> (converted: (Session, Step))
    ensures
        (converted.0@, converted.1@) == converting(artifact@, upload),
{
    let image = binary_image_path(artifact.as_str());
    let output = image.clone();
    (
        Session { stage: Stage::Converting { image, upload } },
        Step::Run(Invocation::Convert { input: artifact, output }),
    )
}

/// Goes on after a build that succeeded: with the last executable that it
/// reported, or without one.
fn follow_build(sequel: Sequel, executables: Vec<String>) -> (followed: (Session, Step))
    ensures
        (followed.0@, followed.1@) == built(sequel@, executables.deep_view()),
{
    let mut executables = executables;
    let artifact = executables.pop();
    match sequel {
        Sequel::Nothing => close(None),
        Sequel::Image => match artifact {
            Some(artifact) => convert(artifact, None),
            None => close(None),
        },
        Sequel::Upload { slot, action } => match artifact {
            Some(artifact) => convert(artifact, Some((slot, action))),
            None => close(Some(Failure::MissingArtifact(Purpose::Upload))),
        },
        Sequel::Simulate { project, ui } => match artifact {
            Some(artifact) => (
                Session { stage: Stage::Simulating },
                Step::Run(Invocation::Simulate { project, artifact, ui }),
            ),
            None => close(Some(Failure::MissingArtifact(Purpose::Simulation))),
        },
    }
}

impl Session {
    /// Opens the session of a command on the project in the directory
    /// `project`, and hands out its first step.
    pub fn start(project: String, command: Command) -> (opened: (Session, Step))
        ensures
            (opened.0@, opened.1@) == opening(project@, command@),
    {
        match command {
            Command::Build { simulator, args } => {
                let sequel = if simulator {
                    Sequel::Nothing
                } else {
                    Sequel::Image
                };
                (
                    Session { stage: Stage::Building(sequel) },
                    Step::Run(
                        Invocation::Build { project, profile: BuildProfile::select(simulator), args },
                    ),
                )
            },
            Command::Upload { slot, file, strip, action, args } => match file {
                Some(file) => {
                    if strip {
                        convert(file, Some((slot, action)))
                    } else {
                        (
                            Session { stage: Stage::Uploading },
                            Step::Run(Invocation::Upload { slot, action, artifact: file }),
                        )
                    }
                },
                None => (
                    Session { stage: Stage::Building(Sequel::Upload { slot, action }) },
                    Step::Run(Invocation::Build { project, profile: BuildProfile::Device, args }),
                ),
            },
            Command::Sim { ui, args } => {
                let directory = project.clone();
                (
                    Session { stage: Stage::Building(Sequel::Simulate { project, ui }) },
                    Step::Run(
                        Invocation::Build {
                            project: directory,
                            profile: BuildProfile::Simulator,
                            args,
                        },
                    ),
                )
            },
        }
    }

    /// The program whose end is awaited, if the session is still open.
    pub fn awaited(&self) -> (tool: Option<Tool>)
        ensures
            tool == self@.awaited(),
    {
        match &self.stage {
            Stage::Building(_) => Some(Tool::Builder),
            Stage::Converting { .. } => Some(Tool::Converter),
            Stage::Uploading => Some(Tool::Uploader),
            Stage::Simulating => Some(Tool::Simulator),
            Stage::Closed(_) => None,
        }
    }

    /// Takes in how the awaited program ended, and hands out the next step.
    pub fn advance(self, event: Event) -> (moved: (Session, Step))
        ensures
            (moved.0@, moved.1@) == reaction(self@, event@),
    {
        let tool = match self.awaited() {
            Some(tool) => tool,
            None => {
                return match self.stage {
                    Stage::Closed(verdict) => close(verdict),
                    _ => close(None),
                };
            },
        };
        match event {
            Event::NotFound => close(Some(Failure::ToolNotFound(tool))),
            Event::Exited { code, executables } => {
                let success = match code {
                    Some(status) => status == 0,
                    None => false,
                };
                if !success {
                    close(Some(Failure::SubprocessFailed(tool, code)))
                } else {
                    match self.stage {
                        Stage::Building(sequel) => follow_build(sequel, executables),
                        Stage::Converting { image, upload } => match upload {
                            Some((slot, action)) => (
                                Session { stage: Stage::Uploading },
                                Step::Run(Invocation::Upload { slot, action, artifact: image }),
                            ),
                            None => close(None),
                        },
                        _ => close(None),
                    }
                }
            },
        }
    }
}

} // verus!
