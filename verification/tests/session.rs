use cargo_pros::action::UploadAction;
use cargo_pros::command::Command;
use cargo_pros::failure::{Failure, Purpose};
use cargo_pros::invocation::{BuildProfile, Invocation, Tool};
use cargo_pros::session::{Event, Session, Step};

fn texts(items: &[&str]) -> Vec<String> {
    items.iter().map(|item| item.to_string()).collect()
}

fn ended(code: i32) -> Event {
    Event::Exited { code: Some(code), executables: Vec::new() }
}

fn built(executables: &[&str]) -> Event {
    Event::Exited { code: Some(0), executables: texts(executables) }
}

fn upload(file: Option<&str>, strip: bool) -> Command {
    Command::Upload {
        slot: 3,
        file: file.map(|path| path.to_string()),
        strip,
        action: UploadAction::Run,
        args: texts(&["--release"]),
    }
}

#[test]
fn build_without_flag_selects_the_device_profile() {
    let command = Command::Build { simulator: false, args: texts(&["--release", "-v"]) };
    let (session, step) = Session::start("robot".to_string(), command);
    assert_eq!(
        step,
        Step::Run(Invocation::Build {
            project: "robot".to_string(),
            profile: BuildProfile::Device,
            args: texts(&["--release", "-v"]),
        })
    );
    assert_eq!(session.awaited(), Some(Tool::Builder));
}

#[test]
fn build_with_flag_selects_the_simulator_profile() {
    let command = Command::Build { simulator: true, args: texts(&["--release", "-v"]) };
    let (_, step) = Session::start("robot".to_string(), command);
    assert_eq!(
        step,
        Step::Run(Invocation::Build {
            project: "robot".to_string(),
            profile: BuildProfile::Simulator,
            args: texts(&["--release", "-v"]),
        })
    );
}

#[test]
fn build_forwards_arguments_verbatim_for_both_profiles() {
    for simulator in [false, true] {
        let command = Command::Build { simulator, args: texts(&["--features", "a b", "--", "x"]) };
        let (_, step) = Session::start(".".to_string(), command);
        match step {
            Step::Run(invocation) => {
                let arguments = invocation.arguments();
                assert_eq!(arguments[5..], texts(&["--features", "a b", "--", "x"])[..]);
                assert_eq!(
                    arguments[4],
                    if simulator { "wasm32-unknown-unknown" } else { "armv7a-none-eabi" }
                );
            }
            other => panic!("a build was expected, not {:?}", other),
        }
    }
}

#[test]
fn device_build_converts_its_artifact() {
    let command = Command::Build { simulator: false, args: Vec::new() };
    let (session, _) = Session::start(".".to_string(), command);
    let (session, step) = session.advance(built(&["target/debug/robot"]));
    assert_eq!(
        step,
        Step::Run(Invocation::Convert {
            input: "target/debug/robot".to_string(),
            output: "target/debug/robot.bin".to_string(),
        })
    );
    assert_eq!(session.awaited(), Some(Tool::Converter));
    let (session, step) = session.advance(ended(0));
    assert_eq!(step, Step::Succeed);
    assert_eq!(session.awaited(), None);
}

#[test]
fn simulator_build_converts_nothing() {
    let command = Command::Build { simulator: true, args: Vec::new() };
    let (session, _) = Session::start(".".to_string(), command);
    let (session, step) = session.advance(built(&["target/wasm/robot.wasm"]));
    assert_eq!(step, Step::Succeed);
    assert_eq!(session.awaited(), None);
}

#[test]
fn build_of_a_library_succeeds_without_conversion() {
    let command = Command::Build { simulator: false, args: Vec::new() };
    let (session, _) = Session::start(".".to_string(), command);
    let (_, step) = session.advance(built(&[]));
    assert_eq!(step, Step::Succeed);
}

#[test]
fn build_with_several_executables_takes_the_last() {
    let command = Command::Build { simulator: false, args: Vec::new() };
    let (session, _) = Session::start(".".to_string(), command);
    let (_, step) = session.advance(built(&["target/one.elf", "target/two.elf"]));
    assert_eq!(
        step,
        Step::Run(Invocation::Convert {
            input: "target/two.elf".to_string(),
            output: "target/two.bin".to_string(),
        })
    );
}

#[test]
fn failed_build_ends_the_command_with_its_status() {
    let command = Command::Build { simulator: false, args: Vec::new() };
    let (session, _) = Session::start(".".to_string(), command);
    let event = Event::Exited { code: Some(101), executables: texts(&["target/stale.elf"]) };
    let (session, step) = session.advance(event);
    assert_eq!(step, Step::Fail(Failure::SubprocessFailed(Tool::Builder, Some(101))));
    assert_eq!(session.awaited(), None);
}

#[test]
fn failed_conversion_ends_the_command() {
    let (session, _) = Session::start(".".to_string(), upload(Some("robot.elf"), true));
    let (session, step) = session.advance(ended(1));
    assert_eq!(step, Step::Fail(Failure::SubprocessFailed(Tool::Converter, Some(1))));
    assert_eq!(session.awaited(), None);
}

#[test]
fn upload_of_given_file_sends_it_unchanged() {
    let (session, step) = Session::start(".".to_string(), upload(Some("out/robot.elf"), false));
    assert_eq!(
        step,
        Step::Run(Invocation::Upload {
            slot: 3,
            action: UploadAction::Run,
            artifact: "out/robot.elf".to_string(),
        })
    );
    assert_eq!(session.awaited(), Some(Tool::Uploader));
    let (session, step) = session.advance(ended(0));
    assert_eq!(step, Step::Succeed);
    assert_eq!(session.awaited(), None);
}

#[test]
fn upload_of_given_file_runs_the_uploader_with_the_documented_arguments() {
    let (_, step) = Session::start(".".to_string(), upload(Some("out/robot.elf"), false));
    match step {
        Step::Run(invocation) => {
            assert_eq!(invocation.tool().program(), "pros");
            assert_eq!(
                invocation.arguments(),
                texts(&["upload", "--target", "v5", "--slot", "3", "--after", "run", "out/robot.elf"])
            );
        }
        other => panic!("an upload was expected, not {:?}", other),
    }
}

#[test]
fn upload_of_stripped_file_sends_the_image() {
    let (session, step) = Session::start(".".to_string(), upload(Some("out/robot.elf"), true));
    assert_eq!(
        step,
        Step::Run(Invocation::Convert {
            input: "out/robot.elf".to_string(),
            output: "out/robot.bin".to_string(),
        })
    );
    assert_eq!(session.awaited(), Some(Tool::Converter));
    let (session, step) = session.advance(ended(0));
    assert_eq!(
        step,
        Step::Run(Invocation::Upload {
            slot: 3,
            action: UploadAction::Run,
            artifact: "out/robot.bin".to_string(),
        })
    );
    assert_eq!(session.awaited(), Some(Tool::Uploader));
    let (_, step) = session.advance(ended(0));
    assert_eq!(step, Step::Succeed);
}

#[test]
fn upload_without_file_builds_converts_and_sends_the_image() {
    let (session, step) = Session::start("robot".to_string(), upload(None, false));
    assert_eq!(
        step,
        Step::Run(Invocation::Build {
            project: "robot".to_string(),
            profile: BuildProfile::Device,
            args: texts(&["--release"]),
        })
    );
    let (session, step) = session.advance(built(&["robot/target/robot.elf"]));
    assert_eq!(
        step,
        Step::Run(Invocation::Convert {
            input: "robot/target/robot.elf".to_string(),
            output: "robot/target/robot.bin".to_string(),
        })
    );
    let (session, step) = session.advance(ended(0));
    assert_eq!(
        step,
        Step::Run(Invocation::Upload {
            slot: 3,
            action: UploadAction::Run,
            artifact: "robot/target/robot.bin".to_string(),
        })
    );
    let (_, step) = session.advance(ended(0));
    assert_eq!(step, Step::Succeed);
}

#[test]
fn upload_without_file_ignores_the_strip_flag() {
    let (session, _) = Session::start(".".to_string(), upload(None, true));
    let (_, step) = session.advance(built(&["target/robot.elf"]));
    assert_eq!(
        step,
        Step::Run(Invocation::Convert {
            input: "target/robot.elf".to_string(),
            output: "target/robot.bin".to_string(),
        })
    );
}

#[test]
fn upload_without_artifact_fails_and_never_runs_the_uploader() {
    let (session, _) = Session::start(".".to_string(), upload(None, false));
    let (session, step) = session.advance(built(&[]));
    assert_eq!(step, Step::Fail(Failure::MissingArtifact(Purpose::Upload)));
    assert_eq!(session.awaited(), None);
    let (session, step) = session.advance(ended(0));
    assert_eq!(step, Step::Fail(Failure::MissingArtifact(Purpose::Upload)));
    let (_, step) = session.advance(built(&["late.elf"]));
    assert_eq!(step, Step::Fail(Failure::MissingArtifact(Purpose::Upload)));
}

#[test]
fn uploader_status_is_handed_on() {
    let (session, _) = Session::start(".".to_string(), upload(Some("robot.bin"), false));
    let (_, step) = session.advance(ended(7));
    assert_eq!(step, Step::Fail(Failure::SubprocessFailed(Tool::Uploader, Some(7))));
    match step {
        Step::Fail(failure) => assert_eq!(failure.exit_code(), 7),
        other => panic!("a failure was expected, not {:?}", other),
    }
}

#[test]
fn missing_uploader_is_told_apart() {
    let (session, _) = Session::start(".".to_string(), upload(Some("robot.bin"), false));
    let (_, step) = session.advance(Event::NotFound);
    assert_eq!(step, Step::Fail(Failure::ToolNotFound(Tool::Uploader)));
}

#[test]
fn missing_builder_and_converter_are_told_apart() {
    let (session, _) = Session::start(".".to_string(), upload(None, false));
    let (_, step) = session.advance(Event::NotFound);
    assert_eq!(step, Step::Fail(Failure::ToolNotFound(Tool::Builder)));
    let (session, _) = Session::start(".".to_string(), upload(Some("robot.elf"), true));
    let (_, step) = session.advance(Event::NotFound);
    assert_eq!(step, Step::Fail(Failure::ToolNotFound(Tool::Converter)));
}

#[test]
fn program_ended_from_outside_fails_the_command() {
    let (session, _) = Session::start(".".to_string(), upload(Some("robot.bin"), false));
    let (_, step) = session.advance(Event::Exited { code: None, executables: Vec::new() });
    assert_eq!(step, Step::Fail(Failure::SubprocessFailed(Tool::Uploader, None)));
}

#[test]
fn sim_builds_for_the_simulator_and_runs_the_artifact() {
    let command = Command::Sim { ui: Some("field-view".to_string()), args: texts(&["-v"]) };
    let (session, step) = Session::start("robot".to_string(), command);
    assert_eq!(
        step,
        Step::Run(Invocation::Build {
            project: "robot".to_string(),
            profile: BuildProfile::Simulator,
            args: texts(&["-v"]),
        })
    );
    let (session, step) = session.advance(built(&["robot/target/robot.wasm"]));
    assert_eq!(
        step,
        Step::Run(Invocation::Simulate {
            project: "robot".to_string(),
            artifact: "robot/target/robot.wasm".to_string(),
            ui: Some("field-view".to_string()),
        })
    );
    assert_eq!(session.awaited(), Some(Tool::Simulator));
    let (_, step) = session.advance(ended(0));
    assert_eq!(step, Step::Succeed);
}

#[test]
fn sim_without_interface_passes_none() {
    let command = Command::Sim { ui: None, args: Vec::new() };
    let (session, _) = Session::start("robot".to_string(), command);
    let (_, step) = session.advance(built(&["robot.wasm"]));
    assert_eq!(
        step,
        Step::Run(Invocation::Simulate {
            project: "robot".to_string(),
            artifact: "robot.wasm".to_string(),
            ui: None,
        })
    );
}

#[test]
fn sim_of_a_library_fails_and_never_runs_the_simulator() {
    let command = Command::Sim { ui: None, args: Vec::new() };
    let (session, _) = Session::start(".".to_string(), command);
    let (session, step) = session.advance(built(&[]));
    assert_eq!(step, Step::Fail(Failure::MissingArtifact(Purpose::Simulation)));
    assert_eq!(session.awaited(), None);
    let (_, step) = session.advance(built(&["late.wasm"]));
    assert_eq!(step, Step::Fail(Failure::MissingArtifact(Purpose::Simulation)));
}

#[test]
fn sim_after_failed_build_never_runs_the_simulator() {
    let command = Command::Sim { ui: None, args: Vec::new() };
    let (session, _) = Session::start(".".to_string(), command);
    let event = Event::Exited { code: Some(101), executables: texts(&["robot.wasm"]) };
    let (_, step) = session.advance(event);
    assert_eq!(step, Step::Fail(Failure::SubprocessFailed(Tool::Builder, Some(101))));
}

#[test]
fn simulator_status_is_handed_on() {
    let command = Command::Sim { ui: None, args: Vec::new() };
    let (session, _) = Session::start(".".to_string(), command);
    let (session, _) = session.advance(built(&["robot.wasm"]));
    let (_, step) = session.advance(ended(3));
    assert_eq!(step, Step::Fail(Failure::SubprocessFailed(Tool::Simulator, Some(3))));
}

#[test]
fn closed_session_repeats_its_verdict() {
    let (session, _) = Session::start(".".to_string(), upload(Some("robot.bin"), false));
    let (session, step) = session.advance(ended(0));
    assert_eq!(step, Step::Succeed);
    let (session, step) = session.advance(Event::NotFound);
    assert_eq!(step, Step::Succeed);
    let (_, step) = session.advance(ended(9));
    assert_eq!(step, Step::Succeed);
}
