//! The external programs that a command runs, and the arguments they get.

use crate::action::UploadAction;
use crate::text::{decimal, format_decimal};
use vstd::prelude::*;

verus! {

/// One of the external programs that do the actual work.
#[derive(Clone, Copy, Debug, PartialEq, Eq, Structural)]
pub enum Tool {
    /// The build system that compiles the project.
    Builder,
    /// The program that turns a compiled artifact into a flashable image.
    Converter,
    /// The program that sends an image to the robot.
    Uploader,
    /// The program that runs an artifact in a simulated robot.
    Simulator,
}

impl Tool {
    /// The name under which the program is looked up.
    pub open spec fn program_name(self) -> Seq<char> {
        match self {
            Tool::Builder => "cargo"@,
            Tool::Converter => "arm-none-eabi-objcopy"@,
            Tool::Uploader => "pros"@,
            Tool::Simulator => "pros-simulator"@,
        }
    }

    /// The name under which the program is looked up.
    pub fn program(&self) -> (name: &'static str)
        ensures
            name@ == self.program_name(),
    {
        match self {
            Tool::Builder => "cargo",
            Tool::Converter => "arm-none-eabi-objcopy",
            Tool::Uploader => "pros",
            Tool::Simulator => "pros-simulator",
        }
    }
}

/// What a build is made for.
#[derive(Clone, Copy, Debug, PartialEq, Eq, Structural)]
pub enum BuildProfile {
    /// The robot's own processor.
    Device,
    /// The simulator.
    Simulator,
}

impl BuildProfile {
    /// The profile that the simulator flag selects.
    pub open spec fn selected(simulator: bool) -> BuildProfile {
        if simulator {
            BuildProfile::Simulator
        } else {
            BuildProfile::Device
        }
    }

    /// The compilation target that the build system is asked for.
    pub open spec fn target_name(self) -> Seq<char> {
        match self {
            BuildProfile::Device => "armv7a-none-eabi"@,
            BuildProfile::Simulator => "wasm32-unknown-unknown"@,
        }
    }

    /// The profile that the simulator flag selects.
    pub fn select(simulator: bool) -> (profile: BuildProfile)
        ensures
            profile == BuildProfile::selected(simulator),
    {
        if simulator {
            BuildProfile::Simulator
        } else {
            BuildProfile::Device
        }
    }

    /// The compilation target that the build system is asked for.
    pub fn target(&self) -> (name: &'static str)
        ensures
            name@ == self.target_name(),
    {
        match self {
            BuildProfile::Device => "armv7a-none-eabi",
            BuildProfile::Simulator => "wasm32-unknown-unknown",
        }
    }
}

/// One run of an external program, with everything that decides its
/// arguments.
#[derive(Debug, PartialEq, Eq)]
pub enum Invocation {
    /// Compile the project in the directory `project`.
    Build { project: String, profile: BuildProfile, args: Vec<String> },
    /// Write the flashable image of `input` to `output`.
    Convert { input: String, output: String },
    /// Send `artifact` to the robot.
    Upload { slot: u8, action: UploadAction, artifact: String },
    /// Run `artifact` in the simulator.
    Simulate { project: String, artifact: String, ui: Option<String> },
}

/// An [`Invocation`] as the contracts see it.
pub enum InvocationView {
    Build { project: Seq<char>, profile: BuildProfile, args: Seq<Seq<char>> },
    Convert { input: Seq<char>, output: Seq<char> },
    Upload { slot: u8, action: UploadAction, artifact: Seq<char> },
    Simulate { project: Seq<char>, artifact: Seq<char>, ui: Option<Seq<char>> },
}

impl View for Invocation {
    type V = InvocationView;

    open spec fn view(&self) -> InvocationView {
        match self {
            Invocation::Build { project, profile, args } => InvocationView::Build {
                project: project@,
                profile: *profile,
                args: args.deep_view(),
            },
            Invocation::Convert { input, output } => InvocationView::Convert {
                input: input@,
                output: output@,
            },
            Invocation::Upload { slot, action, artifact } => InvocationView::Upload {
                slot: *slot,
                action: *action,
                artifact: artifact@,
            },
            Invocation::Simulate { project, artifact, ui } => InvocationView::Simulate {
                project: project@,
                artifact: artifact@,
                ui: ui.deep_view(),
            },
        }
    }
}

/// The arguments that every build gets before the target and the caller's
/// own arguments.
pub open spec fn build_preamble() -> Seq<Seq<char>> {
    seq!["build"@, "--message-format"@, "json-render-diagnostics"@, "--target"@]
}

impl InvocationView {
    /// The program that is run.
    pub open spec fn tool(self) -> Tool {
        match self {
            InvocationView::Build { .. } => Tool::Builder,
            InvocationView::Convert { .. } => Tool::Converter,
            InvocationView::Upload { .. } => Tool::Uploader,
            InvocationView::Simulate { .. } => Tool::Simulator,
        }
    }

    /// The arguments that the program is run with, in order.
    pub open spec fn arguments(self) -> Seq<Seq<char>> {
        match self {
            InvocationView::Build { project, profile, args } => build_preamble().push(
                profile.target_name(),
            ) + args,
            InvocationView::Convert { input, output } => seq!["-O"@, "binary"@, input, output],
            InvocationView::Upload { slot, action, artifact } => seq![
                "upload"@,
                "--target"@,
                "v5"@,
                "--slot"@,
                decimal(slot as nat),
                "--after"@,
                action.name(),
                artifact,
            ],
            InvocationView::Simulate { project, artifact, ui } => match ui {
                Some(name) => seq![project, artifact, name],
                None => seq![project, artifact],
            },
        }
    }
}

/// Copies a list of texts.
fn copy_texts(texts: &Vec<String>) -> (copy: Vec<String>)
    ensures
        copy.deep_view() == texts.deep_view(),
{
    let mut copy: Vec<String> = Vec::new();
    let mut i: usize = 0;
    while i < texts.len()
        invariant
            i <= texts.len(),
            copy.len() == i,
            forall|k: int| 0 <= k < i ==> copy@[k]@ == texts@[k]@,
        decreases texts.len() - i,
    {
        copy.push(texts[i].clone());
        i += 1;
    }
    copy
}

impl Invocation {
    /// The program that is run.
    pub fn tool(&self) -> (tool: Tool)
        ensures
            tool == self@.tool(),
    {
        match self {
            Invocation::Build { .. } => Tool::Builder,
            Invocation::Convert { .. } => Tool::Converter,
            Invocation::Upload { .. } => Tool::Uploader,
            Invocation::Simulate { .. } => Tool::Simulator,
        }
    }

    /// The arguments that the program is run with, in order.
    pub fn arguments(&self) -> (arguments: Vec<String>)
        ensures
            arguments.deep_view() == self@.arguments(),
    {
        match self {
            Invocation::Build { project, profile, args } => {
                let mut arguments: Vec<String> = Vec::new();
                arguments.push("build".to_owned());
                arguments.push("--message-format".to_owned());
                arguments.push("json-render-diagnostics".to_owned());
                arguments.push("--target".to_owned());
                arguments.push(profile.target().to_owned());
                let mut passed = copy_texts(args);
                arguments.append(&mut passed);
                arguments
            },
            Invocation::Convert { input, output } => {
                let mut arguments: Vec<String> = Vec::new();
                arguments.push("-O".to_owned());
                arguments.push("binary".to_owned());
                arguments.push(input.clone());
                arguments.push(output.clone());
                arguments
            },
            Invocation::Upload { slot, action, artifact } => {
                let mut arguments: Vec<String> = Vec::new();
                arguments.push("upload".to_owned());
                arguments.push("--target".to_owned());
                arguments.push("v5".to_owned());
                arguments.push("--slot".to_owned());
                arguments.push(format_decimal(*slot as u64));
                arguments.push("--after".to_owned());
                arguments.push(action.as_str().to_owned());
                arguments.push(artifact.clone());
                arguments
            },
            Invocation::Simulate { project, artifact, ui } => {
                let mut arguments: Vec<String> = Vec::new();
                arguments.push(project.clone());
                arguments.push(artifact.clone());
                match ui {
                    Some(name) => {
                        arguments.push(name.clone());
                    },
                    None => {},
                }
                arguments
            },
        }
    }
}

} // verus!
