//! Why a command ended without success, and how that is reported.

use crate::invocation::Tool;
use crate::text::{format_signed_decimal, signed_decimal};
use vstd::prelude::*;
use vstd::string::StringExecFns;

verus! {

/// What an artifact was needed for when none could be found.
#[derive(Clone, Copy, Debug, PartialEq, Eq, Structural)]
pub enum Purpose {
    /// Sending it to the robot.
    Upload,
    /// Running it in the simulator.
    Simulation,
}

/// Why a command ended without success.
#[derive(Clone, Copy, Debug, PartialEq, Eq, Structural)]
pub enum Failure {
    /// An external program is not installed.
    ToolNotFound(Tool),
    /// An external program ran and did not end with status zero. The status
    /// is missing where the program was ended from outside.
    SubprocessFailed(Tool, Option<i32>),
    /// There is no artifact to work on.
    MissingArtifact(Purpose),
}

impl Failure {
    /// The status with which the process ends: that of the program that
    /// failed where it has one, and one otherwise.
    pub open spec fn status(self) -> int {
        match self {
            Failure::SubprocessFailed(_, Some(code)) if code != 0 => code as int,
            _ => 1,
        }
    }

    /// The text that tells the operator what went wrong.
    pub open spec fn report(self) -> Seq<char> {
        match self {
            Failure::ToolNotFound(tool) => "command `"@ + tool.program_name()
                + "` not found: install it and try again"@,
            Failure::SubprocessFailed(tool, Some(code)) => "`"@ + tool.program_name()
                + "` failed with exit status "@ + signed_decimal(code as int),
            Failure::SubprocessFailed(tool, None) => "`"@ + tool.program_name()
                + "` was ended before it could finish"@,
            Failure::MissingArtifact(Purpose::Upload) =>
                "Binary not found! Try explicitly providing one with --file (-f)"@,
            Failure::MissingArtifact(Purpose::Simulation) =>
                "Binary target not found (is this a library?)"@,
        }
    }

    /// The status with which the process ends. It is never zero.
    pub fn exit_code(&self) -> (code: i32)
        ensures
            code == self.status(),
            code != 0,
    {
        match self {
            Failure::SubprocessFailed(_, Some(code)) => {
                if *code != 0 {
                    *code
                } else {
                    1
                }
            },
            _ => 1,
        }
    }

    /// The text that tells the operator what went wrong.
    pub fn message(&self) -> (text: String)
        ensures
            text@ == self.report(),
    {
        match self {
            Failure::ToolNotFound(tool) => {
                let text = "command `".to_owned();
                let text = text.concat(tool.program());
                text.concat("` not found: install it and try again")
            },
            Failure::SubprocessFailed(tool, Some(code)) => {
                let text = "`".to_owned();
                let text = text.concat(tool.program());
                let text = text.concat("` failed with exit status ");
                let number = format_signed_decimal(*code);
                text.concat(number.as_str())
            },
            Failure::SubprocessFailed(tool, None) => {
                let text = "`".to_owned();
                let text = text.concat(tool.program());
                text.concat("` was ended before it could finish")
            },
            Failure::MissingArtifact(Purpose::Upload) => {
                "Binary not found! Try explicitly providing one with --file (-f)".to_owned()
            },
            Failure::MissingArtifact(Purpose::Simulation) => {
                "Binary target not found (is this a library?)".to_owned()
            },
        }
    }
}

} // verus!
