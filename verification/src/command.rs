//! The commands that an operator can give.

use crate::action::UploadAction;
use vstd::prelude::*;

verus! {

/// One command, with the options that were given to it.
#[derive(Debug, PartialEq, Eq)]
pub enum Command {
    /// Compile the project, for the simulator or for the robot.
    Build { simulator: bool, args: Vec<String> },
    /// Send a program to the robot: the given file, or else what a fresh
    /// build produces.
    Upload { slot: u8, file: Option<String>, strip: bool, action: UploadAction, args: Vec<String> },
    /// Compile the project for the simulator and run it there.
    Sim { ui: Option<String>, args: Vec<String> },
}

/// A [`Command`] as the contracts see it.
pub enum CommandView {
    Build { simulator: bool, args: Seq<Seq<char>> },
    Upload {
        slot: u8,
        file: Option<Seq<char>>,
        strip: bool,
        action: UploadAction,
        args: Seq<Seq<char>>,
    },
    Sim { ui: Option<Seq<char>>, args: Seq<Seq<char>> },
}

impl View for Command {
    type V = CommandView;

    open spec fn view(&self) -> CommandView {
        match self {
            Command::Build { simulator, args } => CommandView::Build {
                simulator: *simulator,
                args: args.deep_view(),
            },
            Command::Upload { slot, file, strip, action, args } => CommandView::Upload {
                slot: *slot,
                file: file.deep_view(),
                strip: *strip,
                action: *action,
                args: args.deep_view(),
            },
            Command::Sim { ui, args } => CommandView::Sim {
                ui: ui.deep_view(),
                args: args.deep_view(),
            },
        }
    }
}

} // verus!
