//! What the uploader does with a program once it has been flashed.

use crate::text::same_text;
use std::str::FromStr;
use vstd::prelude::*;
use vstd::string::StringExecFns;

verus! {

/// What happens on the target right after a program has been uploaded.
#[derive(Clone, Copy, Debug, PartialEq, Eq, Structural)]
pub enum UploadAction {
    /// Show the program's screen.
    Screen,
    /// Start the program.
    Run,
    /// Leave the target as it is.
    Nothing,
}

impl UploadAction {
    /// The word by which the action is written on a command line.
    pub open spec fn name(self) -> Seq<char> {
        match self {
            UploadAction::Screen => "screen"@,
            UploadAction::Run => "run"@,
            UploadAction::Nothing => "none"@,
        }
    }

    /// The action that a word names, if it names one.
    pub open spec fn named(word: Seq<char>) -> Option<UploadAction> {
        if word == "screen"@ {
            Some(UploadAction::Screen)
        } else if word == "run"@ {
            Some(UploadAction::Run)
        } else if word == "none"@ {
            Some(UploadAction::Nothing)
        } else {
            None
        }
    }

    /// The message with which a word that names no action is turned down.
    pub open spec fn rejection(word: Seq<char>) -> Seq<char> {
        "Invalid upload action. Found: "@ + word + ", expected one of: screen, run, or none"@
    }

    /// The word by which the action is written on a command line.
    pub fn as_str(&self) -> (word: &'static str)
        ensures
            word@ == self.name(),
    {
        match self {
            UploadAction::Screen => "screen",
            UploadAction::Run => "run",
            UploadAction::Nothing => "none",
        }
    }

    /// Every action is named by its own word, and by no other action's.
    pub proof fn lemma_name_round_trip(self)
        ensures
            UploadAction::named(self.name()) == Some(self),
    {
        reveal_strlit("screen");
        reveal_strlit("run");
        reveal_strlit("none");
        assert("screen"@.len() == 6 && "run"@.len() == 3 && "none"@.len() == 4);
    }
}

impl FromStr for UploadAction {
    type Err = String;

    /// Reads an action from its word. Any other text is turned down with a
    /// message that quotes it and lists the three words.
    fn from_str(s: &str) -> (parsed: Result<UploadAction, String>)
        ensures
            match UploadAction::named(s@) {
                Some(action) => parsed == Ok::<UploadAction, String>(action),
                None => parsed matches Err(message) && message@ == UploadAction::rejection(s@),
            },
    {
        if same_text(s, "screen") {
            Ok(UploadAction::Screen)
        } else if same_text(s, "run") {
            Ok(UploadAction::Run)
        } else if same_text(s, "none") {
            Ok(UploadAction::Nothing)
        } else {
            let message = "Invalid upload action. Found: ".to_owned();
            let message = message.concat(s);
            let message = message.concat(", expected one of: screen, run, or none");
            Err(message)
        }
    }
}

impl Default for UploadAction {
    /// No action is the default.
    fn default() -> (action: UploadAction)
        ensures
            action == UploadAction::Nothing,
    {
        UploadAction::Nothing
    }
}

} // verus!
