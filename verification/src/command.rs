//! The grammar of the command line.
use vstd::prelude::*;

use crate::format::{trim, trimmed};
use crate::text::{from_chars, same_text, to_chars};

verus! {

/// What a command line asks for.
#[derive(Debug)]
pub enum Command {
    /// Leave, unless there are unsaved changes.
    Quit,
    /// Leave all files, unless there are unsaved changes.
    QuitAll,
    /// Leave at any rate.
    ForceQuit,
    /// Save, under a new path if one is given.
    Write(Option<String>),
    /// Save, under a new path if one is given, and leave.
    WriteQuit(Option<String>),
    /// Start over with an empty text that has no path.
    New,
    /// Open the file with the given path, which may be empty.
    Edit(String),
    WorkingDirectory,
    File,
    Version,
    ShowNumbers,
    HideNumbers,
    Delete,
    Yank,
    PutAfter,
    PutBefore,
    Join,
    Help,
    /// None of the above.
    Unknown(String),
}

/// A command with its texts as sequences of characters.
pub enum CommandView {
    Quit,
    QuitAll,
    ForceQuit,
    Write(Option<Seq<char>>),
    WriteQuit(Option<Seq<char>>),
    New,
    Edit(Seq<char>),
    WorkingDirectory,
    File,
    Version,
    ShowNumbers,
    HideNumbers,
    Delete,
    Yank,
    PutAfter,
    PutBefore,
    Join,
    Help,
    Unknown(Seq<char>),
}

/// The text of an optional string.
pub open spec fn optional_text(text: Option<String>) -> Option<Seq<char>> {
    match text {
        Some(inner) => Some(inner@),
        None => None,
    }
}

impl View for Command {
    type V = CommandView;

    open spec fn view(&self) -> CommandView {
        match *self {
            Command::Quit => CommandView::Quit,
            Command::QuitAll => CommandView::QuitAll,
            Command::ForceQuit => CommandView::ForceQuit,
            Command::Write(path) => CommandView::Write(optional_text(path)),
            Command::WriteQuit(path) => CommandView::WriteQuit(optional_text(path)),
            Command::New => CommandView::New,
            Command::Edit(path) => CommandView::Edit(path@),
            Command::WorkingDirectory => CommandView::WorkingDirectory,
            Command::File => CommandView::File,
            Command::Version => CommandView::Version,
            Command::ShowNumbers => CommandView::ShowNumbers,
            Command::HideNumbers => CommandView::HideNumbers,
            Command::Delete => CommandView::Delete,
            Command::Yank => CommandView::Yank,
            Command::PutAfter => CommandView::PutAfter,
            Command::PutBefore => CommandView::PutBefore,
            Command::Join => CommandView::Join,
            Command::Help => CommandView::Help,
            Command::Unknown(text) => CommandView::Unknown(text@),
        }
    }
}

/// What follows a prefix, without the white space around it.
pub open spec fn argument(text: Seq<char>, prefix: Seq<char>) -> Seq<char> {
    trimmed(text.skip(prefix.len() as int))
}

/// The meaning of a command line.
pub open spec fn command_of(text: Seq<char>) -> CommandView {
    if text == "q"@ {
        CommandView::Quit
    } else if text == "qa"@ || text == "qall"@ {
        CommandView::QuitAll
    } else if text == "q!"@ || text == "qa!"@ || text == "qall!"@ {
        CommandView::ForceQuit
    } else if text == "w"@ {
        CommandView::Write(None)
    } else if text == "wq"@ || text == "x"@ || text == "wqa"@ || text == "wq!"@ || text == "x!"@
        || text == "wqa!"@ {
        CommandView::WriteQuit(None)
    } else if text == "enew"@ {
        CommandView::New
    } else if text == "pwd"@ {
        CommandView::WorkingDirectory
    } else if text == "file"@ {
        CommandView::File
    } else if text == "version"@ {
        CommandView::Version
    } else if text == "set number"@ || text == "set nu"@ {
        CommandView::ShowNumbers
    } else if text == "set nonumber"@ || text == "set nonu"@ {
        CommandView::HideNumbers
    } else if text == "d"@ || text == "delete"@ {
        CommandView::Delete
    } else if text == "y"@ || text == "yank"@ {
        CommandView::Yank
    } else if text == "p"@ || text == "put"@ {
        CommandView::PutAfter
    } else if text == "P"@ || text == "Put"@ {
        CommandView::PutBefore
    } else if text == "j"@ || text == "join"@ {
        CommandView::Join
    } else if text == "help"@ {
        CommandView::Help
    } else if "e "@.is_prefix_of(text) {
        CommandView::Edit(argument(text, "e "@))
    } else if "edit "@.is_prefix_of(text) {
        CommandView::Edit(argument(text, "edit "@))
    } else if "w "@.is_prefix_of(text) {
        CommandView::Write(Some(argument(text, "w "@)))
    } else if "wq "@.is_prefix_of(text) {
        CommandView::WriteQuit(Some(argument(text, "wq "@)))
    } else if "x "@.is_prefix_of(text) {
        CommandView::WriteQuit(Some(argument(text, "x "@)))
    } else {
        CommandView::Unknown(text)
    }
}

/// The argument of a command that starts with the given prefix.
pub fn argument_after(text: &String, prefix: &str) -> (res: Option<String>)
    ensures
        res is Some <==> prefix@.is_prefix_of(text@),
        res matches Some(rest) ==> rest@ == argument(text@, prefix@),
{
    let chars = to_chars(text);
    let wanted = to_chars(&prefix.to_owned());
    if wanted.len() > chars.len() {
        return None;
    }
    let mut i: usize = 0;
    while i < wanted.len()
        invariant
            i <= wanted.len() <= chars.len(),
            chars@ == text@,
            wanted@ == prefix@,
            forall|j: int| 0 <= j < i ==> chars@[j] == wanted@[j],
        decreases wanted.len() - i,
    {
        if chars[i] != wanted[i] {
            assert(prefix@[i as int] != text@.subrange(0, prefix@.len() as int)[i as int]);
            return None;
        }
        i += 1;
    }
    assert(prefix@ == text@.subrange(0, prefix@.len() as int));
    let rest = from_chars(&chars, wanted.len(), chars.len());
    assert(rest@ == text@.skip(prefix@.len() as int));
    Some(trim(&rest))
}

/// Finds out what a command line asks for.
pub fn parse_command(text: &String) -> (command: Command)
    ensures
        command@ == command_of(text@),
{
    if same_text(text, "q") {
        return Command::Quit;
    }
    if same_text(text, "qa") || same_text(text, "qall") {
        return Command::QuitAll;
    }
    if same_text(text, "q!") || same_text(text, "qa!") || same_text(text, "qall!") {
        return Command::ForceQuit;
    }
    if same_text(text, "w") {
        return Command::Write(None);
    }
    if same_text(text, "wq") || same_text(text, "x") || same_text(text, "wqa") || same_text(
        text,
        "wq!",
    ) || same_text(text, "x!") || same_text(text, "wqa!") {
        return Command::WriteQuit(None);
    }
    if same_text(text, "enew") {
        return Command::New;
    }
    if same_text(text, "pwd") {
        return Command::WorkingDirectory;
    }
    if same_text(text, "file") {
        return Command::File;
    }
    if same_text(text, "version") {
        return Command::Version;
    }
    if same_text(text, "set number") || same_text(text, "set nu") {
        return Command::ShowNumbers;
    }
    if same_text(text, "set nonumber") || same_text(text, "set nonu") {
        return Command::HideNumbers;
    }
    if same_text(text, "d") || same_text(text, "delete") {
        return Command::Delete;
    }
    if same_text(text, "y") || same_text(text, "yank") {
        return Command::Yank;
    }
    if same_text(text, "p") || same_text(text, "put") {
        return Command::PutAfter;
    }
    if same_text(text, "P") || same_text(text, "Put") {
        return Command::PutBefore;
    }
    if same_text(text, "j") || same_text(text, "join") {
        return Command::Join;
    }
    if same_text(text, "help") {
        return Command::Help;
    }
    match argument_after(text, "e ") {
        Some(path) => {
            return Command::Edit(path);
        },
        None => {},
    }
    match argument_after(text, "edit ") {
        Some(path) => {
            return Command::Edit(path);
        },
        None => {},
    }
    match argument_after(text, "w ") {
        Some(path) => {
            return Command::Write(Some(path));
        },
        None => {},
    }
    match argument_after(text, "wq ") {
        Some(path) => {
            return Command::WriteQuit(Some(path));
        },
        None => {},
    }
    match argument_after(text, "x ") {
        Some(path) => {
            return Command::WriteQuit(Some(path));
        },
        None => {},
    }
    Command::Unknown(text.clone())
}

} // verus!
