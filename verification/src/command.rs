//! The command line of the front end: one line of text is one command.
//!
//! A line is read as it stands, so the caller strips the white space around
//! it first. `p` and `q` take the name of a track behind one space; the name
//! is turned into a path by [`resolve_track`].

use vstd::prelude::*;
use vstd::string::StrSliceExecFns;
use vstd::string::StringExecFns;
use crate::message::ControlMessage;
use crate::message::MessageView;
use crate::track::TrackRef;

verus! {

/// The mathematical value of a [`Command`].
pub enum CommandView {
    Play(Seq<char>),
    Queue(Seq<char>),
    Pause,
    Resume,
    Stop,
    Next,
    Previous,
    Help,
    Exit,
    Invalid,
}

/// What a line of input asks for.
#[derive(Debug, PartialEq, Eq)]
pub enum Command {
    /// `p name`: play the track of that name.
    Play(String),
    /// `q name`: queue the track of that name.
    Queue(String),
    /// `pz`: pause.
    Pause,
    /// `r`: resume.
    Resume,
    /// `s`: stop.
    Stop,
    /// `nx`: go on to the next track.
    Next,
    /// `pr`: go back to the track before.
    Previous,
    /// `h`: show the commands.
    Help,
    /// `e`: leave the program.
    Exit,
    /// Anything else.
    Invalid,
}

impl View for Command {
    type V = CommandView;

    open spec fn view(&self) -> CommandView {
        match self {
            Command::Play(name) => CommandView::Play(name@),
            Command::Queue(name) => CommandView::Queue(name@),
            Command::Pause => CommandView::Pause,
            Command::Resume => CommandView::Resume,
            Command::Stop => CommandView::Stop,
            Command::Next => CommandView::Next,
            Command::Previous => CommandView::Previous,
            Command::Help => CommandView::Help,
            Command::Exit => CommandView::Exit,
            Command::Invalid => CommandView::Invalid,
        }
    }
}

/// Whether `line` is `letter`, a space, and whatever follows.
pub open spec fn takes_name(line: Seq<char>, letter: char) -> bool {
    line.len() >= 2 && line[0] == letter && line[1] == ' '
}

/// The command that `line` stands for. A line that starts with `p` or `q` and
/// a space is a command with a name, which is the rest of the line, even if
/// that is empty. Any other line is a command only if it is one of the fixed
/// words from end to end.
pub open spec fn parsed(line: Seq<char>) -> CommandView {
    if takes_name(line, 'p') {
        CommandView::Play(line.skip(2))
    } else if takes_name(line, 'q') {
        CommandView::Queue(line.skip(2))
    } else if line == seq!['p', 'z'] {
        CommandView::Pause
    } else if line == seq!['r'] {
        CommandView::Resume
    } else if line == seq!['s'] {
        CommandView::Stop
    } else if line == seq!['n', 'x'] {
        CommandView::Next
    } else if line == seq!['p', 'r'] {
        CommandView::Previous
    } else if line == seq!['h'] {
        CommandView::Help
    } else if line == seq!['e'] {
        CommandView::Exit
    } else {
        CommandView::Invalid
    }
}

/// The path of the track called `name` in `directory`: the directory as it is
/// written, the name, and the ending `.mp3`.
pub open spec fn track_path(directory: Seq<char>, name: Seq<char>) -> Seq<char> {
    directory + name + ".mp3"@
}

/// The message that `command` sends to the controller, if it sends one, with
/// names resolved in `directory`.
pub open spec fn message_of(command: CommandView, directory: Seq<char>) -> Option<MessageView> {
    match command {
        CommandView::Play(name) => Some(MessageView::Play(track_path(directory, name))),
        CommandView::Queue(name) => Some(MessageView::Queue(track_path(directory, name))),
        CommandView::Pause => Some(MessageView::Pause),
        CommandView::Resume => Some(MessageView::Resume),
        CommandView::Stop => Some(MessageView::Stop),
        CommandView::Next => Some(MessageView::Next),
        CommandView::Previous => Some(MessageView::Previous),
        CommandView::Help => None,
        CommandView::Exit => None,
        CommandView::Invalid => None,
    }
}

/// Reads one line of input as a command.
pub fn parse_command(line: &str) -> (command: Command)
    ensures
        command@ == parsed(line@),
{
    let len = line.unicode_len();
    if len == 0 {
        return Command::Invalid;
    }
    let first = line.get_char(0);
    if len == 1 {
        assert(line@ =~= seq![first]);
        return if first == 'r' {
            Command::Resume
        } else if first == 's' {
            Command::Stop
        } else if first == 'h' {
            Command::Help
        } else if first == 'e' {
            Command::Exit
        } else {
            Command::Invalid
        };
    }
    let second = line.get_char(1);
    if second == ' ' && (first == 'p' || first == 'q') {
        let name = String::from_str(line.substring_char(2, len));
        assert(name@ =~= line@.skip(2));
        return if first == 'p' {
            Command::Play(name)
        } else {
            Command::Queue(name)
        };
    }
    if len == 2 {
        assert(line@ =~= seq![first, second]);
        if first == 'p' && second == 'z' {
            Command::Pause
        } else if first == 'n' && second == 'x' {
            Command::Next
        } else if first == 'p' && second == 'r' {
            Command::Previous
        } else {
            Command::Invalid
        }
    } else {
        Command::Invalid
    }
}

/// Makes the track called `name` in `directory`. The directory is taken as it
/// is written: it ends with its separator.
pub fn resolve_track(directory: &str, name: &str) -> (track: TrackRef)
    ensures
        track@ == track_path(directory@, name@),
{
    let mut path = String::from_str(directory);
    path.append(name);
    path.append(".mp3");
    TrackRef::new(path)
}

impl Command {
    /// The message that the command sends to the controller, with names
    /// resolved in `directory`. The commands that show the help, leave the
    /// program or are invalid send none.
    pub fn into_message(self, directory: &str) -> (message: Option<ControlMessage>)
        ensures
            match message {
                Some(message) => message_of(self@, directory@) == Some(message@),
                None => message_of(self@, directory@).is_none(),
            },
    {
        match self {
            Command::Play(name) => Some(
                ControlMessage::Play(resolve_track(directory, name.as_str())),
            ),
            Command::Queue(name) => Some(
                ControlMessage::Queue(resolve_track(directory, name.as_str())),
            ),
            Command::Pause => Some(ControlMessage::Pause),
            Command::Resume => Some(ControlMessage::Resume),
            Command::Stop => Some(ControlMessage::Stop),
            Command::Next => Some(ControlMessage::Next),
            Command::Previous => Some(ControlMessage::Previous),
            Command::Help => None,
            Command::Exit => None,
            Command::Invalid => None,
        }
    }
}

} // verus!
