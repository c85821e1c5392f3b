//! The dispatcher's decisions: what to run for an action, and what to report
//! of a command that has run.

use vstd::prelude::*;
use vstd::string::*;
use vstd::utf8::*;
use crate::conf::{clone_texts, texts, Exec, ExecModel};
use crate::press::Action;
use crate::text::{split_words, words};

verus! {

/// How many actions may wait to be run. An action that finds the queue full
/// is dropped, so that the port's callback never waits.
pub const QUEUE_CAPACITY: usize = 64;

/// A program and its arguments.
#[derive(Debug, PartialEq, Eq)]
pub struct CommandLine {
    pub program: String,
    pub args: Vec<String>,
}

/// The program and its arguments in one list: the words of a command line,
/// or the elements of a list as they stand.
pub open spec fn argv_of(command: ExecModel) -> Seq<Seq<char>> {
    match command {
        ExecModel::Line(line) => words(line),
        ExecModel::Argv(list) => list,
    }
}

/// Tells what to run for an action: the first word is the program, the rest
/// are its arguments. An action without a word gives nothing to run.
pub fn get_command(action: &Action) -> (command: Option<CommandLine>)
    ensures
        match command {
            Some(c) => argv_of(action@).len() > 0 && c.program@ == argv_of(action@)[0] && texts(
                c.args@,
            ) == argv_of(action@).skip(1),
            None => argv_of(action@).len() == 0,
        },
{
    let mut list: Vec<String> = match action {
        Action::Exec(Exec::String(line)) => split_words(line.as_str()),
        Action::Exec(Exec::List(items)) => clone_texts(items),
    };
    assert(texts(list@) == argv_of(action@));
    if list.len() == 0 {
        return None;
    }
    let ghost all = list@;
    let program = list.remove(0);
    assert(texts(list@) =~= texts(all).skip(1));
    assert(texts(all)[0] == program@);
    Some(CommandLine { program, args: list })
}

/// What is shown in place of output that is no UTF-8 text.
pub open spec fn unreadable_marker() -> Seq<char> {
    "err: unreadable output"@
}

/// A text without its last character, where that is a line feed.
pub open spec fn without_final_newline(text: Seq<char>) -> Seq<char> {
    if text.len() > 0 && text.last() == '\n' {
        text.drop_last()
    } else {
        text
    }
}

/// How captured output is shown: as the text that it encodes, without one
/// final line feed; output that is no UTF-8 text is shown as a marker.
pub open spec fn shown(output: Seq<u8>) -> Seq<char> {
    if valid_utf8(output) {
        without_final_newline(decode_utf8(output))
    } else {
        unreadable_marker()
    }
}

/// Calls `core::str::from_utf8`. Trusted: the bytes are accepted exactly
/// where they are well-formed UTF-8, and the text is then what they encode.
#[verifier::external_body]
fn decode_text(bytes: &[u8]) -> (text: Option<&str>)
    ensures
        text is Some <==> valid_utf8(bytes@),
        text matches Some(t) ==> t@ == decode_utf8(bytes@),
{
    match core::str::from_utf8(bytes) {
        Ok(text) => Some(text),
        Err(_) => None,
    }
}

/// Makes captured output fit to be shown.
pub fn write_output(output: &[u8]) -> (text: &str)
    ensures
        text@ == shown(output@),
{
    match decode_text(output) {
        Some(decoded) => {
            let len: usize = decoded.unicode_len();
            if len > 0 && decoded.get_char(len - 1) == '\n' {
                let stripped = decoded.substring_char(0, len - 1);
                assert(stripped@ =~= decoded@.drop_last());
                stripped
            } else {
                decoded
            }
        },
        None => "err: unreadable output",
    }
}

/// How a command ended.
#[derive(Debug, PartialEq, Eq)]
pub enum Outcome {
    /// It ran and left, with or without success; what it wrote was captured.
    Exited { success: bool, stdout: Vec<u8>, stderr: Vec<u8> },
    /// It could not be started; the text says why.
    NotStarted(String),
}

/// What to tell of a command that has ended.
#[derive(Debug, PartialEq, Eq)]
pub enum Report {
    /// Nothing.
    Silent,
    /// The command succeeded; this is its output.
    Output(String),
    /// The command failed; this is what it wrote to its error stream.
    Failed(String),
    /// The command could not be started; this is why.
    NotStarted(String),
}

/// A report as plain values.
pub enum ReportModel {
    Silent,
    Output(Seq<char>),
    Failed(Seq<char>),
    NotStarted(Seq<char>),
}

impl View for Report {
    type V = ReportModel;

    open spec fn view(&self) -> ReportModel {
        match self {
            Report::Silent => ReportModel::Silent,
            Report::Output(text) => ReportModel::Output(text@),
            Report::Failed(text) => ReportModel::Failed(text@),
            Report::NotStarted(text) => ReportModel::NotStarted(text@),
        }
    }
}

/// The report that an outcome calls for. A command that succeeded has its
/// output reported where it wrote anything at all, to either stream; one that
/// wrote nothing is passed over in silence. A command that failed has its
/// error stream reported.
pub open spec fn report_of(outcome: Outcome) -> ReportModel {
    match outcome {
        Outcome::Exited { success, stdout, stderr } => if !success {
            ReportModel::Failed(shown(stderr@))
        } else if stdout@.len() > 0 || stderr@.len() > 0 {
            ReportModel::Output(shown(stdout@))
        } else {
            ReportModel::Silent
        },
        Outcome::NotStarted(reason) => ReportModel::NotStarted(reason@),
    }
}

/// Decides what to tell of a command that has ended. No outcome stops the
/// dispatcher.
pub fn report(outcome: &Outcome) -> (told: Report)
    ensures
        told@ == report_of(*outcome),
{
    match outcome {
        Outcome::Exited { success, stdout, stderr } => {
            if !*success {
                Report::Failed(write_output(stderr.as_slice()).to_owned())
            } else if stdout.len() > 0 || stderr.len() > 0 {
                Report::Output(write_output(stdout.as_slice()).to_owned())
            } else {
                Report::Silent
            }
        },
        Outcome::NotStarted(reason) => Report::NotStarted(reason.clone()),
    }
}

} // verus!
