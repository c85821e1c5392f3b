//! The configuration records as a user writes them.

use vstd::prelude::*;

verus! {

/// The views of a sequence of strings, one for one.
pub open spec fn texts(items: Seq<String>) -> Seq<Seq<char>> {
    items.map_values(|s: String| s@)
}

/// What a command holds, as plain sequences.
pub enum ExecModel {
    /// One command line, to be split at white space.
    Line(Seq<char>),
    /// The program and its arguments, each taken as it stands.
    Argv(Seq<Seq<char>>),
}

/// A command: either one line to be split at white space, or the program and
/// its arguments as a list.
#[derive(Debug, PartialEq, Eq)]
pub enum Exec {
    String(String),
    List(Vec<String>),
}

impl View for Exec {
    type V = ExecModel;

    open spec fn view(&self) -> ExecModel {
        match self {
            Exec::String(s) => ExecModel::Line(s@),
            Exec::List(l) => ExecModel::Argv(texts(l@)),
        }
    }
}

/// Copies a list of strings.
pub fn clone_texts(items: &Vec<String>) -> (copy: Vec<String>)
    ensures
        texts(copy@) == texts(items@),
{
    let mut copy: Vec<String> = Vec::new();
    let mut i: usize = 0;
    while i < items.len()
        invariant
            i <= items.len(),
            copy.len() == i,
            forall|k: int| 0 <= k < i ==> copy[k]@ == items[k]@,
        decreases items.len() - i,
    {
        copy.push(items[i].clone());
        i += 1;
    }
    assert(texts(copy@) =~= texts(items@));
    copy
}

impl Clone for Exec {
    fn clone(&self) -> (copy: Exec)
        ensures
            copy@ == self@,
    {
        match self {
            Exec::String(s) => Exec::String(s.clone()),
            Exec::List(l) => Exec::List(clone_texts(l)),
        }
    }
}

/// One configured input, with its note and hold time still as text.
#[derive(Debug, PartialEq, Eq)]
pub struct Input {
    /// A part of the name of the MIDI input port to listen on.
    pub port: String,
    /// The note number, in decimal.
    pub note: String,
    /// The command to run.
    pub command: Exec,
    /// How long the note must be held, if at all, such as `500ms`.
    pub hold_time: Option<String>,
}

impl Clone for Input {
    fn clone(&self) -> (copy: Input)
        ensures
            copy.port@ == self.port@,
            copy.note@ == self.note@,
            copy.command@ == self.command@,
            copy.hold_time is Some <==> self.hold_time is Some,
            copy.hold_time matches Some(t) ==> t@ == self.hold_time->0@,
    {
        let hold_time = match &self.hold_time {
            Some(text) => Some(text.clone()),
            None => None,
        };
        Input {
            port: self.port.clone(),
            note: self.note.clone(),
            command: self.command.clone(),
            hold_time,
        }
    }
}

/// The whole configuration.
#[derive(Debug, PartialEq, Eq)]
pub struct Config {
    pub inputs: Vec<Input>,
}

impl Default for Config {
    fn default() -> (config: Config)
        ensures
            config.inputs@.len() == 0,
    {
        Config { inputs: Vec::new() }
    }
}

} // verus!
