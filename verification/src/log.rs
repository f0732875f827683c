//! Build logs.

use crate::clock::clock_now;
use crate::clock::is_clock_stamp;
use crate::text::contains;
use crate::text::middle_occurs;
use crate::text::occurs;
use vstd::prelude::*;

verus! {

/// What `str::to_lowercase` makes of a text.
pub uninterp spec fn lowercase(text: Seq<char>) -> Seq<char>;

/// `str::to_lowercase`: the lowercase equivalent of a text, by Unicode's rules.
pub assume_specification[ str::to_lowercase ](text: &str) -> (r: String)
    ensures
        r@ == lowercase(text@),
;

/// A line of a build log, with the time at which it was written.
#[derive(Clone, Debug)]
pub struct LogLine {
    pub timestamp: String,
    pub text: String,
    pub is_error: bool,
}

impl LogLine {
    /// A line written now.
    pub fn stamped(text: String, is_error: bool) -> (r: LogLine)
        ensures
            is_clock_stamp(r.timestamp@),
            r.text == text,
            r.is_error == is_error,
    {
        LogLine { timestamp: clock_now(), text, is_error }
    }
}

/// A line of a build log before it is written.
#[derive(Clone, Debug)]
pub struct Note {
    pub text: String,
    pub is_error: bool,
}

/// What a note says, and whether it reports an error.
pub type NoteView = (Seq<char>, bool);

impl View for Note {
    type V = NoteView;

    open spec fn view(&self) -> NoteView {
        (self.text@, self.is_error)
    }
}

/// A note that reports no error.
pub open spec fn said(text: Seq<char>) -> NoteView {
    (text, false)
}

/// A note that reports an error.
pub open spec fn failed(text: Seq<char>) -> NoteView {
    (text, true)
}

/// A run of notes.
#[derive(Clone, Debug)]
pub struct Notes {
    pub entries: Vec<Note>,
}

impl View for Notes {
    type V = Seq<NoteView>;

    open spec fn view(&self) -> Seq<NoteView> {
        self.entries@.map_values(|n: Note| n@)
    }
}

impl Notes {
    /// No notes.
    pub fn new() -> (r: Notes)
        ensures
            r@ == Seq::<NoteView>::empty(),
    {
        let r = Notes { entries: Vec::new() };
        assert(r@ =~= Seq::<NoteView>::empty());
        r
    }

    /// Adds a note that reports no error.
    pub fn say(&mut self, text: &str)
        ensures
            final(self)@ == old(self)@.push(said(text@)),
    {
        self.entries.push(Note { text: text.to_owned(), is_error: false });
        assert(self@ =~= old(self)@.push(said(text@)));
    }

    /// Adds a note that reports no error: a label and what it is about.
    pub fn say_of(&mut self, label: &str, value: &str)
        ensures
            final(self)@ == old(self)@.push(said(label@ + value@)),
    {
        let text = label.to_owned().concat(value);
        self.say(text.as_str());
    }

    /// Adds a note that reports an error.
    pub fn fail(&mut self, text: &str)
        ensures
            final(self)@ == old(self)@.push(failed(text@)),
    {
        self.entries.push(Note { text: text.to_owned(), is_error: true });
        assert(self@ =~= old(self)@.push(failed(text@)));
    }

    /// Adds the notes of another run at the end.
    pub fn append(&mut self, other: Notes)
        ensures
            final(self)@ == old(self)@ + other@,
    {
        let mut entries = other.entries;
        let ghost before = self.entries@;
        let ghost added = entries@;
        self.entries.append(&mut entries);
        assert(self.entries@ =~= before + added);
        assert(self@ =~= old(self)@ + other@);
    }
}

/// A lowercase line names a failure of a command.
pub open spec fn names_failure(lowered: Seq<char>) -> bool {
    occurs(lowered, "error"@) || occurs(lowered, "failed"@)
}

/// A lowercase line names a failure of an image build, which may also call it fatal.
pub open spec fn names_build_failure(lowered: Seq<char>) -> bool {
    names_failure(lowered) || occurs(lowered, "fatal"@)
}

/// Whether a lowercase line that a command wrote names a failure.
pub fn lowered_names_failure(lowered: &str) -> (r: bool)
    ensures
        r == names_failure(lowered@),
{
    contains(lowered, "error") || contains(lowered, "failed")
}

/// Whether a lowercase line that an image build wrote names a failure.
pub fn lowered_names_build_failure(lowered: &str) -> (r: bool)
    ensures
        r == names_build_failure(lowered@),
{
    lowered_names_failure(lowered) || contains(lowered, "fatal")
}

/// Whether a line on the error stream of a command is an error, and not mere progress.
pub fn command_line_is_error(line: &str) -> (r: bool)
    ensures
        r == names_failure(lowercase(line@)),
{
    lowered_names_failure(line.to_lowercase().as_str())
}

/// Whether a line on the error stream of an image build is an error. Docker
/// writes its progress there too.
pub fn build_line_is_error(line: &str) -> (r: bool)
    ensures
        r == names_build_failure(lowercase(line@)),
{
    lowered_names_build_failure(line.to_lowercase().as_str())
}

/// A note says its own text and tells whether it is an error, in a run as by
/// itself.
pub proof fn notes_say_what_they_hold(notes: Notes, i: int)
    requires
        0 <= i < notes.entries@.len(),
    ensures
        notes@.len() == notes.entries@.len(),
        notes@[i].0 == notes.entries@[i].text@,
        notes@[i].1 == notes.entries@[i].is_error,
{
}

/// What is said is no error, and what failed is one; both are in the same words.
pub proof fn failures_are_errors(text: Seq<char>)
    ensures
        said(text).0 == text,
        failed(text).0 == text,
        !said(text).1,
        failed(text).1,
{
}

/// A line names a failure wherever the words stand in it: an error and a failure
/// count for every command, what is fatal for an image build alone. A line with
/// none of the words names none.
pub proof fn failures_are_named_by_words(front: Seq<char>, back: Seq<char>, line: Seq<char>)
    ensures
        names_failure(front + "error"@ + back),
        names_failure(front + "failed"@ + back),
        names_build_failure(front + "error"@ + back),
        names_build_failure(front + "failed"@ + back),
        names_build_failure(front + "fatal"@ + back),
        !occurs(line, "error"@) && !occurs(line, "failed"@) ==> !names_failure(line),
        !occurs(line, "error"@) && !occurs(line, "failed"@) && !occurs(line, "fatal"@)
            ==> !names_build_failure(line),
{
    middle_occurs(front, "error"@, back);
    middle_occurs(front, "failed"@, back);
    middle_occurs(front, "fatal"@, back);
}

/// What a command's line says is an error says so of an image build too.
pub proof fn command_failures_are_build_failures(line: Seq<char>)
    ensures
        names_failure(line) ==> names_build_failure(line),
        names_build_failure(line) && !occurs(line, "fatal"@) ==> names_failure(line),
{
}

} // verus!
