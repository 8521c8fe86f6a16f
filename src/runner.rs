//! Reading a run's output stream, and the outcome of a run.

use crate::message::{decode_line, line_message, BuildMessage};
use vstd::prelude::*;

verus! {

/// A run failed and gave nothing to show for it: the process exited with a
/// failing status and no line of its output read as a message.
#[derive(Debug, Clone, PartialEq, Eq)]
pub struct RunError {
    /// The exit code, where the process had one.
    pub exit_code: Option<i32>,
    /// The command that was run, as it reads for a person.
    pub command: String,
}

/// What the reader of one run's output stream knows.
pub struct ReaderState {
    pub read_any: bool,
    pub stopped: bool,
}

/// Whether one line of the output stream reads as a message.
pub open spec fn line_decodes(raw: Seq<u8>) -> bool {
    line_message(raw).is_some()
}

/// The state after one more line is read. A line that does not read as a
/// message changes nothing.
pub open spec fn spec_after_line(s: ReaderState, raw: Seq<u8>) -> ReaderState {
    ReaderState { read_any: s.read_any || line_decodes(raw), stopped: s.stopped }
}

/// The state after a whole sequence of lines, none of them stopping the run.
pub open spec fn spec_after_lines(s: ReaderState, lines: Seq<Seq<u8>>) -> ReaderState
    decreases lines.len(),
{
    if lines.len() == 0 {
        s
    } else {
        spec_after_lines(spec_after_line(s, lines[0]), lines.drop_first())
    }
}

/// The number of lines in a sequence that read as messages.
pub open spec fn spec_decoded_count(lines: Seq<Seq<u8>>) -> nat
    decreases lines.len(),
{
    if lines.len() == 0 {
        0
    } else {
        (if line_decodes(lines[0]) { 1nat } else { 0nat }) + spec_decoded_count(lines.drop_first())
    }
}

/// The outcome of a run: a failure only where the process failed and no
/// message was read.
pub open spec fn spec_outcome(read_any: bool, exit_success: bool) -> bool {
    exit_success || read_any
}

/// Reads the output stream of one run, a line at a time. A line that does
/// not read as a message is skipped; reading stops when the receiver of the
/// messages asks for it.
pub struct StreamReader {
    read_at_least_one_message: bool,
    stopped: bool,
}

impl StreamReader {
    pub closed spec fn view(&self) -> ReaderState {
        ReaderState { read_any: self.read_at_least_one_message, stopped: self.stopped }
    }

    pub fn new() -> (r: StreamReader)
        ensures
            !r.view().read_any,
            !r.view().stopped,
    {
        StreamReader { read_at_least_one_message: false, stopped: false }
    }

    /// Whether at least one line has read as a message.
    pub fn read_at_least_one_message(&self) -> (r: bool)
        ensures
            r == self.view().read_any,
    {
        self.read_at_least_one_message
    }

    /// Whether the receiver of the messages has asked to stop.
    pub fn is_stopped(&self) -> (r: bool)
        ensures
            r == self.view().stopped,
    {
        self.stopped
    }

    /// Reads one line, given with its terminator. `None` when the line does
    /// not read as a message; it is then skipped and reading goes on.
    pub fn accept_line(&mut self, raw: &[u8]) -> (r: Option<BuildMessage>)
        ensures
            r.is_some() == line_decodes(raw@),
            r matches Some(m) ==> line_message(raw@) == Some(m.shape()),
            final(self).view() == spec_after_line(old(self).view(), raw@),
    {
        let r = decode_line(raw);
        if r.is_some() {
            self.read_at_least_one_message = true;
        }
        r
    }

    /// Records what the receiver said of the last message: whether to go on.
    pub fn delivered(&mut self, keep_going: bool)
        ensures
            final(self).view() == (ReaderState {
                read_any: old(self).view().read_any,
                stopped: old(self).view().stopped || !keep_going,
            }),
    {
        if !keep_going {
            self.stopped = true;
        }
    }

    /// The outcome of the run, once the process has exited.
    pub fn outcome(&self, exit_success: bool, exit_code: Option<i32>, command: String) -> (r: Result<
        (),
        RunError,
    >)
        ensures
            r.is_ok() == spec_outcome(self.view().read_any, exit_success),
            r.is_err() ==> r == Err::<(), RunError>(RunError { exit_code, command }),
    {
        if !exit_success && !self.read_at_least_one_message {
            Err(RunError { exit_code, command })
        } else {
            Ok(())
        }
    }
}

/// A line that does not read as a message is skipped: it leaves the reader
/// as it was, so that a later line that reads is still taken.
pub proof fn lemma_bad_line_skipped(s: ReaderState, bad: Seq<u8>, good: Seq<u8>)
    requires
        !line_decodes(bad),
        line_decodes(good),
    ensures
        spec_after_line(s, bad) == s,
        spec_after_line(spec_after_line(s, bad), good).read_any,
        spec_after_line(spec_after_line(s, bad), good).stopped == s.stopped,
{
}

/// After a sequence of lines, a message has been read exactly when at least
/// one of them reads as a message, whatever the others hold.
pub proof fn lemma_read_any_iff_some_decodes(s: ReaderState, lines: Seq<Seq<u8>>)
    ensures
        spec_after_lines(s, lines).read_any == (s.read_any || spec_decoded_count(lines) > 0),
        spec_after_lines(s, lines).stopped == s.stopped,
    decreases lines.len(),
{
    if lines.len() > 0 {
        lemma_read_any_iff_some_decodes(spec_after_line(s, lines[0]), lines.drop_first());
    }
}

} // verus!
