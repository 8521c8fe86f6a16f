//! The messages of a run's output stream, as far as the supervisor reads
//! them, and the events that a run reports.

use cargo_metadata::Message as Cargo;
use cargo_metadata::diagnostic::Diagnostic;
use vstd::prelude::*;

verus! {

/// One message of the output stream.
#[derive(Debug)]
pub enum BuildMessage {
    /// An artifact was built; `fresh` when nothing had to be rebuilt.
    CompilerArtifact { target_name: String, fresh: bool },
    /// The compiler reported a diagnostic.
    CompilerMessage(Diagnostic),
    /// A build script ran.
    BuildScriptExecuted,
    /// The build has finished.
    BuildFinished { success: bool },
    /// A line that is not a message of the build tool.
    TextLine(String),
    /// A message of a kind that is not known.
    Unknown,
}

/// What a message holds that the supervisor reads, as plain values.
pub enum MessageShape {
    Artifact { target_name: Seq<char>, fresh: bool },
    Diagnostic,
    BuildScriptExecuted,
    BuildFinished { success: bool },
    TextLine(Seq<char>),
    Unknown,
}

impl BuildMessage {
    pub open spec fn shape(&self) -> MessageShape {
        match self {
            BuildMessage::CompilerArtifact { target_name, fresh } => MessageShape::Artifact {
                target_name: target_name@,
                fresh: *fresh,
            },
            BuildMessage::CompilerMessage(_) => MessageShape::Diagnostic,
            BuildMessage::BuildScriptExecuted => MessageShape::BuildScriptExecuted,
            BuildMessage::BuildFinished { success } => MessageShape::BuildFinished { success: *success },
            BuildMessage::TextLine(t) => MessageShape::TextLine(t@),
            BuildMessage::Unknown => MessageShape::Unknown,
        }
    }
}

/// The message that one line of the output stream, with its terminator,
/// reads as, if any. It depends on the bytes alone.
pub uninterp spec fn line_message(raw: Seq<u8>) -> Option<MessageShape>;

/// A line without its terminator, `\n` or `\r\n`.
pub open spec fn spec_strip_terminator(raw: Seq<u8>) -> Seq<u8> {
    if raw.len() > 0 && raw.last() == 10u8 {
        let t = raw.drop_last();
        if t.len() > 0 && t.last() == 13u8 {
            t.drop_last()
        } else {
            t
        }
    } else {
        raw
    }
}

/// A single line of ASCII text that cannot start a JSON object or array:
/// no `{`, no `[`, and no newline but at its end.
pub open spec fn spec_plain_text(raw: Seq<u8>) -> bool {
    &&& raw.len() > 0
    &&& forall|i: int|
        0 <= i < raw.len() ==> {
            &&& #[trigger] raw[i] < 128u8
            &&& raw[i] != 123u8
            &&& raw[i] != 91u8
            &&& (raw[i] == 10u8 ==> i == raw.len() - 1)
        }
}

/// ASCII bytes as characters.
pub open spec fn spec_ascii_chars(b: Seq<u8>) -> Seq<char> {
    b.map_values(|x: u8| x as char)
}

/// Whether a result is the text message of a line, without its terminator.
pub open spec fn spec_is_text_of(r: Option<BuildMessage>, raw: Seq<u8>) -> bool {
    r matches Some(m) && m.shape() == MessageShape::TextLine(spec_ascii_chars(spec_strip_terminator(raw)))
}

/// Relies on `cargo_metadata::Message::parse_stream`, applied to one line of
/// output with its terminator: the line yields a message unless reading it
/// fails (it is not UTF-8, or there is no line). Each variant of
/// `cargo_metadata::Message` is mapped to the variant of the same name,
/// keeping the fields that the supervisor reads. A line that is not JSON
/// becomes a text message without its terminator.
#[verifier::external_body]
fn parse_line(raw: &[u8]) -> (r: Option<BuildMessage>)
    ensures
        r.is_some() == line_message(raw@).is_some(),
        r matches Some(m) ==> line_message(raw@) == Some(m.shape()),
        spec_plain_text(raw@) ==> spec_is_text_of(r, raw@),
{
    let m = match Cargo::parse_stream(raw).next() {
        Some(Ok(m)) => m,
        _ => return None,
    };
    Some(match m {
        Cargo::CompilerArtifact(a) => BuildMessage::CompilerArtifact { target_name: a.target.name, fresh: a.fresh },
        Cargo::CompilerMessage(c) => BuildMessage::CompilerMessage(c.message),
        Cargo::BuildScriptExecuted(_) => BuildMessage::BuildScriptExecuted,
        Cargo::BuildFinished(b) => BuildMessage::BuildFinished { success: b.success },
        Cargo::TextLine(t) => BuildMessage::TextLine(t),
        Cargo::Unknown => BuildMessage::Unknown,
    })
}

/// Reads one line of the output stream, given with its terminator. `None`
/// when the line does not read as a message.
pub fn decode_line(raw: &[u8]) -> (r: Option<BuildMessage>)
    ensures
        r.is_some() == line_message(raw@).is_some(),
        r matches Some(m) ==> line_message(raw@) == Some(m.shape()),
        spec_plain_text(raw@) ==> spec_is_text_of(r, raw@),
{
    parse_line(raw)
}

/// Whether a message is worth passing on: an artifact that did not change,
/// a build script's run and a message of unknown kind are not.
pub open spec fn spec_forwards(m: BuildMessage) -> bool {
    match m {
        BuildMessage::CompilerArtifact { fresh, .. } => !fresh,
        BuildMessage::BuildScriptExecuted => false,
        BuildMessage::Unknown => false,
        _ => true,
    }
}

/// What a run reports to the supervisor.
#[derive(Debug)]
pub enum CheckEvent {
    /// The run has started.
    Begin,
    /// The run produced a message.
    Msg(BuildMessage),
    /// The run has ended, whether it succeeded or not.
    End,
}

/// The event that a run sends for a message, if any.
pub fn event_for(m: BuildMessage) -> (r: Option<CheckEvent>)
    ensures
        spec_forwards(m) ==> r == Some(CheckEvent::Msg(m)),
        !spec_forwards(m) ==> r.is_none(),
{
    let forward = match &m {
        BuildMessage::CompilerArtifact { fresh, .. } => !*fresh,
        BuildMessage::BuildScriptExecuted => false,
        BuildMessage::Unknown => false,
        _ => true,
    };
    if forward {
        Some(CheckEvent::Msg(m))
    } else {
        None
    }
}

} // verus!
