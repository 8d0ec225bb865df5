//! Log records: immutable timestamped entries, each rendered as one JSON
//! line for the durable newline-delimited log.

use vstd::prelude::*;

use crate::encode::append_escaped;
use crate::encode::escape_text;
use crate::encode::lemma_escape_text_line_safe;
use crate::encode::lemma_line_safe_concat;
use crate::encode::line_safe;

verus! {

/// Which side of an exchange a record carries: the transcript of a captured
/// chunk, or the assistant's generated response.
#[derive(Clone, Copy, PartialEq, Eq, Structural, Debug)]
pub enum Source {
    Capture,
    Assistant,
}

/// The stable tag that names a source inside a serialized record.
pub open spec fn source_tag(s: Source) -> Seq<char> {
    match s {
        Source::Capture => "capture"@,
        Source::Assistant => "assistant"@,
    }
}

/// One immutable log record: written once to the durable log and broadcast
/// once to live subscribers, in that order.
#[derive(Debug)]
pub struct LogRecord {
    pub timestamp: String,
    pub source: Source,
    pub text: String,
}

/// The mathematical value of a log record.
#[verifier::ext_equal]
pub struct RecordModel {
    pub timestamp: Seq<char>,
    pub source: Source,
    pub text: Seq<char>,
}

impl View for LogRecord {
    type V = RecordModel;

    open spec fn view(&self) -> RecordModel {
        RecordModel { timestamp: self.timestamp@, source: self.source, text: self.text@ }
    }
}

/// The one-line JSON rendering of a record: an object with `timestamp`,
/// `source` and `text` members, the texts escaped, and no newline.
pub open spec fn json_line_of(r: RecordModel) -> Seq<char> {
    "{\"timestamp\":\""@ + escape_text(r.timestamp) + "\",\"source\":\""@ + source_tag(r.source)
        + "\",\"text\":\""@ + escape_text(r.text) + "\"}"@
}

/// One record per line: a rendered record never contains a newline, so the
/// newline-delimited durable log is unambiguous whatever the record's texts
/// hold.
pub proof fn lemma_json_line_single_line(r: RecordModel)
    ensures
        line_safe(json_line_of(r)),
{
    reveal_strlit("{\"timestamp\":\"");
    reveal_strlit("\",\"source\":\"");
    reveal_strlit("\",\"text\":\"");
    reveal_strlit("\"}");
    reveal_strlit("capture");
    reveal_strlit("assistant");
    lemma_escape_text_line_safe(r.timestamp);
    lemma_escape_text_line_safe(r.text);
    let a = "{\"timestamp\":\""@ + escape_text(r.timestamp);
    let b = a + "\",\"source\":\""@;
    let c = b + source_tag(r.source);
    let d = c + "\",\"text\":\""@;
    let e = d + escape_text(r.text);
    lemma_line_safe_concat("{\"timestamp\":\""@, escape_text(r.timestamp));
    lemma_line_safe_concat(a, "\",\"source\":\""@);
    lemma_line_safe_concat(b, source_tag(r.source));
    lemma_line_safe_concat(c, "\",\"text\":\""@);
    lemma_line_safe_concat(d, escape_text(r.text));
    lemma_line_safe_concat(e, "\"}"@);
}

impl LogRecord {
    /// An equal copy of the record.
    pub fn duplicate(&self) -> (r: LogRecord)
        ensures
            r@ == self@,
    {
        LogRecord {
            timestamp: self.timestamp.clone(),
            source: self.source,
            text: self.text.clone(),
        }
    }

    /// Renders the record as its one JSON log line.
    pub fn json_line(&self) -> (line: String)
        ensures
            line@ == json_line_of(self@),
    {
        let mut out = String::from_str("{\"timestamp\":\"");
        append_escaped(&mut out, self.timestamp.as_str());
        out.append("\",\"source\":\"");
        match self.source {
            Source::Capture => out.append("capture"),
            Source::Assistant => out.append("assistant"),
        }
        out.append("\",\"text\":\"");
        append_escaped(&mut out, self.text.as_str());
        out.append("\"}");
        proof {
            assert(out@ =~= json_line_of(self@));
        }
        out
    }
}

} // verus!
