//! What came back from one call, and the log line that reports it.
use vstd::prelude::*;
use vstd::string::*;
use crate::request::Trigger;

verus! {

/// The only status that counts as success.
pub const SUCCESS_STATUS: u16 = 200;

pub const DELETION_DONE: &'static str =
    "Successfully triggered deletion of user data from IDV provider databases";

pub const DELETION_FAILED: &'static str =
    "Error triggering deletion of user data from IDV provider databases";

pub const TRANSFER_DONE: &'static str = "Successfully triggered transfer of funds";

pub const TRANSFER_FAILED: &'static str = "Error triggering transfer of funds";

pub const PARSE_FAILED: &'static str = "Error parsing response json";

pub const STATUS_LABEL: &'static str = ". response status: ";

pub const BODY_LABEL: &'static str = ". response: ";

pub const DETAIL_LABEL: &'static str = ": ";

/// How one call ended, with what the caller needs in order to report it.
#[derive(Debug)]
pub enum CallOutcome<T> {
    /// A response with the success status and a body of the expected shape.
    Succeeded { status: u16, body: T },
    /// A response with a body of the expected shape and any other status.
    Rejected { status: u16, body: T },
    /// A response whose body does not have the expected shape.
    Unparsable { detail: String },
    /// No response at all.
    Unreachable { detail: String },
}

/// The four ways a call can end, without their data.
#[derive(Clone, Copy, Debug, PartialEq, Eq, Structural)]
pub enum OutcomeKind {
    Succeeded,
    Rejected,
    Unparsable,
    Unreachable,
}

#[derive(Clone, Copy, Debug, PartialEq, Eq, Structural)]
pub enum LogLevel {
    Info,
    Error,
}

/// The outcome of a reply: `Err` when no response came, otherwise the status
/// with the body's parse result.
pub open spec fn classified<T>(reply: Result<(u16, Result<T, String>), String>) -> CallOutcome<T> {
    match reply {
        Err(detail) => CallOutcome::Unreachable { detail },
        Ok((_, Err(detail))) => CallOutcome::Unparsable { detail },
        Ok((status, Ok(body))) => if status == SUCCESS_STATUS {
            CallOutcome::Succeeded { status, body }
        } else {
            CallOutcome::Rejected { status, body }
        },
    }
}

/// Sorts a reply into its outcome. A failed parse wins over the status; the
/// status decides between success and rejection only for a parsed body.
pub fn classify<T>(reply: Result<(u16, Result<T, String>), String>) -> (r: CallOutcome<T>)
    ensures
        r == classified(reply),
{
    match reply {
        Err(detail) => CallOutcome::Unreachable { detail },
        Ok((status, parsed)) => match parsed {
            Err(detail) => CallOutcome::Unparsable { detail },
            Ok(body) => if status == SUCCESS_STATUS {
                CallOutcome::Succeeded { status, body }
            } else {
                CallOutcome::Rejected { status, body }
            },
        },
    }
}

impl<T> CallOutcome<T> {
    pub open spec fn spec_kind(&self) -> OutcomeKind {
        match self {
            CallOutcome::Succeeded { .. } => OutcomeKind::Succeeded,
            CallOutcome::Rejected { .. } => OutcomeKind::Rejected,
            CallOutcome::Unparsable { .. } => OutcomeKind::Unparsable,
            CallOutcome::Unreachable { .. } => OutcomeKind::Unreachable,
        }
    }

    pub fn kind(&self) -> (r: OutcomeKind)
        ensures
            r == self.spec_kind(),
    {
        match self {
            CallOutcome::Succeeded { .. } => OutcomeKind::Succeeded,
            CallOutcome::Rejected { .. } => OutcomeKind::Rejected,
            CallOutcome::Unparsable { .. } => OutcomeKind::Unparsable,
            CallOutcome::Unreachable { .. } => OutcomeKind::Unreachable,
        }
    }
}

/// Only a success is reported at info level.
pub open spec fn level_of(k: OutcomeKind) -> LogLevel {
    if k == OutcomeKind::Succeeded {
        LogLevel::Info
    } else {
        LogLevel::Error
    }
}

pub fn level(k: OutcomeKind) -> (r: LogLevel)
    ensures
        r == level_of(k),
{
    match k {
        OutcomeKind::Succeeded => LogLevel::Info,
        _ => LogLevel::Error,
    }
}

/// The opening words of the log line for a trigger's outcome. A parse
/// failure reads the same for both triggers.
pub open spec fn headline_of(t: Trigger, k: OutcomeKind) -> Seq<char> {
    match k {
        OutcomeKind::Unparsable => PARSE_FAILED@,
        OutcomeKind::Succeeded => match t {
            Trigger::Deletion => DELETION_DONE@,
            Trigger::Transfer => TRANSFER_DONE@,
        },
        _ => match t {
            Trigger::Deletion => DELETION_FAILED@,
            Trigger::Transfer => TRANSFER_FAILED@,
        },
    }
}

pub fn headline(t: Trigger, k: OutcomeKind) -> (r: &'static str)
    ensures
        r@ == headline_of(t, k),
{
    match k {
        OutcomeKind::Unparsable => PARSE_FAILED,
        OutcomeKind::Succeeded => match t {
            Trigger::Deletion => DELETION_DONE,
            Trigger::Transfer => TRANSFER_DONE,
        },
        _ => match t {
            Trigger::Deletion => DELETION_FAILED,
            Trigger::Transfer => TRANSFER_FAILED,
        },
    }
}

/// Whether an outcome kind carries a response (status and parsed body).
pub open spec fn has_response(k: OutcomeKind) -> bool {
    k == OutcomeKind::Succeeded || k == OutcomeKind::Rejected
}

/// The full log line: an outcome with a response reports the rendered
/// status and body; the others report the rendered failure detail.
pub open spec fn line_of(t: Trigger, k: OutcomeKind, status: Seq<char>, payload: Seq<char>) -> Seq<
    char,
> {
    if has_response(k) {
        headline_of(t, k) + STATUS_LABEL@ + status + BODY_LABEL@ + payload
    } else {
        headline_of(t, k) + DETAIL_LABEL@ + payload
    }
}

/// Renders the log line for an outcome. `status` is the rendered status
/// (ignored when there was no parsed response) and `payload` the rendered
/// body or failure detail.
pub fn log_line(t: Trigger, k: OutcomeKind, status: &str, payload: &str) -> (r: String)
    ensures
        r@ == line_of(t, k, status@, payload@),
{
    let mut line = String::from_str(headline(t, k));
    match k {
        OutcomeKind::Succeeded | OutcomeKind::Rejected => {
            line.append(STATUS_LABEL);
            line.append(status);
            line.append(BODY_LABEL);
            line.append(payload);
        },
        _ => {
            line.append(DETAIL_LABEL);
            line.append(payload);
        },
    }
    line
}

/// Whether `part` occurs in `s` as a contiguous run.
pub open spec fn occurs_in(part: Seq<char>, s: Seq<char>) -> bool {
    exists|i: int| 0 <= i && i + part.len() <= s.len() && #[trigger] s.subrange(i, i + part.len()) == part
}

/// A parsed response is logged at info level exactly when its status is the
/// success status, otherwise at error level, and in both cases the line
/// holds the rendered status and the rendered body.
pub proof fn lemma_response_is_reported<T>(
    t: Trigger,
    status: u16,
    body: T,
    status_text: Seq<char>,
    body_text: Seq<char>,
)
    ensures
        ({
            let k = classified::<T>(Ok((status, Ok(body)))).spec_kind();
            let line = line_of(t, k, status_text, body_text);
            &&& (level_of(k) == LogLevel::Info <==> status == SUCCESS_STATUS)
            &&& occurs_in(status_text, line)
            &&& occurs_in(body_text, line)
        }),
{
    let k = classified::<T>(Ok((status, Ok(body)))).spec_kind();
    let h = headline_of(t, k) + STATUS_LABEL@;
    let line = line_of(t, k, status_text, body_text);
    let a = h + status_text;
    let b = a + BODY_LABEL@;
    assert(line == b + body_text);
    assert(line.subrange(h.len() as int, (h.len() + status_text.len()) as int) =~= status_text);
    assert(line.subrange(b.len() as int, (b.len() + body_text.len()) as int) =~= body_text);
}

/// A body without the expected shape is a parse failure whatever the status:
/// it is logged at error level with the parse-failure line.
pub proof fn lemma_malformed_is_parse_failure<T>(
    t: Trigger,
    status: u16,
    detail: String,
    status_text: Seq<char>,
)
    ensures
        ({
            let k = classified::<T>(Ok((status, Err(detail)))).spec_kind();
            &&& k == OutcomeKind::Unparsable
            &&& level_of(k) == LogLevel::Error
            &&& line_of(t, k, status_text, detail@) == PARSE_FAILED@ + DETAIL_LABEL@ + detail@
        }),
{
}

/// A call that got no response is a transport failure, logged at error
/// level with the trigger's failure line and the detail.
pub proof fn lemma_unreachable_is_transport_failure<T>(
    t: Trigger,
    detail: String,
    status_text: Seq<char>,
)
    ensures
        ({
            let k = classified::<T>(Err(detail)).spec_kind();
            &&& k == OutcomeKind::Unreachable
            &&& level_of(k) == LogLevel::Error
            &&& line_of(t, k, status_text, detail@) == headline_of(t, OutcomeKind::Rejected)
                + DETAIL_LABEL@ + detail@
        }),
{
}

} // verus!
