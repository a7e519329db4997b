//! The answers the service gives to `POST /`, and the HTTP status of each.

use vstd::prelude::*;

use crate::api::identity::Dependency;

verus! {

/// The error text of a refused request with an empty list.
pub const EMPTY_LIST: &'static str = "harmonic mean of empty list";

/// The error text of a reply that names an unavailable dependency.
pub const DEPENDENCY_UNAVAILABLE: &'static str = "dependency unavailable";

/// The error text of a reply that names a dependency whose `200` answer
/// held no number under `result`.
pub const MALFORMED_RESULT: &'static str = "dependency returned a malformed result";

/// The service's answer to an evaluation request.
///
/// Numbers travel as the JSON text that a dependency answered with: the
/// service hands them on and never computes with them itself.
pub enum Reply {
    /// `200`: the harmonic mean, as the text of the number that
    /// `srvcs-floatdivide` answered with; the body echoes the input values.
    Computed { result: Vec<u8> },
    /// `422`: the request cannot be evaluated, with the reason.
    Invalid { reason: &'static str },
    /// `503`: a dependency is unreachable or answered with an unexpected status.
    Degraded { dependency: Dependency },
    /// A dependency's answer passed on as it came: its status and its body.
    Forward { status: u16, body: Vec<u8> },
    /// `500`: a dependency answered `200` without a number under `result`.
    Malformed { dependency: Dependency },
}

/// What a [`Reply`] holds, with byte and character sequences in place of
/// buffers.
pub enum ReplyView {
    Computed { result: Seq<u8> },
    Invalid { reason: Seq<char> },
    Degraded { dependency: Dependency },
    Forward { status: u16, body: Seq<u8> },
    Malformed { dependency: Dependency },
}

impl View for Reply {
    type V = ReplyView;

    open spec fn view(&self) -> ReplyView {
        match self {
            Reply::Computed { result } => ReplyView::Computed { result: result@ },
            Reply::Invalid { reason } => ReplyView::Invalid { reason: reason@ },
            Reply::Degraded { dependency } => ReplyView::Degraded { dependency: *dependency },
            Reply::Forward { status, body } => ReplyView::Forward { status: *status, body: body@ },
            Reply::Malformed { dependency } => ReplyView::Malformed { dependency: *dependency },
        }
    }
}

/// Whether `code` is a status that HTTP can carry: three digits, `100` to `999`.
pub open spec fn is_valid_status(code: u16) -> bool {
    100 <= code <= 999
}

/// The HTTP status of a reply. A forwarded status that HTTP cannot carry
/// becomes `502 Bad Gateway`.
pub open spec fn reply_status(reply: ReplyView) -> u16 {
    match reply {
        ReplyView::Computed { .. } => 200,
        ReplyView::Invalid { .. } => 422,
        ReplyView::Degraded { .. } => 503,
        ReplyView::Forward { status, .. } => if is_valid_status(status) {
            status
        } else {
            502
        },
        ReplyView::Malformed { .. } => 500,
    }
}

/// The text under `error` in the reply's body, where the body has one.
pub open spec fn reply_error(reply: ReplyView) -> Option<Seq<char>> {
    match reply {
        ReplyView::Computed { .. } => None,
        ReplyView::Invalid { reason } => Some(reason),
        ReplyView::Degraded { .. } => Some(DEPENDENCY_UNAVAILABLE@),
        ReplyView::Forward { .. } => None,
        ReplyView::Malformed { .. } => Some(MALFORMED_RESULT@),
    }
}

/// The dependency that the reply names under `dependency`, where it names one.
pub open spec fn reply_dependency(reply: ReplyView) -> Option<Dependency> {
    match reply {
        ReplyView::Degraded { dependency } => Some(dependency),
        ReplyView::Malformed { dependency } => Some(dependency),
        _ => None,
    }
}

/// `http::StatusCode::from_u16` (through axum's re-export), read back with
/// `as_u16`. The source accepts exactly the codes `100..=999` and keeps the
/// code it was given; this contract claims that and nothing else.
#[verifier::external_body]
fn status_code_from_u16(code: u16) -> (status: Option<u16>)
    ensures
        status == (if is_valid_status(code) {
            Some(code)
        } else {
            None::<u16>
        }),
{
    axum::http::StatusCode::from_u16(code).ok().map(|status| status.as_u16())
}

impl Reply {
    /// The HTTP status that the reply is sent with.
    pub fn status(&self) -> (code: u16)
        ensures
            code == reply_status(self@),
    {
        match self {
            Reply::Computed { .. } => 200,
            Reply::Invalid { .. } => 422,
            Reply::Degraded { .. } => 503,
            Reply::Forward { status, .. } => match status_code_from_u16(*status) {
                Some(code) => code,
                None => 502,
            },
            Reply::Malformed { .. } => 500,
        }
    }

    /// The text under `error` in the reply's body, if the body has one.
    pub fn error_message(&self) -> (message: Option<&'static str>)
        ensures
            match message {
                Some(text) => reply_error(self@) == Some(text@),
                None => reply_error(self@) is None,
            },
    {
        match self {
            Reply::Computed { .. } => None,
            Reply::Invalid { reason } => Some(*reason),
            Reply::Degraded { .. } => Some(DEPENDENCY_UNAVAILABLE),
            Reply::Forward { .. } => None,
            Reply::Malformed { .. } => Some(MALFORMED_RESULT),
        }
    }

    /// The dependency that the reply names, if it names one.
    pub fn dependency(&self) -> (dependency: Option<Dependency>)
        ensures
            dependency == reply_dependency(self@),
    {
        match self {
            Reply::Degraded { dependency } => Some(*dependency),
            Reply::Malformed { dependency } => Some(*dependency),
            _ => None,
        }
    }
}

} // verus!
