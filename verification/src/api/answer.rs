//! How one answer of a dependency is read: the number it gave, or the reply
//! that ends the evaluation.

use vstd::prelude::*;

use crate::api::identity::Dependency;
use crate::api::reply::{Reply, ReplyView};

verus! {

/// What came of one call of a dependency.
pub enum Outcome {
    /// The dependency could not be reached.
    Unreachable,
    /// The dependency answered with this status and body.
    Answered { status: u16, body: Vec<u8> },
}

/// What an [`Outcome`] holds, with the body as a byte sequence.
pub enum OutcomeView {
    Unreachable,
    Answered { status: u16, body: Seq<u8> },
}

impl View for Outcome {
    type V = OutcomeView;

    open spec fn view(&self) -> OutcomeView {
        match self {
            Outcome::Unreachable => OutcomeView::Unreachable,
            Outcome::Answered { status, body } => OutcomeView::Answered {
                status: *status,
                body: body@,
            },
        }
    }
}

/// An optional byte buffer, seen as an optional byte sequence.
pub open spec fn bytes_view(bytes: Option<Vec<u8>>) -> Option<Seq<u8>> {
    match bytes {
        Some(b) => Some(b@),
        None => None,
    }
}

/// A number that a dependency gave, or the reply that ends the evaluation,
/// seen through views.
pub open spec fn answer_view(answer: Result<Vec<u8>, Reply>) -> Result<Seq<u8>, ReplyView> {
    match answer {
        Ok(number) => Ok(number@),
        Err(reply) => Err(reply@),
    }
}

/// The key under which a dependency's answer carries its number.
pub const RESULT_KEY: &'static str = "result";

/// The JSON text of the number under `key` in the JSON object `body`;
/// `None` where `body` is not JSON, not an object, has no such key, or holds
/// something other than a number there.
pub uninterp spec fn json_number_at_spec(body: Seq<u8>, key: Seq<char>) -> Option<Seq<u8>>;

/// `serde_json::from_slice` into a `serde_json::Value`, then `Value::get`
/// with `key`, `Value::as_number`, and the `Display` text of the
/// `serde_json::Number`. Claimed: the result is `json_number_at_spec` of the
/// body and the key, a function of those alone. What that text is, is left
/// unsaid.
#[verifier::external_body]
fn json_number_at(body: &[u8], key: &str) -> (number: Option<Vec<u8>>)
    ensures
        bytes_view(number) == json_number_at_spec(body@, key@),
{
    serde_json::from_slice::<serde_json::Value>(body)
        .ok()
        .and_then(|value| value.get(key).and_then(serde_json::Value::as_number).map(|n| n.to_string().into_bytes()))
}

/// How a dependency's outcome is read, given the number found in its body:
/// unreachable, or any status but `200` and `422`, makes the service report
/// the dependency degraded; `422` is passed on with its body; `200` gives the
/// number, or, without one, a malformed-result reply.
pub open spec fn answer_spec(
    dependency: Dependency,
    outcome: OutcomeView,
    number: Option<Seq<u8>>,
) -> Result<Seq<u8>, ReplyView> {
    match outcome {
        OutcomeView::Unreachable => Err(ReplyView::Degraded { dependency }),
        OutcomeView::Answered { status, body } => if status == 200 {
            match number {
                Some(n) => Ok(n),
                None => Err(ReplyView::Malformed { dependency }),
            }
        } else if status == 422 {
            Err(ReplyView::Forward { status: 422, body })
        } else {
            Err(ReplyView::Degraded { dependency })
        },
    }
}

/// The number that an outcome's body holds under [`RESULT_KEY`], if it answered.
pub open spec fn outcome_number(outcome: OutcomeView) -> Option<Seq<u8>> {
    match outcome {
        OutcomeView::Unreachable => None,
        OutcomeView::Answered { body, .. } => json_number_at_spec(body, RESULT_KEY@),
    }
}

/// Reads `dependency`'s outcome, given `number`, what its body holds under
/// `result`.
pub fn classify_outcome(dependency: Dependency, outcome: Outcome, number: Option<Vec<u8>>) -> (answer:
    Result<Vec<u8>, Reply>)
    ensures
        answer_view(answer) == answer_spec(dependency, outcome@, bytes_view(number)),
{
    match outcome {
        Outcome::Unreachable => Err(Reply::Degraded { dependency }),
        Outcome::Answered { status, body } => {
            if status == 200 {
                match number {
                    Some(n) => Ok(n),
                    None => Err(Reply::Malformed { dependency }),
                }
            } else if status == 422 {
                Err(Reply::Forward { status: 422, body })
            } else {
                Err(Reply::Degraded { dependency })
            }
        },
    }
}

/// Reads `dependency`'s outcome: the number it gave, or the reply that ends
/// the evaluation. The body is looked into only on a `200`.
pub fn read_outcome(dependency: Dependency, outcome: Outcome) -> (answer: Result<Vec<u8>, Reply>)
    ensures
        answer_view(answer) == answer_spec(dependency, outcome@, outcome_number(outcome@)),
{
    let number = match &outcome {
        Outcome::Answered { status, body } => if *status == 200 {
            json_number_at(body.as_slice(), RESULT_KEY)
        } else {
            None
        },
        Outcome::Unreachable => None,
    };
    classify_outcome(dependency, outcome, number)
}

} // verus!
