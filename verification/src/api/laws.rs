//! What holds of whole evaluations: which calls are made, in which order
//! and with which numbers, and what the service answers in the end.

use vstd::prelude::*;

use crate::api::answer::{answer_spec, outcome_number, OutcomeView};
use crate::api::evaluation::{
    advance_spec, awaited_dependency, start_spec, zero_sum, Awaiting, CallView, MachineView,
    StepView,
};
use crate::api::identity::Dependency;
use crate::api::openapi::documented_post_statuses;
use crate::api::reply::{reply_status, ReplyView, EMPTY_LIST};

verus! {

/// What an evaluation at `step` does when the calls it asks for have
/// `outcomes`, in order: the calls it makes, and its reply if it reaches one.
pub open spec fn serve(step: StepView, outcomes: Seq<OutcomeView>) -> (Seq<CallView>, Option<ReplyView>)
    decreases outcomes.len(),
{
    match step {
        StepView::Finish(reply) => (Seq::empty(), Some(reply)),
        StepView::Ask { machine, call } => if outcomes.len() == 0 {
            (seq![call], None)
        } else {
            let next = advance_spec(
                machine,
                answer_spec(awaited_dependency(machine), outcomes[0], outcome_number(outcomes[0])),
            );
            let rest = serve(next, outcomes.drop_first());
            (seq![call] + rest.0, rest.1)
        },
    }
}

/// Whether an outcome gives a number: a `200` whose body holds one under `result`.
pub open spec fn gives_number(outcome: OutcomeView) -> bool {
    &&& outcome matches OutcomeView::Answered { status, .. } && status == 200
    &&& outcome_number(outcome) is Some
}

/// The numbers that the outcomes give, position by position (empty where
/// an outcome gives none).
pub open spec fn numbers_of(outcomes: Seq<OutcomeView>) -> Seq<Seq<u8>> {
    outcomes.map_values(
        |outcome: OutcomeView|
            match outcome_number(outcome) {
                Some(number) => number,
                None => Seq::empty(),
            },
    )
}

/// The running sum before the value at `i`: zero for the first value,
/// afterwards what `srvcs-floatadd` gave for the value before (call `2i - 1`).
pub open spec fn sum_before(numbers: Seq<Seq<u8>>, i: int) -> Seq<u8> {
    if i == 0 {
        zero_sum()
    } else {
        numbers[2 * i - 1]
    }
}

/// The call number `k` (from 0) of an evaluation of `n` values, where
/// `numbers[j]` is what call `j` gave: the reciprocal of value `k / 2` for
/// even `k < 2n`, the sum of the running sum and that reciprocal for odd
/// `k < 2n`, and at `k == 2n` the division of `n` by the last sum.
pub open spec fn expected_call(n: usize, k: int, numbers: Seq<Seq<u8>>) -> CallView {
    if k < 2 * n {
        if k % 2 == 0 {
            CallView::Reciprocal { index: (k / 2) as usize }
        } else {
            CallView::FloatAdd { a: sum_before(numbers, k / 2), b: numbers[k - 1] }
        }
    } else {
        CallView::FloatDivide { count: n, sum: numbers[2 * n - 1] }
    }
}

/// The dependency that call number `k` of an evaluation of `n` values goes to.
pub open spec fn expected_dependency(n: usize, k: int) -> Dependency {
    if k < 2 * n {
        if k % 2 == 0 {
            Dependency::Reciprocal
        } else {
            Dependency::FloatAdd
        }
    } else {
        Dependency::FloatDivide
    }
}

/// The reply to a dependency's outcome that gives no number: what
/// [`answer_spec`] reads it as when no number is found (unreachable, or any
/// status but `200` and `422`, reports the dependency unavailable; a `422`
/// is passed on with its body; a `200` is a malformed result).
pub open spec fn failure_reply(dependency: Dependency, outcome: OutcomeView) -> ReplyView {
    answer_spec(dependency, outcome, None)->Err_0
}

spec fn awaiting_at(n: usize, k: int) -> Awaiting {
    if k < 2 * n {
        if k % 2 == 0 {
            Awaiting::Reciprocal { index: (k / 2) as usize }
        } else {
            Awaiting::Sum { index: (k / 2) as usize }
        }
    } else {
        Awaiting::Quotient
    }
}

spec fn machine_at(n: usize, k: int, numbers: Seq<Seq<u8>>) -> MachineView {
    MachineView { count: n, awaiting: awaiting_at(n, k), sum: sum_before(numbers, k / 2) }
}

spec fn step_at(n: usize, k: int, numbers: Seq<Seq<u8>>) -> StepView {
    StepView::Ask { machine: machine_at(n, k, numbers), call: expected_call(n, k, numbers) }
}

/// The machine at call `k` goes on to the machine at call `k + 1` on the
/// number that call `k` gave, and finishes on the last.
proof fn lemma_step(n: usize, k: int, numbers: Seq<Seq<u8>>)
    requires
        n >= 1,
        0 <= k <= 2 * n,
        k < numbers.len(),
    ensures
        awaited_dependency(machine_at(n, k, numbers)) == expected_dependency(n, k),
        advance_spec(machine_at(n, k, numbers), Ok(numbers[k])) == if k < 2 * n {
            step_at(n, k + 1, numbers)
        } else {
            StepView::Finish(ReplyView::Computed { result: numbers[k] })
        },
{
    if k < 2 * n {
        if k % 2 == 0 {
            assert((k + 1) / 2 == k / 2);
            assert((k + 1) % 2 == 1);
        } else {
            assert((k + 1) / 2 == k / 2 + 1);
            assert((k + 1) % 2 == 0);
            assert(2 * ((k + 1) / 2) - 1 == k);
        }
    } else {
        assert(k / 2 == n);
    }
}

/// An outcome that gives a number is read as that number; one that gives
/// none is read as its failure reply.
proof fn lemma_answer(dependency: Dependency, outcomes: Seq<OutcomeView>, k: int)
    requires
        0 <= k < outcomes.len(),
    ensures
        gives_number(outcomes[k]) ==> answer_spec(
            dependency,
            outcomes[k],
            outcome_number(outcomes[k]),
        ) == Ok::<Seq<u8>, ReplyView>(numbers_of(outcomes)[k]),
        !gives_number(outcomes[k]) ==> answer_spec(
            dependency,
            outcomes[k],
            outcome_number(outcomes[k]),
        ) == Err::<Seq<u8>, ReplyView>(failure_reply(dependency, outcomes[k])),
{
}

/// Each failure reply is answered with a documented status of `POST /`.
proof fn lemma_failure_documented(dependency: Dependency, outcome: OutcomeView)
    ensures
        documented_post_statuses().contains(reply_status(failure_reply(dependency, outcome))),
{
    assert(documented_post_statuses()[1] == 422u16);
    assert(documented_post_statuses()[2] == 500u16);
    assert(documented_post_statuses()[3] == 503u16);
}

/// The computed reply is answered with a documented status of `POST /`.
proof fn lemma_computed_documented(result: Seq<u8>)
    ensures
        documented_post_statuses().contains(reply_status(ReplyView::Computed { result })),
{
    assert(documented_post_statuses()[0] == 200u16);
}

/// One step of `serve` from the machine at call `k`, given that an outcome is there.
proof fn lemma_serve_unfold(n: usize, k: int, outcomes: Seq<OutcomeView>)
    requires
        n >= 1,
        0 <= k <= 2 * n,
        k < outcomes.len(),
    ensures
        ({
            let numbers = numbers_of(outcomes);
            let answer = answer_spec(expected_dependency(n, k), outcomes[k], outcome_number(outcomes[k]));
            let next = advance_spec(machine_at(n, k, numbers), answer);
            let rest = serve(next, outcomes.skip(k + 1));
            serve(step_at(n, k, numbers), outcomes.skip(k)) == (seq![expected_call(n, k, numbers)] + rest.0, rest.1)
        }),
{
    let numbers = numbers_of(outcomes);
    let rest = outcomes.skip(k);
    assert(rest[0] == outcomes[k]);
    assert(rest.drop_first() =~= outcomes.skip(k + 1));
    lemma_step(n, k, numbers);
}

/// From call `k` on, when every outcome gives a number, the rest of the
/// expected calls are made and the quotient is the reply.
proof fn lemma_serve_success(n: usize, k: int, outcomes: Seq<OutcomeView>)
    requires
        n >= 1,
        0 <= k <= 2 * n,
        outcomes.len() > 2 * n,
        forall|j: int| k <= j <= 2 * n ==> gives_number(#[trigger] outcomes[j]),
    ensures
        serve(step_at(n, k, numbers_of(outcomes)), outcomes.skip(k)) == (
            Seq::new((2 * n + 1 - k) as nat, |j: int| expected_call(n, k + j, numbers_of(outcomes))),
            Some(ReplyView::Computed { result: numbers_of(outcomes)[2 * n] }),
        ),
    decreases 2 * n - k,
{
    let numbers = numbers_of(outcomes);
    lemma_serve_unfold(n, k, outcomes);
    lemma_answer(expected_dependency(n, k), outcomes, k);
    lemma_step(n, k, numbers);
    let expected = Seq::new(
        (2 * n + 1 - k) as nat,
        |j: int| expected_call(n, k + j, numbers),
    );
    if k < 2 * n {
        lemma_serve_success(n, k + 1, outcomes);
        let tail = Seq::new(
            (2 * n + 1 - (k + 1)) as nat,
            |j: int| expected_call(n, k + 1 + j, numbers),
        );
        assert(seq![expected_call(n, k, numbers)] + tail =~= expected);
    } else {
        assert(seq![expected_call(n, k, numbers)] + Seq::<CallView>::empty() =~= expected);
    }
}

/// From call `k` on, the first outcome `f` that gives no number ends the
/// evaluation with its failure reply, after the expected calls up to `f`.
proof fn lemma_serve_failure(n: usize, k: int, f: int, outcomes: Seq<OutcomeView>)
    requires
        n >= 1,
        0 <= k <= f <= 2 * n,
        f < outcomes.len(),
        !gives_number(outcomes[f]),
        forall|j: int| k <= j < f ==> gives_number(#[trigger] outcomes[j]),
    ensures
        serve(step_at(n, k, numbers_of(outcomes)), outcomes.skip(k)) == (
            Seq::new((f + 1 - k) as nat, |j: int| expected_call(n, k + j, numbers_of(outcomes))),
            Some(failure_reply(expected_dependency(n, f), outcomes[f])),
        ),
    decreases f - k,
{
    let numbers = numbers_of(outcomes);
    lemma_serve_unfold(n, k, outcomes);
    lemma_answer(expected_dependency(n, k), outcomes, k);
    lemma_step(n, k, numbers);
    let expected = Seq::new((f + 1 - k) as nat, |j: int| expected_call(n, k + j, numbers));
    if k < f {
        lemma_serve_failure(n, k + 1, f, outcomes);
        let tail = Seq::new((f + 1 - (k + 1)) as nat, |j: int| expected_call(n, k + 1 + j, numbers));
        assert(seq![expected_call(n, k, numbers)] + tail =~= expected);
    } else {
        assert(seq![expected_call(n, k, numbers)] + Seq::<CallView>::empty() =~= expected);
    }
}

/// From call `k` on, at most the remaining expected calls are made, and any
/// reply has a documented status.
proof fn lemma_serve_bounded(n: usize, k: int, outcomes: Seq<OutcomeView>)
    requires
        n >= 1,
        0 <= k <= 2 * n,
        k <= outcomes.len(),
    ensures
        serve(step_at(n, k, numbers_of(outcomes)), outcomes.skip(k)).0.len() <= 2 * n + 1 - k,
        serve(step_at(n, k, numbers_of(outcomes)), outcomes.skip(k)).1 matches Some(reply)
            ==> documented_post_statuses().contains(reply_status(reply)),
    decreases 2 * n - k,
{
    let numbers = numbers_of(outcomes);
    let rest = outcomes.skip(k);
    if rest.len() > 0 {
        lemma_serve_unfold(n, k, outcomes);
        lemma_answer(expected_dependency(n, k), outcomes, k);
        lemma_step(n, k, numbers);
        if gives_number(outcomes[k]) {
            if k < 2 * n {
                lemma_serve_bounded(n, k + 1, outcomes);
            } else {
                lemma_computed_documented(numbers[k]);
            }
        } else {
            lemma_failure_documented(expected_dependency(n, k), outcomes[k]);
        }
    }
}

/// A non-empty evaluation starts at call `0`.
proof fn lemma_start(n: usize, numbers: Seq<Seq<u8>>)
    requires
        n >= 1,
    ensures
        start_spec(n) == step_at(n, 0, numbers),
{
}

/// An empty list is refused with `422` and the empty-list reason before any
/// dependency is called, whatever the dependencies would have answered.
pub proof fn empty_list_is_refused_without_calls(outcomes: Seq<OutcomeView>)
    ensures
        serve(start_spec(0), outcomes) == (
            Seq::<CallView>::empty(),
            Some(ReplyView::Invalid { reason: EMPTY_LIST@ }),
        ),
        reply_status(ReplyView::Invalid { reason: EMPTY_LIST@ }) == 422,
{
}

/// When every call gives a number, the evaluation of `n >= 1` values makes
/// exactly `2n + 1` calls: for each value in order its reciprocal, then the
/// running sum (from `0.0`) plus that reciprocal; at last `n` divided by the
/// final sum. It answers `200` with what the division gave.
pub proof fn every_number_given_yields_the_quotient(n: usize, outcomes: Seq<OutcomeView>)
    requires
        n >= 1,
        outcomes.len() > 2 * n,
        forall|j: int| 0 <= j <= 2 * n ==> gives_number(#[trigger] outcomes[j]),
    ensures
        serve(start_spec(n), outcomes) == (
            Seq::new((2 * n + 1) as nat, |j: int| expected_call(n, j, numbers_of(outcomes))),
            Some(ReplyView::Computed { result: numbers_of(outcomes)[2 * n] }),
        ),
        reply_status(ReplyView::Computed { result: numbers_of(outcomes)[2 * n] }) == 200,
{
    lemma_start(n, numbers_of(outcomes));
    assert(outcomes.skip(0) =~= outcomes);
    lemma_serve_success(n, 0, outcomes);
    let a = Seq::new((2 * n + 1 - 0) as nat, |j: int| expected_call(n, 0 + j, numbers_of(outcomes)));
    let b = Seq::new((2 * n + 1) as nat, |j: int| expected_call(n, j, numbers_of(outcomes)));
    assert(a =~= b);
}

/// The first call whose outcome gives no number ends the evaluation: the
/// calls up to it are the expected ones, none follows it, and the reply is
/// its failure reply, naming the dependency that was called.
pub proof fn first_failure_ends_the_evaluation(n: usize, outcomes: Seq<OutcomeView>, f: int)
    requires
        n >= 1,
        0 <= f <= 2 * n,
        f < outcomes.len(),
        !gives_number(outcomes[f]),
        forall|j: int| 0 <= j < f ==> gives_number(#[trigger] outcomes[j]),
    ensures
        serve(start_spec(n), outcomes) == (
            Seq::new((f + 1) as nat, |j: int| expected_call(n, j, numbers_of(outcomes))),
            Some(failure_reply(expected_dependency(n, f), outcomes[f])),
        ),
{
    lemma_start(n, numbers_of(outcomes));
    assert(outcomes.skip(0) =~= outcomes);
    lemma_serve_failure(n, 0, f, outcomes);
    let a = Seq::new((f + 1 - 0) as nat, |j: int| expected_call(n, 0 + j, numbers_of(outcomes)));
    let b = Seq::new((f + 1) as nat, |j: int| expected_call(n, j, numbers_of(outcomes)));
    assert(a =~= b);
}

/// Whatever the dependencies answer, an evaluation of `n` values makes at
/// most `2n + 1` calls, and every reply it gives has a status that the API
/// description documents for `POST /`.
pub proof fn evaluation_is_bounded_and_documented(n: usize, outcomes: Seq<OutcomeView>)
    ensures
        serve(start_spec(n), outcomes).0.len() <= 2 * n + 1,
        serve(start_spec(n), outcomes).1 matches Some(reply) ==> documented_post_statuses().contains(
            reply_status(reply),
        ),
{
    if n == 0 {
        assert(documented_post_statuses()[1] == 422u16);
    } else {
        lemma_start(n, numbers_of(outcomes));
        assert(outcomes.skip(0) =~= outcomes);
        lemma_serve_bounded(n, 0, outcomes);
    }
}

} // verus!
