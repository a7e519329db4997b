//! What each step of the service does, stated for all inputs: where each
//! call goes and what it carries, how each answer of a dependency is read,
//! and what each reply says.

use vstd::prelude::*;

use crate::api::answer::{
    answer_spec, answer_view, bytes_view, json_number_at_spec, outcome_number, Outcome, OutcomeView,
};
use crate::api::evaluation::{
    advance_spec, awaited_dependency, call_dependency, call_request, fields_view, machine_wf,
    start_spec, Call, CallView, Field, FieldView, MachineView, Operand, OperandView, StepView,
};
use crate::api::identity::{dependency_name, dependency_order, Dependency, CONCERN, DEPENDS_ON, SERVICE};
use crate::api::laws::{expected_call, expected_dependency, failure_reply, sum_before};
use crate::api::openapi::{
    documented_get_responses, documented_post_responses, documented_post_statuses, response_entries,
    response_entry, response_statuses, Operation, ResponseDoc,
};
use crate::api::reply::{
    Reply, reply_dependency, reply_error, reply_status, ReplyView, DEPENDENCY_UNAVAILABLE, EMPTY_LIST,
    MALFORMED_RESULT,
};

verus! {

/// A reciprocal call sends the one value it is about under `value`; a sum
/// call sends the running sum under `a` and the new reciprocal under `b`;
/// the division sends the count it holds (whatever it is) under `a` and the
/// sum under `b`.
pub proof fn requests_carry_the_operands_of_their_calls(
    index: usize,
    a: Seq<u8>,
    b: Seq<u8>,
    count: usize,
)
    ensures
        call_request(CallView::Reciprocal { index }).len() == 1,
        call_request(CallView::Reciprocal { index })[0] == (FieldView {
            name: "value"@,
            operand: OperandView::Input { index },
        }),
        call_request(CallView::FloatAdd { a, b }).len() == 2,
        call_request(CallView::FloatAdd { a, b })[0] == (FieldView {
            name: "a"@,
            operand: OperandView::Number { text: a },
        }),
        call_request(CallView::FloatAdd { a, b })[1] == (FieldView {
            name: "b"@,
            operand: OperandView::Number { text: b },
        }),
        call_request(CallView::FloatDivide { count, sum: b }).len() == 2,
        call_request(CallView::FloatDivide { count, sum: b })[0] == (FieldView {
            name: "a"@,
            operand: OperandView::Count { count },
        }),
        call_request(CallView::FloatDivide { count, sum: b })[1] == (FieldView {
            name: "b"@,
            operand: OperandView::Number { text: b },
        }),
{
}

/// In an evaluation of `n >= 1` values, call `2i` sends value `i` (each
/// value exactly once, in order); call `2i + 1` adds the reciprocal that
/// call `2i` gave to the running sum, which starts at the text `0.0`; and
/// the last call divides `n` itself by what the last sum call gave.
pub proof fn evaluation_requests_follow_the_values(n: usize, numbers: Seq<Seq<u8>>, i: int)
    requires
        n >= 1,
        0 <= i < n,
    ensures
        call_request(expected_call(n, 2 * i, numbers)) == seq![
            FieldView { name: "value"@, operand: OperandView::Input { index: i as usize } },
        ],
        call_request(expected_call(n, 2 * i + 1, numbers)) == seq![
            FieldView { name: "a"@, operand: OperandView::Number { text: sum_before(numbers, i) } },
            FieldView { name: "b"@, operand: OperandView::Number { text: numbers[2 * i] } },
        ],
        i == 0 ==> sum_before(numbers, i) == seq![48u8, 46u8, 48u8],
        i > 0 ==> sum_before(numbers, i) == numbers[2 * i - 1],
        call_request(expected_call(n, 2 * n, numbers)) == seq![
            FieldView { name: "a"@, operand: OperandView::Count { count: n } },
            FieldView { name: "b"@, operand: OperandView::Number { text: numbers[2 * n - 1] } },
        ],
{
    assert((2 * i) % 2 == 0);
    assert((2 * i) / 2 == i);
    assert((2 * i + 1) % 2 == 1);
    assert((2 * i + 1) / 2 == i);
    assert(call_request(expected_call(n, 2 * i, numbers)) =~= seq![
        FieldView { name: "value"@, operand: OperandView::Input { index: i as usize } },
    ]);
    assert(call_request(expected_call(n, 2 * i + 1, numbers)) =~= seq![
        FieldView { name: "a"@, operand: OperandView::Number { text: sum_before(numbers, i) } },
        FieldView { name: "b"@, operand: OperandView::Number { text: numbers[2 * i] } },
    ]);
    assert(call_request(expected_call(n, 2 * n, numbers)) =~= seq![
        FieldView { name: "a"@, operand: OperandView::Count { count: n } },
        FieldView { name: "b"@, operand: OperandView::Number { text: numbers[2 * n - 1] } },
    ]);
}

/// Every reciprocal call goes to `srvcs-reciprocal`, every sum call to
/// `srvcs-floatadd` and every division to `srvcs-floatdivide`, whatever
/// they carry; in an evaluation of `n` values, calls `0, 2, ..., 2n - 2` go
/// to `srvcs-reciprocal`, calls `1, 3, ..., 2n - 1` to `srvcs-floatadd`, and
/// call `2n` to `srvcs-floatdivide`.
pub proof fn calls_go_to_their_services(
    index: usize,
    a: Seq<u8>,
    b: Seq<u8>,
    count: usize,
    n: usize,
    k: int,
    numbers: Seq<Seq<u8>>,
)
    requires
        0 <= k <= 2 * n,
    ensures
        call_dependency(CallView::Reciprocal { index }) == Dependency::Reciprocal,
        call_dependency(CallView::FloatAdd { a, b }) == Dependency::FloatAdd,
        call_dependency(CallView::FloatDivide { count, sum: b }) == Dependency::FloatDivide,
        call_dependency(expected_call(n, k, numbers)) == expected_dependency(n, k),
        k < 2 * n && k % 2 == 0 ==> expected_dependency(n, k) == Dependency::Reciprocal,
        k < 2 * n && k % 2 == 1 ==> expected_dependency(n, k) == Dependency::FloatAdd,
        k == 2 * n ==> expected_dependency(n, k) == Dependency::FloatDivide,
{
}

/// The evaluation waits for the answer of the dependency it just called:
/// at the start, and after each number, the machine of the next step awaits
/// the service that the step's call goes to.
pub proof fn each_call_is_answered_by_its_service(
    count: usize,
    m: MachineView,
    answer: Result<Seq<u8>, ReplyView>,
)
    requires
        machine_wf(m),
    ensures
        start_spec(count) matches StepView::Ask { machine, call } ==> machine_wf(machine)
            && awaited_dependency(machine) == call_dependency(call),
        advance_spec(m, answer) matches StepView::Ask { machine, call } ==> machine_wf(machine)
            && awaited_dependency(machine) == call_dependency(call),
        m.awaiting is Reciprocal ==> awaited_dependency(m) == Dependency::Reciprocal,
        m.awaiting is Sum ==> awaited_dependency(m) == Dependency::FloatAdd,
        m.awaiting is Quotient ==> awaited_dependency(m) == Dependency::FloatDivide,
{
}

/// How any dependency's outcome is read, whichever dependency it is: an
/// unreachable one is reported unavailable; a `422` is passed on with that
/// same status and body; a `200` gives its number, or without one is a
/// malformed result of that dependency; any other status reports it
/// unavailable. The number is looked up under the key `result`.
pub proof fn outcomes_are_read_alike_for_every_dependency(
    dependency: Dependency,
    status: u16,
    body: Seq<u8>,
    number: Option<Seq<u8>>,
)
    ensures
        answer_spec(dependency, OutcomeView::Unreachable, number) == Err::<Seq<u8>, ReplyView>(
            ReplyView::Degraded { dependency },
        ),
        answer_spec(dependency, OutcomeView::Answered { status: 422, body }, number) == Err::<
            Seq<u8>,
            ReplyView,
        >(ReplyView::Forward { status: 422, body }),
        number matches Some(n) ==> answer_spec(
            dependency,
            OutcomeView::Answered { status: 200, body },
            number,
        ) == Ok::<Seq<u8>, ReplyView>(n),
        number is None ==> answer_spec(dependency, OutcomeView::Answered { status: 200, body }, number)
            == Err::<Seq<u8>, ReplyView>(ReplyView::Malformed { dependency }),
        status != 200 && status != 422 ==> answer_spec(
            dependency,
            OutcomeView::Answered { status, body },
            number,
        ) == Err::<Seq<u8>, ReplyView>(ReplyView::Degraded { dependency }),
        failure_reply(dependency, OutcomeView::Unreachable) == (ReplyView::Degraded { dependency }),
        failure_reply(dependency, OutcomeView::Answered { status: 422, body }) == (ReplyView::Forward {
            status: 422,
            body,
        }),
        failure_reply(dependency, OutcomeView::Answered { status: 200, body }) == (
        ReplyView::Malformed { dependency }),
        status != 200 && status != 422 ==> failure_reply(
            dependency,
            OutcomeView::Answered { status, body },
        ) == (ReplyView::Degraded { dependency }),
        outcome_number(OutcomeView::Unreachable) is None,
        outcome_number(OutcomeView::Answered { status, body }) == json_number_at_spec(
            body,
            "result"@,
        ),
{
}

/// The status of each reply: `200` for the harmonic mean, `422` for a
/// refused request, `503` for an unavailable dependency and `500` for a
/// malformed result, whichever dependency it names; a passed-on status is
/// kept when HTTP can carry it (`100` to `999`) and is `502` otherwise.
pub proof fn replies_have_their_statuses(
    result: Seq<u8>,
    reason: Seq<char>,
    dependency: Dependency,
    status: u16,
    body: Seq<u8>,
)
    ensures
        reply_status(ReplyView::Computed { result }) == 200,
        reply_status(ReplyView::Invalid { reason }) == 422,
        reply_status(ReplyView::Degraded { dependency }) == 503,
        reply_status(ReplyView::Malformed { dependency }) == 500,
        100 <= status <= 999 ==> reply_status(ReplyView::Forward { status, body }) == status,
        !(100 <= status <= 999) ==> reply_status(ReplyView::Forward { status, body }) == 502,
{
}

/// Only a reply about a dependency names one, and it names that one: an
/// unavailable or malformed-result reply names its dependency; the result,
/// a refused request (the empty list among them) and a passed-on answer
/// name none.
pub proof fn only_replies_about_a_dependency_name_one(reply: ReplyView, dependency: Dependency)
    ensures
        reply_dependency(reply) == Some(dependency) <==> (reply == ReplyView::Degraded { dependency }
            || reply == ReplyView::Malformed { dependency }),
        reply_dependency(reply) is None <==> !(reply is Degraded || reply is Malformed),
        reply_dependency(ReplyView::Invalid { reason: EMPTY_LIST@ }) is None,
{
}

/// The error text of each reply: a refused request gives its reason, an
/// unavailable dependency `dependency unavailable`, a malformed result
/// `dependency returned a malformed result`; the result and a passed-on
/// answer have none.
pub proof fn replies_have_their_error_texts(
    result: Seq<u8>,
    reason: Seq<char>,
    dependency: Dependency,
    status: u16,
    body: Seq<u8>,
)
    ensures
        reply_error(ReplyView::Computed { result }) is None,
        reply_error(ReplyView::Invalid { reason }) == Some(reason),
        reply_error(ReplyView::Degraded { dependency }) == Some(
            "dependency unavailable"@,
        ),
        reply_error(ReplyView::Malformed { dependency }) == Some(
            "dependency returned a malformed result"@,
        ),
        reply_error(ReplyView::Forward { status, body }) is None,
        EMPTY_LIST@ == "harmonic mean of empty list"@,
        DEPENDENCY_UNAVAILABLE@ == "dependency unavailable"@,
        MALFORMED_RESULT@ == "dependency returned a malformed result"@,
{
}

/// The three dependencies go by three different names, the ones they
/// report themselves under.
pub proof fn dependencies_have_distinct_names(d1: Dependency, d2: Dependency)
    ensures
        dependency_name(Dependency::Reciprocal) == "srvcs-reciprocal"@,
        dependency_name(Dependency::FloatAdd) == "srvcs-floatadd"@,
        dependency_name(Dependency::FloatDivide) == "srvcs-floatdivide"@,
        d1 != d2 ==> dependency_name(d1) != dependency_name(d2),
{
    reveal_strlit("srvcs-reciprocal");
    reveal_strlit("srvcs-floatadd");
    reveal_strlit("srvcs-floatdivide");
    assert("srvcs-reciprocal"@.len() == 16);
    assert("srvcs-floatadd"@.len() == 14);
    assert("srvcs-floatdivide"@.len() == 17);
}

/// The service reports itself as `srvcs-harmonicmean`, concerned with
/// `arithmetic: harmonic mean`, depending on `srvcs-reciprocal`,
/// `srvcs-floatadd` and `srvcs-floatdivide`, in the order they are first
/// called.
pub proof fn the_service_reports_its_identity()
    ensures
        SERVICE@ == "srvcs-harmonicmean"@,
        CONCERN@ == "arithmetic: harmonic mean"@,
        dependency_order() == seq![Dependency::Reciprocal, Dependency::FloatAdd, Dependency::FloatDivide],
        DEPENDS_ON@.len() == 3,
        DEPENDS_ON@[0]@ == "srvcs-reciprocal"@,
        DEPENDS_ON@[1]@ == "srvcs-floatadd"@,
        DEPENDS_ON@[2]@ == "srvcs-floatdivide"@,
{
}

/// `POST /` documents exactly the statuses of the replies an evaluation can
/// end with, in order: the result, a refusal or passed-on rejection, a
/// malformed result, an unavailable dependency; only the `200` has a body
/// schema, `HarmonicMeanResponse`.
pub proof fn post_documents_the_reply_statuses(result: Seq<u8>, dependency: Dependency)
    ensures
        documented_post_responses().len() == 4,
        documented_post_statuses() == documented_post_responses().map_values(
            |entry: (u16, Seq<char>, Option<Seq<char>>)| entry.0,
        ),
        documented_post_statuses() == seq![
            reply_status(ReplyView::Computed { result }),
            reply_status(ReplyView::Invalid { reason: EMPTY_LIST@ }),
            reply_status(ReplyView::Malformed { dependency }),
            reply_status(ReplyView::Degraded { dependency }),
        ],
        documented_post_responses()[0].2 == Some("HarmonicMeanResponse"@),
        documented_post_responses()[1].1 == "the list is empty, or a dependency rejected the input (forwarded)"@,
        documented_post_responses()[2].1 == "a dependency returned a malformed result"@,
        documented_post_responses()[3].1 == "a dependency is unavailable"@,
        documented_get_responses() == seq![(200u16, ""@, Some("Info"@))],
        forall|i: int| 1 <= i < 4 ==> (#[trigger] documented_post_responses()[i]).2 is None,
{
    assert(documented_post_statuses() =~= documented_post_responses().map_values(
        |entry: (u16, Seq<char>, Option<Seq<char>>)| entry.0,
    ));
    assert(documented_post_statuses() =~= seq![
        reply_status(ReplyView::Computed { result }),
        reply_status(ReplyView::Invalid { reason: EMPTY_LIST@ }),
        reply_status(ReplyView::Malformed { dependency }),
        reply_status(ReplyView::Degraded { dependency }),
    ]);
}

/// A documented operation's entries keep each response's status,
/// description and body schema, in the order documented.
pub proof fn documented_entries_keep_each_response(operation: Operation, i: int)
    requires
        0 <= i < operation.responses@.len(),
    ensures
        response_entries(operation).len() == operation.responses@.len(),
        response_statuses(operation).len() == operation.responses@.len(),
        response_entries(operation)[i].0 == operation.responses@[i].status,
        response_statuses(operation)[i] == operation.responses@[i].status,
        response_entries(operation)[i].1 == operation.responses@[i].description@,
        operation.responses@[i].body matches Some(name) ==> response_entries(operation)[i].2 == Some(name@),
        operation.responses@[i].body is None ==> response_entries(operation)[i].2 is None,
{
}

/// What each value is seen as keeps everything it holds: the number, the
/// reason, the dependency, the status and the body of a reply; the status
/// and body of an outcome; the operands of a call and of a request field.
pub proof fn views_keep_what_values_hold(
    result: Vec<u8>,
    reason: &'static str,
    dependency: Dependency,
    status: u16,
    body: Vec<u8>,
    index: usize,
    count: usize,
    name: &'static str,
    fields: Seq<Field>,
    j: int,
)
    requires
        0 <= j < fields.len(),
    ensures
        (Reply::Computed { result: result })@ == (ReplyView::Computed { result: result@ }),
        (Reply::Invalid { reason })@ == (ReplyView::Invalid { reason: reason@ }),
        (Reply::Degraded { dependency })@ == (ReplyView::Degraded { dependency }),
        (Reply::Forward { status, body: body })@ == (ReplyView::Forward { status, body: body@ }),
        (Reply::Malformed { dependency })@ == (ReplyView::Malformed { dependency }),
        (Outcome::Unreachable)@ == OutcomeView::Unreachable,
        (Outcome::Answered { status, body: body })@ == (OutcomeView::Answered { status, body: body@ }),
        answer_view(Ok(result)) == Ok::<Seq<u8>, ReplyView>(result@),
        answer_view(Err(Reply::Degraded { dependency })) == Err::<Seq<u8>, ReplyView>(
            ReplyView::Degraded { dependency },
        ),
        bytes_view(Some(result)) == Some(result@),
        bytes_view(None) is None,
        (Call::Reciprocal { index })@ == (CallView::Reciprocal { index }),
        (Call::FloatAdd { a: result, b: body })@ == (CallView::FloatAdd { a: result@, b: body@ }),
        (Call::FloatDivide { count, sum: body })@ == (CallView::FloatDivide { count, sum: body@ }),
        (Operand::Input { index })@ == (OperandView::Input { index }),
        (Operand::Number { text: result })@ == (OperandView::Number { text: result@ }),
        (Operand::Count { count })@ == (OperandView::Count { count }),
        (Field { name, operand: Operand::Count { count } })@ == (FieldView {
            name: name@,
            operand: OperandView::Count { count },
        }),
        fields_view(fields).len() == fields.len(),
        fields_view(fields)[j] == fields[j]@,
{
}

} // verus!
