//! The harmonic mean as a conversation with the three dependencies.
//!
//! The service owns the control flow and delegates every arithmetic step:
//! it refuses an empty list without calling anyone; otherwise, for each
//! value in turn, it asks `srvcs-reciprocal` for `1 / v` and `srvcs-floatadd`
//! for the running sum plus that reciprocal, starting from `0`; at last it
//! asks `srvcs-floatdivide` for `n / sum`, which is the answer. The first
//! failed call ends the evaluation with the reply that the failure calls for.
//!
//! [`HarmonicMean`] holds what the evaluation has reached; each step either
//! asks for one more call or finishes with a [`Reply`]. Whoever performs the
//! calls feeds each outcome back with [`HarmonicMean::on_outcome`].

use vstd::prelude::*;

use crate::api::answer::{answer_spec, answer_view, outcome_number, read_outcome, Outcome};
use crate::api::identity::Dependency;
use crate::api::reply::{Reply, ReplyView, EMPTY_LIST};

verus! {

/// The answer the evaluation waits for.
#[derive(Clone, Copy, Debug, PartialEq, Eq, Structural)]
pub enum Awaiting {
    /// The reciprocal of the value at `index`.
    Reciprocal { index: usize },
    /// The running sum through the value at `index`.
    Sum { index: usize },
    /// The quotient of the count by the sum.
    Quotient,
}

/// A call of a dependency that the evaluation asks for.
pub enum Call {
    /// Ask `srvcs-reciprocal` for the reciprocal of the value at `index`.
    Reciprocal { index: usize },
    /// Ask `srvcs-floatadd` for `a + b`.
    FloatAdd { a: Vec<u8>, b: Vec<u8> },
    /// Ask `srvcs-floatdivide` for `count / sum`.
    FloatDivide { count: usize, sum: Vec<u8> },
}

/// What a [`Call`] holds, with number texts as byte sequences.
pub enum CallView {
    Reciprocal { index: usize },
    FloatAdd { a: Seq<u8>, b: Seq<u8> },
    FloatDivide { count: usize, sum: Seq<u8> },
}

impl View for Call {
    type V = CallView;

    open spec fn view(&self) -> CallView {
        match self {
            Call::Reciprocal { index } => CallView::Reciprocal { index: *index },
            Call::FloatAdd { a, b } => CallView::FloatAdd { a: a@, b: b@ },
            Call::FloatDivide { count, sum } => CallView::FloatDivide { count: *count, sum: sum@ },
        }
    }
}

/// The dependency that a call goes to.
pub open spec fn call_dependency(call: CallView) -> Dependency {
    match call {
        CallView::Reciprocal { .. } => Dependency::Reciprocal,
        CallView::FloatAdd { .. } => Dependency::FloatAdd,
        CallView::FloatDivide { .. } => Dependency::FloatDivide,
    }
}

impl Call {
    /// The dependency this call goes to.
    pub fn dependency(&self) -> (dependency: Dependency)
        ensures
            dependency == call_dependency(self@),
    {
        match self {
            Call::Reciprocal { .. } => Dependency::Reciprocal,
            Call::FloatAdd { .. } => Dependency::FloatAdd,
            Call::FloatDivide { .. } => Dependency::FloatDivide,
        }
    }
}

/// One operand of a dependency request.
pub enum Operand {
    /// The input value at `index`, as the evaluation request gave it.
    Input { index: usize },
    /// A number, as the JSON text a dependency answered with.
    Number { text: Vec<u8> },
    /// The count of input values, as a number.
    Count { count: usize },
}

/// What an [`Operand`] holds.
pub enum OperandView {
    Input { index: usize },
    Number { text: Seq<u8> },
    Count { count: usize },
}

impl View for Operand {
    type V = OperandView;

    open spec fn view(&self) -> OperandView {
        match self {
            Operand::Input { index } => OperandView::Input { index: *index },
            Operand::Number { text } => OperandView::Number { text: text@ },
            Operand::Count { count } => OperandView::Count { count: *count },
        }
    }
}

/// One member of a dependency request's JSON object: its key and its operand.
pub struct Field {
    pub name: &'static str,
    pub operand: Operand,
}

/// What a [`Field`] holds.
pub struct FieldView {
    pub name: Seq<char>,
    pub operand: OperandView,
}

impl View for Field {
    type V = FieldView;

    open spec fn view(&self) -> FieldView {
        FieldView { name: self.name@, operand: self.operand@ }
    }
}

/// The members of the JSON object sent with a call, in order:
/// `srvcs-reciprocal` gets `{"value": v}`; `srvcs-floatadd` gets
/// `{"a": sum, "b": reciprocal}`; `srvcs-floatdivide` gets
/// `{"a": count, "b": sum}`.
pub open spec fn call_request(call: CallView) -> Seq<FieldView> {
    match call {
        CallView::Reciprocal { index } => seq![
            FieldView { name: "value"@, operand: OperandView::Input { index } },
        ],
        CallView::FloatAdd { a, b } => seq![
            FieldView { name: "a"@, operand: OperandView::Number { text: a } },
            FieldView { name: "b"@, operand: OperandView::Number { text: b } },
        ],
        CallView::FloatDivide { count, sum } => seq![
            FieldView { name: "a"@, operand: OperandView::Count { count } },
            FieldView { name: "b"@, operand: OperandView::Number { text: sum } },
        ],
    }
}

/// The fields of a request, seen through views.
pub open spec fn fields_view(fields: Seq<Field>) -> Seq<FieldView> {
    fields.map_values(|field: Field| field@)
}

impl Call {
    /// The members of the JSON object to send with this call, in order.
    pub fn request(&self) -> (fields: Vec<Field>)
        ensures
            fields_view(fields@) == call_request(self@),
    {
        let mut fields: Vec<Field> = Vec::new();
        match self {
            Call::Reciprocal { index } => {
                fields.push(Field { name: "value", operand: Operand::Input { index: *index } });
            },
            Call::FloatAdd { a, b } => {
                fields.push(Field { name: "a", operand: Operand::Number { text: copy_bytes(a) } });
                fields.push(Field { name: "b", operand: Operand::Number { text: copy_bytes(b) } });
            },
            Call::FloatDivide { count, sum } => {
                fields.push(Field { name: "a", operand: Operand::Count { count: *count } });
                fields.push(Field { name: "b", operand: Operand::Number { text: copy_bytes(sum) } });
            },
        }
        assert(fields_view(fields@) =~= call_request(self@));
        fields
    }
}

/// An evaluation under way: how many values there are, which answer it
/// waits for, and the running sum so far (as the JSON text of a number).
pub struct HarmonicMean {
    count: usize,
    awaiting: Awaiting,
    sum: Vec<u8>,
}

/// What a [`HarmonicMean`] holds.
pub struct MachineView {
    pub count: usize,
    pub awaiting: Awaiting,
    pub sum: Seq<u8>,
}

impl View for HarmonicMean {
    type V = MachineView;

    closed spec fn view(&self) -> MachineView {
        MachineView { count: self.count, awaiting: self.awaiting, sum: self.sum@ }
    }
}

/// An evaluation under way has at least one value, and the value it works
/// on is one of them.
pub open spec fn machine_wf(m: MachineView) -> bool {
    &&& m.count > 0
    &&& match m.awaiting {
        Awaiting::Reciprocal { index } => index < m.count,
        Awaiting::Sum { index } => index < m.count,
        Awaiting::Quotient => true,
    }
}

/// The dependency whose answer an evaluation waits for.
pub open spec fn awaited_dependency(m: MachineView) -> Dependency {
    match m.awaiting {
        Awaiting::Reciprocal { .. } => Dependency::Reciprocal,
        Awaiting::Sum { .. } => Dependency::FloatAdd,
        Awaiting::Quotient => Dependency::FloatDivide,
    }
}

/// The next step of an evaluation: a call to make, or the reply.
pub enum Step {
    /// Make `call`, then feed its outcome to `machine`.
    Ask { machine: HarmonicMean, call: Call },
    /// The evaluation is over; answer with this reply.
    Finish(Reply),
}

/// What a [`Step`] holds.
pub enum StepView {
    Ask { machine: MachineView, call: CallView },
    Finish(ReplyView),
}

impl View for Step {
    type V = StepView;

    open spec fn view(&self) -> StepView {
        match self {
            Step::Ask { machine, call } => StepView::Ask { machine: machine@, call: call@ },
            Step::Finish(reply) => StepView::Finish(reply@),
        }
    }
}

/// The JSON text `0.0`, where the running sum starts.
pub open spec fn zero_sum() -> Seq<u8> {
    seq![48u8, 46u8, 48u8]
}

/// How an evaluation of `count` values begins.
pub open spec fn start_spec(count: usize) -> StepView {
    if count == 0 {
        StepView::Finish(ReplyView::Invalid { reason: EMPTY_LIST@ })
    } else {
        StepView::Ask {
            machine: MachineView {
                count,
                awaiting: Awaiting::Reciprocal { index: 0 },
                sum: zero_sum(),
            },
            call: CallView::Reciprocal { index: 0 },
        }
    }
}

/// How an evaluation goes on after `answer`: a number the awaited
/// dependency gave, or the reply that ends it.
pub open spec fn advance_spec(m: MachineView, answer: Result<Seq<u8>, ReplyView>) -> StepView {
    match answer {
        Err(reply) => StepView::Finish(reply),
        Ok(number) => match m.awaiting {
            Awaiting::Reciprocal { index } => StepView::Ask {
                machine: MachineView {
                    count: m.count,
                    awaiting: Awaiting::Sum { index },
                    sum: m.sum,
                },
                call: CallView::FloatAdd { a: m.sum, b: number },
            },
            Awaiting::Sum { index } => if index + 1 < m.count {
                StepView::Ask {
                    machine: MachineView {
                        count: m.count,
                        awaiting: Awaiting::Reciprocal { index: (index + 1) as usize },
                        sum: number,
                    },
                    call: CallView::Reciprocal { index: (index + 1) as usize },
                }
            } else {
                StepView::Ask {
                    machine: MachineView { count: m.count, awaiting: Awaiting::Quotient, sum: number },
                    call: CallView::FloatDivide { count: m.count, sum: number },
                }
            },
            Awaiting::Quotient => StepView::Finish(ReplyView::Computed { result: number }),
        },
    }
}

/// A copy of a byte buffer.
fn copy_bytes(bytes: &Vec<u8>) -> (copy: Vec<u8>)
    ensures
        copy@ == bytes@,
{
    let mut copy: Vec<u8> = Vec::new();
    let mut i: usize = 0;
    while i < bytes.len()
        invariant
            i <= bytes.len(),
            copy@ == bytes@.subrange(0, i as int),
        decreases bytes.len() - i,
    {
        copy.push(bytes[i]);
        i = i + 1;
    }
    assert(bytes@.subrange(0, bytes.len() as int) =~= bytes@);
    copy
}

impl HarmonicMean {
    #[verifier::type_invariant]
    spec fn well_formed(self) -> bool {
        machine_wf(self@)
    }

    /// Begins the evaluation of `count` values: an empty list is refused at
    /// once, with no call; otherwise the reciprocal of the first value is asked.
    pub fn start(count: usize) -> (step: Step)
        ensures
            step@ == start_spec(count),
    {
        if count == 0 {
            Step::Finish(Reply::Invalid { reason: EMPTY_LIST })
        } else {
            let mut sum: Vec<u8> = Vec::new();
            sum.push(48u8);
            sum.push(46u8);
            sum.push(48u8);
            assert(sum@ =~= zero_sum());
            Step::Ask {
                machine: HarmonicMean { count, awaiting: Awaiting::Reciprocal { index: 0 }, sum },
                call: Call::Reciprocal { index: 0 },
            }
        }
    }

    /// The dependency whose answer this evaluation waits for.
    pub fn awaited(&self) -> (dependency: Dependency)
        ensures
            dependency == awaited_dependency(self@),
    {
        match self.awaiting {
            Awaiting::Reciprocal { .. } => Dependency::Reciprocal,
            Awaiting::Sum { .. } => Dependency::FloatAdd,
            Awaiting::Quotient => Dependency::FloatDivide,
        }
    }

    /// Goes on after `answer`: the number the awaited dependency gave, or
    /// the reply that ends the evaluation.
    pub fn advance(self, answer: Result<Vec<u8>, Reply>) -> (step: Step)
        ensures
            step@ == advance_spec(self@, answer_view(answer)),
    {
        proof {
            use_type_invariant(&self);
        }
        match answer {
            Err(reply) => Step::Finish(reply),
            Ok(number) => match self.awaiting {
                Awaiting::Reciprocal { index } => {
                    let a = copy_bytes(&self.sum);
                    Step::Ask {
                        machine: HarmonicMean {
                            count: self.count,
                            awaiting: Awaiting::Sum { index },
                            sum: self.sum,
                        },
                        call: Call::FloatAdd { a, b: number },
                    }
                },
                Awaiting::Sum { index } => {
                    let sum = copy_bytes(&number);
                    if index + 1 < self.count {
                        Step::Ask {
                            machine: HarmonicMean {
                                count: self.count,
                                awaiting: Awaiting::Reciprocal { index: index + 1 },
                                sum,
                            },
                            call: Call::Reciprocal { index: index + 1 },
                        }
                    } else {
                        Step::Ask {
                            machine: HarmonicMean {
                                count: self.count,
                                awaiting: Awaiting::Quotient,
                                sum,
                            },
                            call: Call::FloatDivide { count: self.count, sum: number },
                        }
                    }
                },
                Awaiting::Quotient => Step::Finish(Reply::Computed { result: number }),
            },
        }
    }

    /// Reads the outcome of the call this evaluation asked for, and goes on.
    pub fn on_outcome(self, outcome: Outcome) -> (step: Step)
        ensures
            step@ == advance_spec(
                self@,
                answer_spec(awaited_dependency(self@), outcome@, outcome_number(outcome@)),
            ),
    {
        let dependency = self.awaited();
        let answer = read_outcome(dependency, outcome);
        self.advance(answer)
    }
}

} // verus!
