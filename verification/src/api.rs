//! What the service answers on its routes, and how it drives its dependencies.

pub mod answer;
pub mod evaluation;
pub mod identity;
pub mod laws;
pub mod openapi;
pub mod reply;
pub mod rules;

pub use identity::{index, Dependency, Deps, Info, CONCERN, DEPENDS_ON, SERVICE};
pub use reply::{Reply, ReplyView, DEPENDENCY_UNAVAILABLE, EMPTY_LIST, MALFORMED_RESULT};
pub use answer::{classify_outcome, read_outcome, Outcome, OutcomeView, RESULT_KEY};
pub use evaluation::{
    Awaiting, Call, CallView, Field, FieldView, HarmonicMean, MachineView, Operand, OperandView, Step,
    StepView,
};
pub use openapi::{ApiDoc, OpenApiDoc, Operation, PathItem, ResponseDoc};
