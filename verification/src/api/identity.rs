//! Who the service is and which services it depends on.

use vstd::prelude::*;

verus! {

/// The service's name.
pub const SERVICE: &'static str = "srvcs-harmonicmean";

/// The one concern this service stands for.
pub const CONCERN: &'static str = "arithmetic: harmonic mean";

/// The names of the services this one depends on, in order.
pub const DEPENDS_ON: [&'static str; 3] = ["srvcs-reciprocal", "srvcs-floatadd", "srvcs-floatdivide"];

/// The three services that do the arithmetic, in the order they are first asked.
#[derive(Clone, Copy, Debug, PartialEq, Eq, Structural)]
pub enum Dependency {
    /// `srvcs-reciprocal`: `{"value": v}` gives `1 / v`.
    Reciprocal,
    /// `srvcs-floatadd`: `{"a": x, "b": y}` gives `x + y`.
    FloatAdd,
    /// `srvcs-floatdivide`: `{"a": x, "b": y}` gives `x / y`.
    FloatDivide,
}

/// The name under which a dependency reports itself and is reported.
pub open spec fn dependency_name(dependency: Dependency) -> Seq<char> {
    match dependency {
        Dependency::Reciprocal => "srvcs-reciprocal"@,
        Dependency::FloatAdd => "srvcs-floatadd"@,
        Dependency::FloatDivide => "srvcs-floatdivide"@,
    }
}

impl Dependency {
    /// The dependency's service name.
    pub fn name(&self) -> (name: &'static str)
        ensures
            name@ == dependency_name(*self),
    {
        match self {
            Dependency::Reciprocal => "srvcs-reciprocal",
            Dependency::FloatAdd => "srvcs-floatadd",
            Dependency::FloatDivide => "srvcs-floatdivide",
        }
    }
}

/// The dependencies in the order the service lists them.
pub open spec fn dependency_order() -> Seq<Dependency> {
    seq![Dependency::Reciprocal, Dependency::FloatAdd, Dependency::FloatDivide]
}

/// The service identity that `GET /` reports.
pub struct Info {
    pub service: &'static str,
    pub concern: &'static str,
    pub depends_on: Vec<&'static str>,
}

/// `GET /`: the service's name, its concern, and the names of its
/// dependencies in order.
pub fn index() -> (info: Info)
    ensures
        info.service@ == SERVICE@,
        info.concern@ == CONCERN@,
        info.depends_on@.len() == dependency_order().len(),
        forall|i: int|
            0 <= i < dependency_order().len() ==> (#[trigger] info.depends_on@[i])@
                == dependency_name(dependency_order()[i]),
        info.depends_on@ == DEPENDS_ON@,
{
    let mut depends_on: Vec<&'static str> = Vec::new();
    depends_on.push(DEPENDS_ON[0]);
    depends_on.push(DEPENDS_ON[1]);
    depends_on.push(DEPENDS_ON[2]);
    assert(depends_on@ =~= DEPENDS_ON@);
    Info { service: SERVICE, concern: CONCERN, depends_on }
}

/// Where each dependency is reached.
pub struct Deps {
    pub reciprocal_url: String,
    pub floatadd_url: String,
    pub floatdivide_url: String,
}

impl Deps {
    /// The base URL of `dependency`.
    pub fn url(&self, dependency: Dependency) -> (url: &str)
        ensures
            url@ == match dependency {
                Dependency::Reciprocal => self.reciprocal_url@,
                Dependency::FloatAdd => self.floatadd_url@,
                Dependency::FloatDivide => self.floatdivide_url@,
            },
    {
        match dependency {
            Dependency::Reciprocal => self.reciprocal_url.as_str(),
            Dependency::FloatAdd => self.floatadd_url.as_str(),
            Dependency::FloatDivide => self.floatdivide_url.as_str(),
        }
    }
}

} // verus!
