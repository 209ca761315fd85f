use vstd::prelude::*;

verus! {

/// Name under which the service identifies itself.
pub const SERVICE: &'static str = "srvcs-inverselerp";

/// The concern the service covers.
pub const CONCERN: &'static str = "range: inverse linear interpolation (where value lies between a and b)";

/// Name of the dependency that subtracts two floats.
pub const FLOATSUBTRACT: &'static str = "srvcs-floatsubtract";

/// Name of the dependency that divides two floats.
pub const FLOATDIVIDE: &'static str = "srvcs-floatdivide";

/// The services this one delegates its arithmetic to.
#[derive(Clone, Copy, Debug, PartialEq, Eq, Structural)]
pub enum Dependency {
    FloatSubtract,
    FloatDivide,
}

/// The dependencies, in the order in which the service declares them.
pub open spec fn declared_dependencies() -> Seq<Dependency> {
    seq![Dependency::FloatSubtract, Dependency::FloatDivide]
}

impl Dependency {
    pub open spec fn spec_name(self) -> &'static str {
        match self {
            Dependency::FloatSubtract => FLOATSUBTRACT,
            Dependency::FloatDivide => FLOATDIVIDE,
        }
    }

    /// The name under which the dependency is known.
    #[verifier::when_used_as_spec(spec_name)]
    pub fn name(self) -> (name: &'static str)
        ensures
            name == self.spec_name(),
    {
        match self {
            Dependency::FloatSubtract => FLOATSUBTRACT,
            Dependency::FloatDivide => FLOATDIVIDE,
        }
    }

    /// The base URL at which `deps` says the dependency is reached.
    pub fn url(self, deps: &Deps) -> (url: &String)
        ensures
            url == (match self {
                Dependency::FloatSubtract => &deps.floatsubtract_url,
                Dependency::FloatDivide => &deps.floatdivide_url,
            }),
    {
        match self {
            Dependency::FloatSubtract => &deps.floatsubtract_url,
            Dependency::FloatDivide => &deps.floatdivide_url,
        }
    }
}

/// Dependency endpoints, handed in from outside so that they can point at
/// stand-ins.
#[derive(Clone)]
pub struct Deps {
    pub floatsubtract_url: String,
    pub floatdivide_url: String,
}

/// The service identity that `GET /` reports.
pub struct Info {
    pub service: &'static str,
    pub concern: &'static str,
    pub depends_on: Vec<&'static str>,
}

/// Service identity: name, concern and the dependencies, in declaration order.
pub fn index() -> (info: Info)
    ensures
        info.service == SERVICE,
        info.concern == CONCERN,
        info.depends_on@ == declared_dependencies().map_values(|d: Dependency| d.spec_name()),
{
    let mut depends_on: Vec<&'static str> = Vec::new();
    depends_on.push(Dependency::FloatSubtract.name());
    depends_on.push(Dependency::FloatDivide.name());
    assert(depends_on@ =~= declared_dependencies().map_values(|d: Dependency| d.spec_name()));
    Info { service: SERVICE, concern: CONCERN, depends_on }
}

} // verus!
