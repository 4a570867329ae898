//! Formation-facing capability descriptors of the `soter.smt` family.
use vstd::prelude::*;

verus! {

/// One capability that the extension offers to formations.
#[derive(Debug, Clone, Copy, PartialEq, Eq)]
pub struct SoterCapability {
    pub id: &'static str,
    pub family: &'static str,
    pub surface: &'static str,
    pub evidence_tier: &'static str,
    pub description: &'static str,
}

/// `c` has exactly the given fields.
pub open spec fn is_capability(
    c: SoterCapability,
    id: Seq<char>,
    family: Seq<char>,
    surface: Seq<char>,
    evidence_tier: Seq<char>,
    description: Seq<char>,
) -> bool {
    &&& c.id@ == id
    &&& c.family@ == family
    &&& c.surface@ == surface
    &&& c.evidence_tier@ == evidence_tier
    &&& c.description@ == description
}

/// The capability catalog: the SMT solver suggestor, then the native CVC5 backend.
pub fn formation_capabilities() -> (r: Vec<SoterCapability>)
    ensures
        r@.len() == 2,
        is_capability(
            r@[0],
            "soter.smt.solver"@,
            "soter.smt"@,
            "SmtSuggestor"@,
            "searched"@,
            "Runs SMT queries and emits SmtReport evidence."@,
        ),
        is_capability(
            r@[1],
            "soter.smt.cvc5_ffi"@,
            "soter.smt"@,
            "Cvc5FfiBackend"@,
            "searched"@,
            "Native CVC5 backend behind the explicit cvc5 feature."@,
        ),
{
    let mut v: Vec<SoterCapability> = Vec::new();
    v.push(
        SoterCapability {
            id: "soter.smt.solver",
            family: "soter.smt",
            surface: "SmtSuggestor",
            evidence_tier: "searched",
            description: "Runs SMT queries and emits SmtReport evidence.",
        },
    );
    v.push(
        SoterCapability {
            id: "soter.smt.cvc5_ffi",
            family: "soter.smt",
            surface: "Cvc5FfiBackend",
            evidence_tier: "searched",
            description: "Native CVC5 backend behind the explicit cvc5 feature.",
        },
    );
    v
}

} // verus!
