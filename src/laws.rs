use vstd::prelude::*;

use crate::feature::{compatible, Feature, PlatformParameter};
use crate::registry::RegistryView;
use crate::resolve::{
    dimension_satisfied, is_subtype_of, lemma_scan_outcome, resolution, resolve_result,
};

verus! {

/// Every feature value of a well-formed registry satisfies itself.
pub proof fn lemma_compatible_reflexive(reg: RegistryView, v: Feature)
    requires
        reg.wf(),
        reg.dimension_of(v) is Some,
    ensures
        compatible(reg, v, v),
{
}

/// Walking up a hierarchy composes: if `a` is-a `b` and `b` is-a `c`, then
/// `a` is-a `c`.
pub proof fn lemma_is_a_transitive(reg: RegistryView, a: int, b: int, c: int)
    requires
        reg.wf(),
        reg.is_a(a, b),
        reg.is_a(b, c),
    ensures
        reg.is_a(a, c),
    decreases a,
{
    if a != b {
        let s = reg.qualifiers[a].supertype.unwrap();
        lemma_is_a_transitive(reg, s as int, b, c);
    }
}

/// Along one hierarchy chain, satisfying a qualifier that satisfies a third
/// one means satisfying that third one.
pub proof fn lemma_qualifier_compatible_transitive(
    reg: RegistryView,
    a: Feature,
    b: Feature,
    c: Feature,
)
    requires
        reg.wf(),
        a is Qualifier,
        compatible(reg, a, b),
        compatible(reg, b, c),
    ensures
        compatible(reg, a, c),
{
    lemma_is_a_transitive(reg, a->id as int, b->id as int, c->id as int);
}

/// A variant list whose first requirement set is empty always resolves, to
/// a variant that the snapshot satisfies.
pub proof fn lemma_fallback(
    reg: RegistryView,
    variants: Seq<Map<PlatformParameter, Feature>>,
    snapshot: Map<PlatformParameter, Feature>,
)
    requires
        variants.len() > 0,
        variants[0] == Map::<PlatformParameter, Feature>::empty(),
    ensures
        resolution(reg, variants, snapshot) matches Some(i) && 0 <= i < variants.len()
            && is_subtype_of(reg, snapshot, variants[i]),
{
    assert forall|p: PlatformParameter| p < reg.parameters.len() implies #[trigger] dimension_satisfied(
        reg,
        snapshot,
        variants[0],
        p,
    ) by {}
    lemma_scan_outcome(reg, snapshot, variants, 0);
}

/// Resolving the same variants against the same snapshot gives the same
/// outcome every time.
pub proof fn lemma_resolve_deterministic(
    reg: RegistryView,
    variants1: Seq<Map<PlatformParameter, Feature>>,
    snapshot1: Map<PlatformParameter, Feature>,
    variants2: Seq<Map<PlatformParameter, Feature>>,
    snapshot2: Map<PlatformParameter, Feature>,
)
    requires
        variants1 == variants2,
        snapshot1 == snapshot2,
    ensures
        resolve_result(reg, variants1, snapshot1) == resolve_result(reg, variants2, snapshot2),
{
}

} // verus!
