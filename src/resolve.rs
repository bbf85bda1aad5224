use std::collections::HashMap;

use vstd::prelude::*;

use crate::feature::{compatible, spec_is_top, Feature, PlatformParameter};
use crate::registry::{Registry, RegistryView};

verus! {

broadcast use vstd::std_specs::hash::group_hash_axioms;

/// A set of feature values keyed by dimension: the requirements of one
/// variant, or what the running platform offers. A missing dimension places
/// no constraint.
pub type PlatformFeatures = HashMap<PlatformParameter, Feature>;

/// Why no variant could be chosen.
#[derive(Clone, Copy, Debug, PartialEq, Eq, Structural)]
pub enum ResolveError {
    /// No variant's requirements are met; the list lacks its unconditional
    /// fallback.
    NoSatisfyingVariant,
}

/// Whether `lhs` is compatible with `rhs` on dimension `p`.
pub open spec fn dimension_satisfied(
    reg: RegistryView,
    lhs: Map<PlatformParameter, Feature>,
    rhs: Map<PlatformParameter, Feature>,
    p: PlatformParameter,
) -> bool {
    if !lhs.contains_key(p) {
        !rhs.contains_key(p) || spec_is_top(rhs[p])
    } else {
        !rhs.contains_key(p) || compatible(reg, lhs[p], rhs[p])
    }
}

/// Whether `lhs` satisfies `rhs` on every recognized dimension.
pub open spec fn is_subtype_of(
    reg: RegistryView,
    lhs: Map<PlatformParameter, Feature>,
    rhs: Map<PlatformParameter, Feature>,
) -> bool {
    forall|p: PlatformParameter|
        p < reg.parameters.len() ==> #[trigger] dimension_satisfied(reg, lhs, rhs, p)
}

/// One step of the scan: variant `i` replaces `best` when the platform
/// satisfies it and it is at least as specific as `best`.
pub open spec fn scan_step(
    reg: RegistryView,
    snapshot: Map<PlatformParameter, Feature>,
    variants: Seq<Map<PlatformParameter, Feature>>,
    best: Option<int>,
    i: int,
) -> Option<int> {
    if is_subtype_of(reg, snapshot, variants[i]) && match best {
        None => true,
        Some(b) => is_subtype_of(reg, variants[i], variants[b]),
    } {
        Some(i)
    } else {
        best
    }
}

/// The choice after scanning the variants from the last one down to index `k`.
pub open spec fn scan_from(
    reg: RegistryView,
    snapshot: Map<PlatformParameter, Feature>,
    variants: Seq<Map<PlatformParameter, Feature>>,
    k: int,
) -> Option<int>
    decreases variants.len() - k,
{
    if 0 <= k < variants.len() {
        scan_step(reg, snapshot, variants, scan_from(reg, snapshot, variants, k + 1), k)
    } else {
        None
    }
}

/// The index that resolution picks, if any.
pub open spec fn resolution(
    reg: RegistryView,
    variants: Seq<Map<PlatformParameter, Feature>>,
    snapshot: Map<PlatformParameter, Feature>,
) -> Option<int> {
    scan_from(reg, snapshot, variants, 0)
}

/// What `resolve` returns.
pub open spec fn resolve_result(
    reg: RegistryView,
    variants: Seq<Map<PlatformParameter, Feature>>,
    snapshot: Map<PlatformParameter, Feature>,
) -> Result<usize, ResolveError> {
    match resolution(reg, variants, snapshot) {
        Some(i) => Ok(i as usize),
        None => Err(ResolveError::NoSatisfyingVariant),
    }
}

/// The requirement sets of a list of variants.
pub open spec fn variant_views(list: Seq<PlatformFeatures>) -> Seq<Map<PlatformParameter, Feature>> {
    list.map_values(|m: PlatformFeatures| m@)
}

/// The scan from `k` picks a satisfied variant at or after `k`, and picks
/// none only when no variant from `k` on is satisfied.
pub proof fn lemma_scan_outcome(
    reg: RegistryView,
    snapshot: Map<PlatformParameter, Feature>,
    variants: Seq<Map<PlatformParameter, Feature>>,
    k: int,
)
    requires
        0 <= k,
    ensures
        match scan_from(reg, snapshot, variants, k) {
            Some(i) => k <= i < variants.len() && is_subtype_of(reg, snapshot, variants[i]),
            None => forall|i: int|
                k <= i < variants.len() ==> !is_subtype_of(reg, snapshot, #[trigger] variants[i]),
        },
    decreases variants.len() - k,
{
    if k < variants.len() {
        lemma_scan_outcome(reg, snapshot, variants, k + 1);
        if scan_from(reg, snapshot, variants, k).is_none() {
            assert forall|i: int|
                k <= i < variants.len() implies !is_subtype_of(
                reg,
                snapshot,
                #[trigger] variants[i],
            ) by {
                if i > k {
                }
            }
        }
    }
}

/// Whether `lhs` satisfies `rhs` on every recognized dimension of `reg`.
pub fn issubtypeof(reg: &Registry, lhs: &PlatformFeatures, rhs: &PlatformFeatures) -> (r: bool)
    requires
        reg@.wf(),
    ensures
        r == is_subtype_of(reg@, lhs@, rhs@),
{
    let n = reg.parameter_count();
    let mut p: usize = 0;
    while p < n
        invariant
            reg@.wf(),
            n == reg@.parameters.len(),
            p <= n,
            forall|q: PlatformParameter| q < p ==> #[trigger] dimension_satisfied(reg@, lhs@, rhs@, q),
        decreases n - p,
    {
        let ok = match lhs.get(&p) {
            None => match rhs.get(&p) {
                Some(vr) => vr.is_top(),
                None => true,
            },
            Some(vl) => match rhs.get(&p) {
                Some(vr) => vl.subtypeof(vr, reg),
                None => true,
            },
        };
        if !ok {
            assert(!dimension_satisfied(reg@, lhs@, rhs@, p));
            return false;
        }
        p += 1;
    }
    true
}

/// Picks the most specific variant whose requirements the platform meets,
/// scanning from the last variant to the first: a satisfied variant takes
/// the place of the current choice when it is at least as specific.
pub fn resolve(
    reg: &Registry,
    featureset_list: &Vec<PlatformFeatures>,
    snapshot: &PlatformFeatures,
) -> (r: Result<usize, ResolveError>)
    requires
        reg@.wf(),
    ensures
        r == resolve_result(reg@, variant_views(featureset_list@), snapshot@),
        r matches Ok(i) ==> i < featureset_list.len() && is_subtype_of(
            reg@,
            snapshot@,
            featureset_list@[i as int]@,
        ),
        r is Err <==> forall|i: int|
            0 <= i < featureset_list.len() ==> !is_subtype_of(
                reg@,
                snapshot@,
                #[trigger] featureset_list@[i]@,
            ),
{
    let ghost vs = variant_views(featureset_list@);
    let mut i: usize = featureset_list.len();
    let mut best: Option<usize> = None;
    while i > 0
        invariant
            reg@.wf(),
            vs == variant_views(featureset_list@),
            i <= featureset_list.len(),
            scan_from(reg@, snapshot@, vs, i as int) == match best {
                Some(b) => Some(b as int),
                None => None::<int>,
            },
            best matches Some(b) ==> b < featureset_list.len(),
        decreases i,
    {
        i -= 1;
        if issubtypeof(reg, snapshot, &featureset_list[i]) {
            match best {
                None => {
                    best = Some(i);
                },
                Some(b) => {
                    if issubtypeof(reg, &featureset_list[i], &featureset_list[b]) {
                        best = Some(i);
                    }
                },
            }
        }
    }
    proof {
        lemma_scan_outcome(reg@, snapshot@, vs, 0);
        assert forall|j: int| 0 <= j < featureset_list.len() implies vs[j] == #[trigger] featureset_list@[j]@ by {}
    }
    match best {
        Some(b) => Ok(b),
        None => Err(ResolveError::NoSatisfyingVariant),
    }
}

} // verus!
