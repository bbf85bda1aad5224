use vstd::prelude::*;

use crate::feature::{Feature, PlatformParameter, QuantifierType};
use crate::registry::Registry;
use crate::resolve::PlatformFeatures;

verus! {

broadcast use vstd::std_specs::hash::group_hash_axioms;

/// Sets dimension `par` of `m` to the qualifier registered as `v`; leaves
/// `m` as it is when no qualifier has that name.
pub fn add_qualifier(reg: &Registry, m: &mut PlatformFeatures, par: PlatformParameter, v: String)
    ensures
        match reg@.lookup(v@) {
            Some(id) => final(m)@ == old(m)@.insert(par, Feature::Qualifier { id: id as usize }),
            None => final(m)@ == old(m)@,
        },
{
    match reg.lookup_feature(&v) {
        Some(f) => {
            m.insert(par, f);
        },
        None => {},
    }
}

/// Sets dimension `par` of `m` to the exact number `v`.
pub fn add_quantifier(m: &mut PlatformFeatures, par: PlatformParameter, v: i32)
    ensures
        final(m)@ == old(m)@.insert(
            par,
            Feature::Quantifier { dimension: par, kind: QuantifierType::Value, val: v },
        ),
{
    m.insert(par, Feature::Quantifier { dimension: par, kind: QuantifierType::Value, val: v });
}

} // verus!
