use vstd::prelude::*;

use crate::registry::{Registry, RegistryView};

verus! {

/// A dimension of platform variability, identified by its position in the
/// registry's list of recognized dimensions.
pub type PlatformParameter = usize;

/// The two kinds of feature value.
#[derive(Clone, Copy, Debug, PartialEq, Eq, Structural)]
pub enum FeatureType {
    Qualifier,
    Quantifier,
}

/// How a numeric feature value is compared.
#[derive(Clone, Copy, Debug, PartialEq, Eq, Structural)]
pub enum QuantifierType {
    AtLeast,
    AtMost,
    /// Exactly the number given.
    Value,
}

/// A capability datum: a named node of a hierarchy, or a number with a
/// comparison mode.
#[derive(Clone, Copy, Debug, PartialEq, Eq, Structural)]
pub enum Feature {
    /// A handle to a qualifier held by a `Registry`.
    Qualifier { id: usize },
    /// A number of dimension `dimension`, compared as `kind` says.
    Quantifier { dimension: PlatformParameter, kind: QuantifierType, val: i32 },
}

/// The most permissive value of a numeric range: at least zero, or at most
/// the largest `i32`.
pub open spec fn spec_is_top(f: Feature) -> bool {
    match f {
        Feature::Quantifier { kind: QuantifierType::AtLeast, val, .. } => val == 0,
        Feature::Quantifier { kind: QuantifierType::AtMost, val, .. } => val == i32::MAX,
        _ => false,
    }
}

/// Whether a number compared in mode `ka` satisfies a bound given in mode `kb`.
pub open spec fn quantity_satisfies(ka: QuantifierType, x: i32, kb: QuantifierType, y: i32) -> bool {
    match (ka, kb) {
        (QuantifierType::AtLeast, QuantifierType::AtLeast) => x >= y,
        (QuantifierType::AtLeast, QuantifierType::AtMost) => false,
        (QuantifierType::AtLeast, QuantifierType::Value) => x >= y,
        (QuantifierType::AtMost, QuantifierType::AtLeast) => false,
        (QuantifierType::AtMost, QuantifierType::AtMost) => x <= y,
        (QuantifierType::AtMost, QuantifierType::Value) => x <= y,
        (QuantifierType::Value, QuantifierType::AtLeast) => x >= y,
        (QuantifierType::Value, QuantifierType::AtMost) => x <= y,
        (QuantifierType::Value, QuantifierType::Value) => x == y,
    }
}

/// Whether `a` satisfies the constraint `b`: both belong to one dimension and
/// either are qualifiers with `b` on the supertype chain of `a` (`a` itself
/// included), or are numbers whose modes and values agree as the quantifier
/// table says. Values of different kinds never do.
pub open spec fn compatible(reg: RegistryView, a: Feature, b: Feature) -> bool {
    match (a, b) {
        (Feature::Qualifier { id: x }, Feature::Qualifier { id: y }) => {
            &&& reg.dimension_of(a).is_some()
            &&& reg.dimension_of(a) == reg.dimension_of(b)
            &&& reg.is_a(x as int, y as int)
        },
        (
            Feature::Quantifier { dimension: da, kind: ka, val: x },
            Feature::Quantifier { dimension: db, kind: kb, val: y },
        ) => da == db && quantity_satisfies(ka, x, kb, y),
        _ => false,
    }
}

/// A numeric lower bound.
pub struct AtLeast {
    pub val: i32,
}

/// A numeric upper bound.
pub struct AtMost {
    pub val: i32,
}

impl AtLeast {
    /// This bound as a feature value of `dimension`.
    pub fn in_dimension(&self, dimension: PlatformParameter) -> (r: Feature)
        ensures
            r == (Feature::Quantifier { dimension, kind: QuantifierType::AtLeast, val: self.val }),
    {
        Feature::Quantifier { dimension, kind: QuantifierType::AtLeast, val: self.val }
    }
}

impl AtMost {
    /// This bound as a feature value of `dimension`.
    pub fn in_dimension(&self, dimension: PlatformParameter) -> (r: Feature)
        ensures
            r == (Feature::Quantifier { dimension, kind: QuantifierType::AtMost, val: self.val }),
    {
        Feature::Quantifier { dimension, kind: QuantifierType::AtMost, val: self.val }
    }
}

impl Feature {
    /// Whether `self` satisfies the constraint `other`.
    pub fn subtypeof(&self, other: &Feature, reg: &Registry) -> (r: bool)
        requires
            reg@.wf(),
        ensures
            r == compatible(reg@, *self, *other),
    {
        match (self, other) {
            (Feature::Qualifier { id: x }, Feature::Qualifier { id: y }) => {
                let da = reg.dimension_of(self);
                if da.is_none() || da != reg.dimension_of(other) {
                    return false;
                }
                reg.is_a(*x, *y)
            },
            (
                Feature::Quantifier { dimension: da, kind: ka, val: x },
                Feature::Quantifier { dimension: db, kind: kb, val: y },
            ) => {
                if *da != *db {
                    return false;
                }
                match (ka, kb) {
                    (QuantifierType::AtLeast, QuantifierType::AtLeast) => *x >= *y,
                    (QuantifierType::AtLeast, QuantifierType::AtMost) => false,
                    (QuantifierType::AtLeast, QuantifierType::Value) => *x >= *y,
                    (QuantifierType::AtMost, QuantifierType::AtLeast) => false,
                    (QuantifierType::AtMost, QuantifierType::AtMost) => *x <= *y,
                    (QuantifierType::AtMost, QuantifierType::Value) => *x <= *y,
                    (QuantifierType::Value, QuantifierType::AtLeast) => *x >= *y,
                    (QuantifierType::Value, QuantifierType::AtMost) => *x <= *y,
                    (QuantifierType::Value, QuantifierType::Value) => *x == *y,
                }
            },
            _ => false,
        }
    }

    /// The kind of this value.
    pub fn feature_type(&self) -> (r: FeatureType)
        ensures
            r == (match *self {
                Feature::Qualifier { .. } => FeatureType::Qualifier,
                Feature::Quantifier { .. } => FeatureType::Quantifier,
            }),
    {
        match self {
            Feature::Qualifier { .. } => FeatureType::Qualifier,
            Feature::Quantifier { .. } => FeatureType::Quantifier,
        }
    }

    /// The comparison mode of a numeric value.
    pub fn quantifier_type(&self) -> (r: Option<QuantifierType>)
        ensures
            r == (match *self {
                Feature::Qualifier { .. } => None,
                Feature::Quantifier { kind, .. } => Some(kind),
            }),
    {
        match self {
            Feature::Qualifier { .. } => None,
            Feature::Quantifier { kind, .. } => Some(*kind),
        }
    }

    /// The number of a numeric value.
    pub fn val(&self) -> (r: Option<i32>)
        ensures
            r == (match *self {
                Feature::Qualifier { .. } => None,
                Feature::Quantifier { val, .. } => Some(val),
            }),
    {
        match self {
            Feature::Qualifier { .. } => None,
            Feature::Quantifier { val, .. } => Some(*val),
        }
    }

    /// The dimension this value belongs to.
    pub fn feature_class(&self, reg: &Registry) -> (r: Option<PlatformParameter>)
        ensures
            r == reg@.dimension_of(*self),
    {
        reg.dimension_of(self)
    }

    /// The direct supertype of a qualifier; numbers have none.
    pub fn supertype(&self, reg: &Registry) -> (r: Option<Feature>)
        ensures
            r == (match *self {
                Feature::Qualifier { id } => if id < reg@.qualifiers.len() {
                    match reg@.qualifiers[id as int].supertype {
                        Some(s) => Some(Feature::Qualifier { id: s }),
                        None => None,
                    }
                } else {
                    None
                },
                Feature::Quantifier { .. } => None,
            }),
    {
        match self {
            Feature::Qualifier { id } => match reg.supertype_of(*id) {
                Some(s) => Some(Feature::Qualifier { id: s }),
                None => None,
            },
            Feature::Quantifier { .. } => None,
        }
    }

    /// Whether this is the top of its numeric range.
    pub fn is_top(&self) -> (r: bool)
        ensures
            r == spec_is_top(*self),
    {
        match self {
            Feature::Quantifier { kind: QuantifierType::AtLeast, val, .. } => *val == 0,
            Feature::Quantifier { kind: QuantifierType::AtMost, val, .. } => *val == i32::MAX,
            _ => false,
        }
    }
}

} // verus!
