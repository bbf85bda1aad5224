//! Platform-aware selection among alternative implementations.
//!
//! Capabilities of a machine are described by feature values along named
//! dimensions; each implementation variant states the values it needs, and
//! the resolver picks the most specific variant that the machine satisfies.
mod cache;
mod feature;
mod laws;
mod platform;
mod registry;
mod resolve;

pub use feature::{
    compatible, quantity_satisfies, spec_is_top, AtLeast, AtMost, Feature, FeatureType,
    PlatformParameter, QuantifierType,
};
pub use registry::{supertype_fits, QualifierView, Registry, RegistryView};
pub use resolve::{
    dimension_satisfied, is_subtype_of, issubtypeof, lemma_scan_outcome, resolution, resolve,
    resolve_result, scan_from, scan_step, variant_views, PlatformFeatures, ResolveError,
};
pub use platform::{add_qualifier, add_quantifier};
pub use cache::ResolutionCache;
pub use laws::{
    lemma_compatible_reflexive, lemma_fallback, lemma_is_a_transitive,
    lemma_qualifier_compatible_transitive, lemma_resolve_deterministic,
};
