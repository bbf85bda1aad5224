use vstd::prelude::*;

use crate::registry::Registry;
use crate::resolve::{resolve, resolve_result, variant_views, PlatformFeatures, ResolveError};

verus! {

/// The resolved choice of one dispatch site: computed on first use, then
/// kept for good.
pub struct ResolutionCache {
    slot: Option<Result<usize, ResolveError>>,
}

impl View for ResolutionCache {
    type V = Option<Result<usize, ResolveError>>;

    closed spec fn view(&self) -> Option<Result<usize, ResolveError>> {
        self.slot
    }
}

impl ResolutionCache {
    /// A cache that holds no choice yet.
    pub fn new() -> (r: ResolutionCache)
        ensures
            r@ is None,
    {
        ResolutionCache { slot: None }
    }

    /// The choice held, if one was computed.
    pub fn cached(&self) -> (r: Option<Result<usize, ResolveError>>)
        ensures
            r == self@,
    {
        self.slot
    }

    /// The choice of this site. The first call resolves `featureset_list`
    /// against `snapshot` and keeps the outcome; every later call returns
    /// that outcome again without resolving.
    pub fn get_or_resolve(
        &mut self,
        reg: &Registry,
        featureset_list: &Vec<PlatformFeatures>,
        snapshot: &PlatformFeatures,
    ) -> (r: Result<usize, ResolveError>)
        requires
            reg@.wf(),
        ensures
            old(self)@ matches Some(c) ==> r == c && final(self)@ == old(self)@,
            old(self)@ is None ==> r == resolve_result(
                reg@,
                variant_views(featureset_list@),
                snapshot@,
            ) && final(self)@ == Some(r),
    {
        match self.slot {
            Some(c) => c,
            None => {
                let c = resolve(reg, featureset_list, snapshot);
                self.slot = Some(c);
                c
            },
        }
    }
}

} // verus!
