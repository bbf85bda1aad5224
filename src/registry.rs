use vstd::prelude::*;

use crate::feature::{Feature, PlatformParameter};

verus! {

/// A named node of a qualifier hierarchy.
struct Qualifier {
    name: String,
    dimension: PlatformParameter,
    supertype: Option<usize>,
}

/// A qualifier of a registry, in spec terms.
pub struct QualifierView {
    pub name: Seq<char>,
    pub dimension: PlatformParameter,
    pub supertype: Option<usize>,
}

/// The catalog of known qualifiers and the list of recognized dimensions.
///
/// Qualifiers live in an arena and refer to their supertype by index; a
/// supertype always comes earlier in the arena, so every chain is finite.
pub struct Registry {
    qualifiers: Vec<Qualifier>,
    parameters: Vec<String>,
}

/// What a `Registry` holds, in spec terms.
pub struct RegistryView {
    pub qualifiers: Seq<QualifierView>,
    pub parameters: Seq<Seq<char>>,
}

impl View for Registry {
    type V = RegistryView;

    closed spec fn view(&self) -> RegistryView {
        RegistryView {
            qualifiers: self.qualifiers@.map_values(
                |q: Qualifier|
                    QualifierView { name: q.name@, dimension: q.dimension, supertype: q.supertype },
            ),
            parameters: self.parameters@.map_values(|s: String| s@),
        }
    }
}

impl RegistryView {
    /// Every qualifier belongs to a recognized dimension, its supertype is an
    /// earlier qualifier of the same dimension, and no dimension name repeats.
    pub open spec fn wf(self) -> bool {
        &&& forall|i: int|
            0 <= i < self.qualifiers.len() ==> #[trigger] self.qualifiers[i].dimension
                < self.parameters.len()
        &&& forall|i: int|
            0 <= i < self.qualifiers.len() ==> match #[trigger] self.qualifiers[i].supertype {
                Some(s) => s < i && self.qualifiers[s as int].dimension
                    == self.qualifiers[i].dimension,
                None => true,
            }
        &&& forall|i: int, j: int|
            0 <= i < j < self.parameters.len() ==> self.parameters[i] != self.parameters[j]
    }

    /// Qualifier `a` is `b` or has `b` somewhere along its supertype chain.
    pub open spec fn is_a(self, a: int, b: int) -> bool
        decreases a,
    {
        if 0 <= a < self.qualifiers.len() {
            a == b || match self.qualifiers[a].supertype {
                Some(s) => s < a && self.is_a(s as int, b),
                None => false,
            }
        } else {
            false
        }
    }

    /// The index of the qualifier most recently registered under `name`.
    pub open spec fn lookup(self, name: Seq<char>) -> Option<int> {
        if exists|i: int| 0 <= i < self.qualifiers.len() && self.qualifiers[i].name == name {
            Some(
                choose|i: int|
                    {
                        &&& 0 <= i < self.qualifiers.len()
                        &&& self.qualifiers[i].name == name
                        &&& forall|j: int|
                            i < j < self.qualifiers.len() ==> #[trigger] self.qualifiers[j].name
                                != name
                    },
            )
        } else {
            None
        }
    }

    /// The dimension a feature value belongs to; none for a handle that names
    /// no qualifier of this registry.
    pub open spec fn dimension_of(self, f: Feature) -> Option<PlatformParameter> {
        match f {
            Feature::Qualifier { id } => if id < self.qualifiers.len() {
                Some(self.qualifiers[id as int].dimension)
            } else {
                None
            },
            Feature::Quantifier { dimension, .. } => Some(dimension),
        }
    }
}

impl Registry {
    /// An empty registry.
    pub fn new() -> (r: Registry)
        ensures
            r@.qualifiers.len() == 0,
            r@.parameters.len() == 0,
            r@.wf(),
    {
        Registry { qualifiers: Vec::new(), parameters: Vec::new() }
    }

    /// The dimension named `name`, if it is recognized.
    pub fn parameter(&self, name: &String) -> (r: Option<PlatformParameter>)
        ensures
            match r {
                Some(p) => p < self@.parameters.len() && self@.parameters[p as int] == name@,
                None => !self@.parameters.contains(name@),
            },
    {
        let mut i: usize = 0;
        while i < self.parameters.len()
            invariant
                i <= self.parameters.len(),
                forall|j: int| 0 <= j < i ==> self@.parameters[j] != name@,
            decreases self.parameters.len() - i,
        {
            if self.parameters[i] == *name {
                return Some(i);
            }
            i += 1;
        }
        None
    }

    /// Recognizes the dimension `fname` and returns it; a name already
    /// recognized keeps its place.
    pub fn insert_parameter(&mut self, fname: String) -> (r: PlatformParameter)
        requires
            old(self)@.wf(),
        ensures
            final(self)@.wf(),
            final(self)@.qualifiers == old(self)@.qualifiers,
            old(self)@.parameters.contains(fname@) ==> final(self)@.parameters == old(
                self,
            )@.parameters,
            !old(self)@.parameters.contains(fname@) ==> final(self)@.parameters == old(
                self,
            )@.parameters.push(fname@),
            r < final(self)@.parameters.len(),
            final(self)@.parameters[r as int] == fname@,
    {
        match self.parameter(&fname) {
            Some(p) => p,
            None => {
                let ghost before = self@;
                let p = self.parameters.len();
                self.parameters.push(fname);
                assert(self@.qualifiers =~= before.qualifiers);
                assert(self@.parameters =~= before.parameters.push(self.parameters@[p as int]@));
                p
            },
        }
    }

    /// Registers the qualifier `name` of dimension `dimension`, below
    /// `supertype` if one is given, and returns it. The dimension is
    /// recognized if it was not yet. Nothing changes, and the result is
    /// none, when `supertype` is not a registered qualifier of that same
    /// dimension.
    pub fn insert_feature(
        &mut self,
        name: String,
        dimension: String,
        supertype: Option<Feature>,
    ) -> (r: Option<Feature>)
        requires
            old(self)@.wf(),
        ensures
            final(self)@.wf(),
            r.is_none() <==> !supertype_fits(old(self)@, dimension@, supertype),
            r.is_none() ==> final(self)@ == old(self)@,
            r.is_some() ==> {
                &&& r == Some(Feature::Qualifier { id: old(self)@.qualifiers.len() as usize })
                &&& old(self)@.parameters.contains(dimension@) ==> final(self)@.parameters == old(
                    self,
                )@.parameters
                &&& !old(self)@.parameters.contains(dimension@) ==> final(self)@.parameters
                    == old(self)@.parameters.push(dimension@)
                &&& final(self)@.qualifiers.len() == old(self)@.qualifiers.len() + 1
                &&& final(self)@.qualifiers.drop_last() == old(self)@.qualifiers
                &&& final(self)@.qualifiers.last().name == name@
                &&& final(self)@.parameters[final(self)@.qualifiers.last().dimension as int]
                    == dimension@
                &&& final(self)@.qualifiers.last().supertype == match supertype {
                    Some(Feature::Qualifier { id }) => Some(id),
                    _ => None,
                }
            },
    {
        let parent: Option<usize> = match supertype {
            None => None,
            Some(Feature::Qualifier { id }) => {
                if id >= self.qualifiers.len() {
                    return None;
                }
                match self.parameter(&dimension) {
                    Some(d) => {
                        if self.qualifiers[id].dimension != d {
                            return None;
                        }
                    },
                    None => {
                        return None;
                    },
                }
                Some(id)
            },
            Some(Feature::Quantifier { .. }) => {
                return None;
            },
        };
        let ghost before = self@;
        let d = self.insert_parameter(dimension);
        let ghost mid = self@;
        proof {
            if let Some(s) = parent {
                let ds = before.qualifiers[s as int].dimension;
                assert(before.parameters[ds as int] == dimension@);
                assert(mid.parameters == before.parameters);
                assert(ds == d);
            }
        }
        let id = self.qualifiers.len();
        let ghost added = QualifierView { name: name@, dimension: d, supertype: parent };
        self.qualifiers.push(Qualifier { name, dimension: d, supertype: parent });
        assert(self@.parameters =~= mid.parameters);
        assert(self@.qualifiers =~= mid.qualifiers.push(added));
        assert forall|i: int| 0 <= i < self@.qualifiers.len() implies match #[trigger] self@.qualifiers[i].supertype {
            Some(s) => s < i && self@.qualifiers[s as int].dimension == self@.qualifiers[i].dimension,
            None => true,
        } by {
            if i < id {
                assert(self@.qualifiers[i] == mid.qualifiers[i]);
            }
        }
        assert(self@.qualifiers.drop_last() =~= before.qualifiers);
        Some(Feature::Qualifier { id })
    }

    /// Registers a chain of qualifiers of dimension `dimension`, from the root
    /// down: each name below the one before it. Returns the new qualifiers in
    /// the same order.
    pub fn insert_hierarchy(&mut self, chain: Vec<String>, dimension: String) -> (r: Vec<Feature>)
        requires
            old(self)@.wf(),
            old(self)@.qualifiers.len() + chain.len() <= usize::MAX,
        ensures
            final(self)@.wf(),
            r.len() == chain.len(),
            chain.len() == 0 ==> final(self)@ == old(self)@,
            chain.len() > 0 ==> {
                &&& old(self)@.parameters.contains(dimension@) ==> final(self)@.parameters
                    == old(self)@.parameters
                &&& !old(self)@.parameters.contains(dimension@) ==> final(self)@.parameters
                    == old(self)@.parameters.push(dimension@)
            },
            final(self)@.qualifiers.len() == old(self)@.qualifiers.len() + chain.len(),
            final(self)@.qualifiers.subrange(0, old(self)@.qualifiers.len() as int) == old(
                self,
            )@.qualifiers,
            forall|k: int|
                0 <= k < chain.len() ==> {
                    let n = old(self)@.qualifiers.len() + k;
                    &&& #[trigger] r@[k] == Feature::Qualifier { id: n as usize }
                    &&& final(self)@.qualifiers[n].name == chain@[k]@
                    &&& final(self)@.parameters[final(self)@.qualifiers[n].dimension as int]
                        == dimension@
                    &&& final(self)@.qualifiers[n].supertype == if k == 0 {
                        None
                    } else {
                        Some((n - 1) as usize)
                    }
                },
    {
        let ghost start = self@;
        let ghost base = start.qualifiers.len();
        let mut r: Vec<Feature> = Vec::new();
        let mut parent: Option<Feature> = None;
        let mut k: usize = 0;
        while k < chain.len()
            invariant
                self@.wf(),
                k <= chain.len(),
                r.len() == k,
                base == start.qualifiers.len(),
                base + chain.len() <= usize::MAX,
                self@.qualifiers.len() == base + k,
                self@.qualifiers.subrange(0, base as int) == start.qualifiers,
                k == 0 ==> self@ == start && parent is None,
                k > 0 ==> {
                    &&& start.parameters.contains(dimension@) ==> self@.parameters
                        == start.parameters
                    &&& !start.parameters.contains(dimension@) ==> self@.parameters
                        == start.parameters.push(dimension@)
                    &&& parent == Some(Feature::Qualifier { id: (base + k - 1) as usize })
                },
                forall|j: int|
                    0 <= j < k ==> {
                        let n = base + j;
                        &&& #[trigger] r@[j] == Feature::Qualifier { id: n as usize }
                        &&& self@.qualifiers[n].name == chain@[j]@
                        &&& self@.parameters[self@.qualifiers[n].dimension as int] == dimension@
                        &&& self@.qualifiers[n].supertype == if j == 0 {
                            None
                        } else {
                            Some((n - 1) as usize)
                        }
                    },
            decreases chain.len() - k,
        {
            let ghost prev = self@;
            proof {
                if k > 0 {
                    let last = k as int - 1;
                    assert(r@[last] == Feature::Qualifier { id: (base + last) as usize });
                    assert(supertype_fits(prev, dimension@, parent));
                }
            }
            let f = self.insert_feature(chain[k].clone(), dimension.clone(), parent);
            match f {
                Some(f) => {
                    proof {
                        assert(self@.qualifiers.subrange(0, base as int) =~= prev.qualifiers.subrange(0, base as int));
                        assert forall|j: int| 0 <= j < k implies #[trigger] self@.qualifiers[base + j] == prev.qualifiers[base + j] by {
                            assert(self@.qualifiers.drop_last()[base + j] == prev.qualifiers[base + j]);
                        }
                    }
                    r.push(f);
                    parent = Some(f);
                },
                None => {
                    // the parent was registered under this same dimension
                    // just before, so registration cannot be refused
                    assert(false);
                },
            }
            k += 1;
        }
        r
    }

    /// The qualifier most recently registered under `fname`, if any.
    pub fn lookup_feature(&self, fname: &String) -> (r: Option<Feature>)
        ensures
            r == match self@.lookup(fname@) {
                Some(id) => Some(Feature::Qualifier { id: id as usize }),
                None => None,
            },
            match r {
                Some(Feature::Qualifier { id }) => {
                    &&& id < self@.qualifiers.len()
                    &&& self@.qualifiers[id as int].name == fname@
                    &&& forall|j: int|
                        id < j < self@.qualifiers.len() ==> #[trigger] self@.qualifiers[j].name
                            != fname@
                },
                Some(Feature::Quantifier { .. }) => false,
                None => forall|j: int|
                    0 <= j < self@.qualifiers.len() ==> #[trigger] self@.qualifiers[j].name
                        != fname@,
            },
    {
        let mut i: usize = self.qualifiers.len();
        while i > 0
            invariant
                i <= self.qualifiers.len(),
                forall|j: int|
                    i <= j < self@.qualifiers.len() ==> #[trigger] self@.qualifiers[j].name
                        != fname@,
            decreases i,
        {
            i -= 1;
            if self.qualifiers[i].name == *fname {
                proof {
                    let ii = i as int;
                    let v = self@;
                    assert(v.qualifiers[ii].name == fname@);
                    let c = choose|k: int|
                        {
                            &&& 0 <= k < v.qualifiers.len()
                            &&& v.qualifiers[k].name == fname@
                            &&& forall|j: int|
                                k < j < v.qualifiers.len() ==> #[trigger] v.qualifiers[j].name
                                    != fname@
                        };
                    assert(c == ii);
                }
                return Some(Feature::Qualifier { id: i });
            }
        }
        None
    }

    /// Whether qualifier `a` is qualifier `b` or lies below it.
    pub fn is_a(&self, a: usize, b: usize) -> (r: bool)
        requires
            self@.wf(),
        ensures
            r == self@.is_a(a as int, b as int),
    {
        if a >= self.qualifiers.len() {
            return false;
        }
        let mut cur: usize = a;
        loop
            invariant
                self@.wf(),
                cur < self.qualifiers.len(),
                self@.is_a(a as int, b as int) == self@.is_a(cur as int, b as int),
            decreases cur,
        {
            if cur == b {
                return true;
            }
            match self.qualifiers[cur].supertype {
                Some(s) => {
                    assert(self@.qualifiers[cur as int].supertype == Some(s));
                    cur = s;
                },
                None => {
                    return false;
                },
            }
        }
    }

    /// The number of recognized dimensions.
    pub fn parameter_count(&self) -> (r: usize)
        ensures
            r == self@.parameters.len(),
    {
        self.parameters.len()
    }

    /// The supertype of qualifier `id`; none for a root or an unknown handle.
    pub fn supertype_of(&self, id: usize) -> (r: Option<usize>)
        ensures
            r == (if id < self@.qualifiers.len() {
                self@.qualifiers[id as int].supertype
            } else {
                None
            }),
    {
        if id < self.qualifiers.len() {
            self.qualifiers[id].supertype
        } else {
            None
        }
    }

    /// The dimension a feature value belongs to.
    pub fn dimension_of(&self, f: &Feature) -> (r: Option<PlatformParameter>)
        ensures
            r == self@.dimension_of(*f),
    {
        match f {
            Feature::Qualifier { id } => if *id < self.qualifiers.len() {
                Some(self.qualifiers[*id].dimension)
            } else {
                None
            },
            Feature::Quantifier { dimension, .. } => Some(*dimension),
        }
    }
}

/// Whether `supertype` may stand above a new qualifier of the dimension
/// named `dimension`: it is absent, or a registered qualifier of that
/// dimension.
pub open spec fn supertype_fits(
    reg: RegistryView,
    dimension: Seq<char>,
    supertype: Option<Feature>,
) -> bool {
    match supertype {
        None => true,
        Some(Feature::Qualifier { id }) => id < reg.qualifiers.len()
            && reg.parameters[reg.qualifiers[id as int].dimension as int] == dimension,
        Some(Feature::Quantifier { .. }) => false,
    }
}

} // verus!
