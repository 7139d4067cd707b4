//! Generic-bound inference: which binding sites of one generated function
//! or trampoline receive a constraint, and of which kind.

use vstd::prelude::*;
use crate::nameutil::str_eq;

verus! {

/// The kind of constraint a binding site receives.
#[derive(Clone, Copy, Debug, PartialEq, Eq, Structural)]
pub enum BoundType {
    /// An is-a relationship with the named type: any compatible subtype is
    /// accepted at the call site.
    IsA,
}

/// One inferred bound: a binding-site name, the type name it is bound to,
/// and the kind of relation.
pub struct Bound {
    pub name: String,
    pub type_str: String,
    pub bound_type: BoundType,
}

/// The bounds gathered while analyzing one function or signal. A binding
/// site receives at most one bound per analysis pass.
pub struct Bounds {
    used: Vec<Bound>,
}

impl Bounds {
    /// The gathered bounds, in insertion order.
    pub closed spec fn model(self) -> Seq<(Seq<char>, Seq<char>, BoundType)> {
        self.used@.map_values(|b: Bound| (b.name@, b.type_str@, b.bound_type))
    }

    pub open spec fn spec_has(self, name: Seq<char>) -> bool {
        exists|i: int| 0 <= i < self.model().len() && (#[trigger] self.model()[i]).0 == name
    }

    pub fn new() -> (r: Bounds)
        ensures
            r.model() == Seq::<(Seq<char>, Seq<char>, BoundType)>::empty(),
    {
        let r = Bounds { used: Vec::new() };
        proof {
            assert(r.model() =~= Seq::<(Seq<char>, Seq<char>, BoundType)>::empty());
        }
        r
    }

    /// Registers a bound for the binding site `name`. Idempotent per name:
    /// a site that already has a bound keeps it, and nothing is added.
    pub fn add_parameter(&mut self, name: &str, type_str: &str, bound_type: BoundType) -> (added:
        bool)
        ensures
            added == !old(self).spec_has(name@),
            final(self).model() == spec_add_bound(old(self).model(), name@, type_str@, bound_type),
    {
        let n = self.used.len();
        let mut i: usize = 0;
        while i < n
            invariant
                *self == *old(self),
                n == self.used@.len(),
                i <= n,
                forall|j: int| 0 <= j < i ==> (#[trigger] self.model()[j]).0 != name@,
            decreases n - i,
        {
            if str_eq(self.used[i].name.as_str(), name) {
                proof {
                    assert(self.model()[i as int].0 == name@);
                    assert(spec_add_bound(old(self).model(), name@, type_str@, bound_type)
                        =~= old(self).model());
                }
                return false;
            }
            i += 1;
        }
        let ghost prev = self.model();
        self.used.push(
            Bound { name: name.to_owned(), type_str: type_str.to_owned(), bound_type },
        );
        proof {
            assert(!old(self).spec_has(name@));
            assert(self.model() =~= prev.push((name@, type_str@, bound_type)));
        }
        true
    }

    pub fn len(&self) -> (r: usize)
        ensures
            r == self.model().len(),
    {
        self.used.len()
    }

    pub fn get(&self, i: usize) -> (r: &Bound)
        requires
            i < self.model().len(),
        ensures
            (r.name@, r.type_str@, r.bound_type) == self.model()[i as int],
    {
        &self.used[i]
    }
}

impl Default for Bounds {
    /// An analysis pass starts with no bounds gathered.
    fn default() -> (r: Bounds)
        ensures
            r.model() == Seq::<(Seq<char>, Seq<char>, BoundType)>::empty(),
    {
        Bounds::new()
    }
}

/// What registering one bound does to the gathered sequence: nothing when
/// the site already has one, an append otherwise.
pub open spec fn spec_add_bound(
    m: Seq<(Seq<char>, Seq<char>, BoundType)>,
    name: Seq<char>,
    type_str: Seq<char>,
    bound_type: BoundType,
) -> Seq<(Seq<char>, Seq<char>, BoundType)> {
    if exists|i: int| 0 <= i < m.len() && (#[trigger] m[i]).0 == name {
        m
    } else {
        m.push((name, type_str, bound_type))
    }
}

} // verus!
