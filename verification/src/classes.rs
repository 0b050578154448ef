//! The engine's class registry: a single-inheritance hierarchy of engine
//! classes, and the registry of script classes that extend an engine class.
//!
//! A class is identified by its index in the table. Class `0` is the common
//! ancestor of every class; every other class names a parent registered
//! before it, which keeps the hierarchy acyclic. A checked downcast to class
//! `t` succeeds exactly when the object's own class is `t` or a descendant
//! of `t`.

use vstd::prelude::*;

verus! {

/// The engine's class hierarchy: `parents[c]` is the parent of class `c`.
pub struct ClassTable {
    pub parents: Vec<usize>,
}

/// Holds when `anc` is `c` itself or a (transitive) ancestor of `c` in the
/// hierarchy described by `parents`. Total even on malformed tables: a link
/// that does not strictly decrease is treated as absent.
pub open spec fn is_subclass(parents: Seq<usize>, c: usize, anc: usize) -> bool
    decreases c,
{
    if c == anc {
        true
    } else if 0 < c < parents.len() && parents[c as int] < c {
        is_subclass(parents, parents[c as int], anc)
    } else {
        false
    }
}

impl ClassTable {
    /// A well-formed table: the base class is its own parent, and every
    /// other class points to an earlier one.
    pub open spec fn wf(self) -> bool {
        &&& self.parents@.len() >= 1
        &&& self.parents@[0] == 0
        &&& forall|i: int| 0 < i < self.parents@.len() ==> (#[trigger] self.parents@[i]) < i
    }

    pub open spec fn count(self) -> nat {
        self.parents@.len()
    }

    /// A registry holding only the base class.
    pub fn new() -> (r: ClassTable)
        ensures
            r.wf(),
            r.parents@ == seq![0usize],
    {
        let mut parents: Vec<usize> = Vec::new();
        parents.push(0);
        ClassTable { parents }
    }

    /// Registers a new class under an already registered parent and returns
    /// its identifier.
    pub fn add_class(&mut self, parent: usize) -> (id: usize)
        requires
            old(self).wf(),
            parent < old(self).count(),
            old(self).count() < usize::MAX,
        ensures
            final(self).wf(),
            id == old(self).count(),
            final(self).parents@ == old(self).parents@.push(parent),
    {
        let id = self.parents.len();
        self.parents.push(parent);
        id
    }

    /// Whether class `c` is `anc` itself or inherits from it.
    pub fn is_subclass_of(&self, c: usize, anc: usize) -> (r: bool)
        requires
            self.wf(),
            c < self.count(),
        ensures
            r == is_subclass(self.parents@, c, anc),
    {
        let mut cur = c;
        loop
            invariant
                self.wf(),
                cur < self.count(),
                is_subclass(self.parents@, c, anc) == is_subclass(self.parents@, cur, anc),
            decreases cur,
        {
            if cur == anc {
                return true;
            }
            if cur == 0 {
                return false;
            }
            cur = self.parents[cur];
        }
    }
}

/// The registry of script classes: `bases[n]` is the engine class that
/// script class `n` extends.
pub struct NativeClassTable {
    pub bases: Vec<usize>,
}

impl NativeClassTable {
    /// A well-formed registry over a class table: every base is registered.
    pub open spec fn wf_for(self, classes: ClassTable) -> bool {
        forall|i: int|
            0 <= i < self.bases@.len() ==> (#[trigger] self.bases@[i]) < classes.count()
    }

    pub open spec fn count(self) -> nat {
        self.bases@.len()
    }

    /// An empty registry.
    pub fn new() -> (r: NativeClassTable)
        ensures
            r.bases@ == Seq::<usize>::empty(),
    {
        NativeClassTable { bases: Vec::new() }
    }

    /// Registers a script class extending engine class `base` and returns
    /// its identifier.
    pub fn add_native(&mut self, base: usize) -> (id: usize)
        requires
            old(self).count() < usize::MAX,
        ensures
            id == old(self).count(),
            final(self).bases@ == old(self).bases@.push(base),
    {
        let id = self.bases.len();
        self.bases.push(base);
        id
    }
}

} // verus!
