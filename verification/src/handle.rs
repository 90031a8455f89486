//! Ownership discipline for interface pointers.
//!
//! A pointer obtained as a call's out parameter is owned: the caller
//! holds one reference and must release it exactly once.  A pointer
//! passed as an in parameter is borrowed for the call's duration: it is
//! a bitwise copy and must never touch the reference count.  The
//! distinction is a type-level property here: [`ComOwned`] is not
//! copyable and is consumed by its release, while [`ComIn`] is a copy
//! type with no access to any count at all.
//!
//! The counts themselves live in a [`RefCountTable`], the model of the
//! foreign heap of reference-counted objects.  Every operation states
//! its exact effect on the counts, so the balance of an acquire
//! followed by a release is a proved fact, not a convention.

use vstd::prelude::*;

verus! {

/// Reference counts of the foreign objects, by object index.
pub struct RefCountTable {
    counts: Vec<u32>,
}

impl View for RefCountTable {
    type V = Seq<u32>;

    closed spec fn view(&self) -> Seq<u32> {
        self.counts@
    }
}

/// Effect of taking one more reference to object `i`.
pub open spec fn spec_add_ref(c: Seq<u32>, i: int) -> Seq<u32> {
    c.update(i, (c[i] + 1) as u32)
}

/// Effect of giving up one reference to object `i`.
pub open spec fn spec_release(c: Seq<u32>, i: int) -> Seq<u32> {
    c.update(i, (c[i] - 1) as u32)
}

impl RefCountTable {
    pub fn new() -> (r: RefCountTable)
        ensures
            r@ == Seq::<u32>::empty(),
    {
        RefCountTable { counts: Vec::new() }
    }

    /// A new object appears with the given count (one, for an object
    /// just handed out through an out parameter).
    pub fn register_object(&mut self, initial: u32) -> (idx: usize)
        ensures
            final(self)@ == old(self)@.push(initial),
            idx == old(self)@.len(),
    {
        let idx = self.counts.len();
        self.counts.push(initial);
        idx
    }

    pub fn count(&self, i: usize) -> (r: u32)
        requires
            i < self@.len(),
        ensures
            r == self@[i as int],
    {
        self.counts[i]
    }

    pub fn object_count(&self) -> (r: usize)
        ensures
            r == self@.len(),
    {
        self.counts.len()
    }

    fn add_ref(&mut self, i: usize)
        requires
            i < old(self)@.len(),
            old(self)@[i as int] < u32::MAX,
        ensures
            final(self)@ == spec_add_ref(old(self)@, i as int),
    {
        let c = self.counts[i];
        self.counts.set(i, c + 1);
    }

    fn release(&mut self, i: usize)
        requires
            i < old(self)@.len(),
            old(self)@[i as int] >= 1,
        ensures
            final(self)@ == spec_release(old(self)@, i as int),
    {
        let c = self.counts[i];
        self.counts.set(i, c - 1);
    }
}

/// An owned reference to a foreign object.  Not copyable; it stands for
/// exactly one unit of the object's reference count, given back by
/// [`ComOwned::release`] and by nothing else.
pub struct ComOwned {
    index: usize,
}

impl ComOwned {
    pub closed spec fn spec_index(&self) -> int {
        self.index as int
    }

    /// Adopts a reference whose ownership was already transferred to
    /// the caller (a call's out parameter): no count changes hands.
    pub fn adopt(index: usize) -> (r: ComOwned)
        ensures
            r.spec_index() == index,
    {
        ComOwned { index }
    }

    /// Takes one more reference to the object, incrementing its count
    /// by exactly one.
    pub fn acquire(table: &mut RefCountTable, index: usize) -> (r: ComOwned)
        requires
            index < old(table)@.len(),
            old(table)@[index as int] < u32::MAX,
        ensures
            final(table)@ == spec_add_ref(old(table)@, index as int),
            r.spec_index() == index,
    {
        table.add_ref(index);
        ComOwned { index }
    }

    pub fn index(&self) -> (r: usize)
        ensures
            r == self.spec_index(),
    {
        self.index
    }

    /// Destroys the owned reference, decrementing the object's count by
    /// exactly one.  Consuming `self` makes a second release of the
    /// same reference a type error.
    pub fn release(self, table: &mut RefCountTable)
        requires
            self.spec_index() < old(table)@.len(),
            old(table)@[self.spec_index()] >= 1,
        ensures
            final(table)@ == spec_release(old(table)@, self.spec_index()),
    {
        table.release(self.index);
    }
}

/// A borrowed reference for the duration of one call.  Copying it is a
/// bitwise copy of the underlying pointer and must never be read as
/// adding a reference; accordingly the type offers no operation that
/// touches a [`RefCountTable`].
#[derive(Clone, Copy)]
pub struct ComIn {
    index: usize,
}

impl ComIn {
    pub closed spec fn spec_index(&self) -> int {
        self.index as int
    }

    /// Borrows an owned reference: copies the pointer, leaves every
    /// count as it is.
    pub fn new(t: &ComOwned) -> (r: ComIn)
        ensures
            r.spec_index() == t.spec_index(),
    {
        ComIn { index: t.index() }
    }

    /// The underlying pointer, for handing to a foreign call.
    pub fn into_ref(this: &ComIn) -> (r: usize)
        ensures
            r == this.spec_index(),
    {
        this.index
    }
}

/// Taking a reference and giving it back returns every count to its
/// old value: one acquire paired with one release is invisible.
pub proof fn lemma_acquire_release_balanced(c: Seq<u32>, i: int)
    requires
        0 <= i < c.len(),
        c[i] < u32::MAX,
    ensures
        spec_release(spec_add_ref(c, i), i) == c,
{
    assert(spec_release(spec_add_ref(c, i), i) =~= c);
}

/// Taking a reference to object `i` changes the count of `i` by
/// exactly plus one and no other count at all.
pub proof fn lemma_add_ref_exact(c: Seq<u32>, i: int)
    requires
        0 <= i < c.len(),
        c[i] < u32::MAX,
    ensures
        spec_add_ref(c, i).len() == c.len(),
        spec_add_ref(c, i)[i] == c[i] + 1,
        forall|j: int| 0 <= j < c.len() && j != i ==> spec_add_ref(c, i)[j] == c[j],
{
}

/// Releasing object `i` changes the count of `i` by exactly minus one
/// and no other count at all.
pub proof fn lemma_release_exact(c: Seq<u32>, i: int)
    requires
        0 <= i < c.len(),
        c[i] >= 1,
    ensures
        spec_release(c, i).len() == c.len(),
        spec_release(c, i)[i] == c[i] - 1,
        forall|j: int| 0 <= j < c.len() && j != i ==> spec_release(c, i)[j] == c[j],
{
}

} // verus!
