//! The parents of a check-in: almost always one, so they are kept in a
//! `SmallVec` with room for one id.

use crate::oid::Oid;
use vstd::prelude::*;

verus! {

/// A list of parents, held in a `smallvec::SmallVec`.
#[verifier::external_body]
#[derive(Debug)]
pub struct Parents {
    ids: smallvec::SmallVec<[Oid; 1]>,
}

/// The ids that a list of parents holds, in order.
pub uninterp spec fn parent_ids(parents: Parents) -> Seq<Seq<u8>>;

impl DeepView for Parents {
    type V = Seq<Seq<u8>>;

    open spec fn deep_view(&self) -> Seq<Seq<u8>> {
        parent_ids(*self)
    }
}

/// `SmallVec::new` makes a vector without items.
#[verifier::external_body]
fn small_new() -> (r: Parents)
    ensures
        parent_ids(r) == Seq::<Seq<u8>>::empty(),
{
    Parents { ids: smallvec::SmallVec::new() }
}

/// `SmallVec::push` appends an item.
#[verifier::external_body]
fn small_push(parents: &mut Parents, id: Oid)
    ensures
        parent_ids(*final(parents)) == parent_ids(*old(parents)).push(id@),
{
    parents.ids.push(id);
}

/// `SmallVec::len` counts the items.
#[verifier::external_body]
fn small_len(parents: &Parents) -> (r: usize)
    ensures
        r == parent_ids(*parents).len(),
{
    parents.ids.len()
}

/// Indexing a `SmallVec` gives the item at a place below its length.
#[verifier::external_body]
fn small_index(parents: &Parents, i: usize) -> (r: Oid)
    requires
        i < parent_ids(*parents).len(),
    ensures
        r@ == parent_ids(*parents)[i as int],
{
    parents.ids[i]
}

impl Parents {
    /// No parents.
    pub fn new() -> (r: Parents)
        ensures
            r.deep_view() == Seq::<Seq<u8>>::empty(),
    {
        small_new()
    }

    /// Adds a parent behind the others.
    pub fn push(&mut self, id: Oid)
        ensures
            final(self).deep_view() == old(self).deep_view().push(id@),
    {
        small_push(self, id);
    }

    /// How many parents there are.
    pub fn len(&self) -> (r: usize)
        ensures
            r == self.deep_view().len(),
    {
        small_len(self)
    }

    /// The parent at a place.
    pub fn get(&self, i: usize) -> (r: Option<Oid>)
        ensures
            r.deep_view() == (if i < self.deep_view().len() {
                Some(self.deep_view()[i as int])
            } else {
                None
            }),
    {
        if i < small_len(self) {
            Some(small_index(self, i))
        } else {
            None
        }
    }
}

impl Clone for Parents {
    fn clone(&self) -> (r: Parents)
        ensures
            r.deep_view() == self.deep_view(),
    {
        let mut r = small_new();
        let n = small_len(self);
        for i in 0..n
            invariant
                n == parent_ids(*self).len(),
                parent_ids(r) == parent_ids(*self).take(i as int),
        {
            small_push(&mut r, small_index(self, i));
            assert(parent_ids(r) == parent_ids(*self).take(i + 1));
        }
        assert(parent_ids(*self).take(n as int) == parent_ids(*self));
        r
    }
}

} // verus!
