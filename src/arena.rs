use vstd::prelude::*;

use crate::token::TokenWith;

verus! {

/// A position in an `Arena` of brand `ID`. Only an arena of the same brand
/// accepts it.
pub type Index<const ID: usize> = TokenWith<usize, ID>;

/// An append-only sequence of brand `ID`. Entries are never removed, so an
/// index handed out by `push` stays valid for the arena's whole life.
pub struct Arena<T, const ID: usize> {
    items: Vec<T>,
}

impl<T, const ID: usize> View for Arena<T, ID> {
    type V = Seq<T>;

    closed spec fn view(&self) -> Seq<T> {
        self.items@
    }
}

impl<T, const ID: usize> Arena<T, ID> {
    /// An empty arena, taking the token of its brand.
    pub fn new<U>(_token: TokenWith<U, ID>) -> (r: Self)
        ensures
            r@ == Seq::<T>::empty(),
    {
        Arena { items: Vec::new() }
    }

    /// Number of entries.
    pub fn len(&self) -> (r: usize)
        ensures
            r == self@.len(),
    {
        self.items.len()
    }

    /// Append `value` and return the index of the new last entry.
    pub fn push(&mut self, value: T) -> (r: Index<ID>)
        ensures
            final(self)@ == old(self)@.push(value),
            r@ == old(self)@.len(),
    {
        let pos = self.items.len();
        self.items.push(value);
        Index::new(pos)
    }

    /// The entry at `index`.
    pub fn get(&self, index: &Index<ID>) -> (r: &T)
        requires
            index@ < self@.len(),
        ensures
            *r == self@[index@ as int],
    {
        &self.items[*index.get()]
    }

    /// Exclusive access to the entry at `index`; the other entries stay as
    /// they are.
    pub fn get_mut(&mut self, index: &mut Index<ID>) -> (r: &mut T)
        requires
            old(index)@ < old(self)@.len(),
        ensures
            *r == old(self)@[old(index)@ as int],
            final(self)@ == old(self)@.update(old(index)@ as int, *final(r)),
            *final(index) == *old(index),
    {
        let i = *index.get();
        &mut self.items[i]
    }
}

} // verus!
