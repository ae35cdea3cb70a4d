use vstd::prelude::*;

use crate::token::{Token, TokenWith};

verus! {

/// A single slot of brand `ID`, read through a `&TokenWith<_, ID>` and written
/// through a `&mut TokenWith<_, ID>`.
pub struct Cell<T, const ID: usize> {
    inner: T,
}

impl<T, const ID: usize> View for Cell<T, ID> {
    type V = T;

    closed spec fn view(&self) -> T {
        self.inner
    }
}

impl<T, const ID: usize> Cell<T, ID> {
    /// A cell of brand `ID` holding `value`.
    pub fn new(value: T) -> (r: Self)
        ensures
            r@ == value,
    {
        Cell { inner: value }
    }

    /// Consume the cell and return its value.
    pub fn into_inner(self) -> (r: T)
        ensures
            r == self@,
    {
        self.inner
    }

    /// Read the value without a token.
    pub fn get(&self) -> (r: &T)
        ensures
            *r == self@,
    {
        &self.inner
    }

    /// Exclusive access to the value without a token, from sole ownership of
    /// the cell.
    pub fn get_mut(&mut self) -> (r: &mut T)
        ensures
            *r == old(self)@,
            final(self)@ == *final(r),
    {
        &mut self.inner
    }

    /// Present a shared token of the same brand and read the value.
    pub fn borrow<'a, U>(&'a self, _token: &'a TokenWith<U, ID>) -> (r: &'a T)
        ensures
            *r == self@,
    {
        &self.inner
    }

    /// Present an exclusive token of the same brand and get exclusive access to
    /// the value. The token stays borrowed, so no other presentation of it can
    /// happen while the returned reference lives.
    pub fn borrow_mut<'a, U>(&'a mut self, token: &'a mut TokenWith<U, ID>) -> (r: &'a mut T)
        ensures
            *r == old(self)@,
            final(self)@ == *final(r),
            *final(token) == *old(token),
    {
        &mut self.inner
    }
}

/// A cell holding `value` and a token of the same brand `ID`, which the
/// caller picks once for the pair.
pub fn cell_pair<T, const ID: usize>(value: T) -> (r: (Cell<T, ID>, Token<ID>))
    ensures
        r.0@ == value,
{
    (Cell::new(value), Token::new(()))
}

} // verus!
