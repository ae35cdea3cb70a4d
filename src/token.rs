use vstd::prelude::*;

use crate::cell::Cell;

verus! {

/// A capability for the brand `ID`, carrying a payload of type `T`.
///
/// A shared reference to a token grants shared access to every `Cell` of the
/// same brand; an exclusive reference grants exclusive access.
pub struct TokenWith<T, const ID: usize>(pub T, ());

/// A token that carries no data.
pub type Token<const ID: usize> = TokenWith<(), ID>;

impl<T, const ID: usize> View for TokenWith<T, ID> {
    type V = T;

    closed spec fn view(&self) -> T {
        self.0
    }
}

impl<T, const ID: usize> TokenWith<T, ID> {
    /// Create a token of brand `ID` carrying `value`.
    ///
    /// Cells of this library hold no interior mutability, so a second token
    /// of the same brand cannot open a conflicting path to a cell's content:
    /// mutation always needs the cell itself held exclusively as well.
    pub fn new(value: T) -> (r: Self)
        ensures
            r@ == value,
    {
        TokenWith(value, ())
    }

    /// A new cell of this token's brand holding `data`.
    pub fn cell(&self, data: T) -> (r: Cell<T, ID>)
        ensures
            r@ == data,
    {
        Cell::new(data)
    }

    /// Shared reference to the payload.
    pub fn get(&self) -> (r: &T)
        ensures
            *r == self@,
    {
        &self.0
    }

    /// Exclusive reference to the payload.
    pub fn get_mut(&mut self) -> (r: &mut T)
        ensures
            *r == old(self)@,
            final(self)@ == *final(r),
    {
        &mut self.0
    }

    /// Consume the token and return its payload.
    pub fn into_inner(self) -> (r: T)
        ensures
            r == self@,
    {
        self.0
    }
}

} // verus!
