//! Branded cells and tokens: a value stored in a `Cell<T, ID>` can be reached
//! only by presenting a `TokenWith<U, ID>` of the same brand `ID`.
//! Shared access takes `&TokenWith`, exclusive access takes `&mut TokenWith`,
//! so the borrow checker keeps "many readers or one writer" per brand, and a
//! token of another brand does not type-check.

pub mod arena;
pub mod cell;
pub mod iota;
pub mod token;

pub use arena::{Arena, Index};
pub use cell::{cell_pair, Cell};
pub use iota::{iota, IdCounter};
pub use token::{Token, TokenWith};
