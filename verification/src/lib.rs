//! Handle forms of `&mut`, `Box`, `Vec` and `String`, with the protocol by
//! which ownership passes between a unique owner and its handle stated and
//! proved.
//!
//! Each handle is made from a unique owner by `from_unique` and gives that
//! owner back through `into_unique`. The conversion is a move: at any time an
//! allocation has one logical owner, either the unique owner or the handle,
//! and what goes in is what comes out. For a vector that is the vector
//! itself, with its buffer, length and capacity; for a string, the string
//! made in the same buffer; for a box and a borrow, which the verifier knows
//! by their content alone, the content.
//!
//! The handles are written in safe Rust and keep the unique owner inside.
//! The buffer handle records the raw parts of the vector it was made from
//! beside it; the text handle is a buffer handle of bytes that are valid
//! UTF-8 whenever they can be seen.
//!
//! - [`AliasableMut`], [`boxed`], [`vec`], [`string`]: the four handles.
//! - [`fed`]: what a handle feeds to a hasher and to a formatter.
//! - [`pin`]: the conversions between pinned unique owners and pinned
//!   handles, and what is known of a pin.
//! - [`lexical`]: the order by which buffers and texts compare.
//! - [`laws`]: what holds of every handle, as proof functions.

pub mod boxed;
pub mod fed;
pub mod laws;
pub mod lexical;
mod mut_ref;
pub mod pin;
pub mod prelude;
mod std_specs;
pub mod string;
pub mod vec;

pub use crate::mut_ref::AliasableMut;
