//! Short-circuits an encode-then-decode round trip: where a value of one type
//! is known to decode at another type as a direct transform gives it, the
//! transform is called instead of the codec.
//!
//! `relation`, `tuples` and `collections` hold the relation for the built-in
//! shapes; `derive` generates it for a declared type, from its `shape`,
//! renaming its parameters as `rename` says and writing `token`s; `laws`
//! states what holds across them.

pub mod collections;
pub mod derive;
pub mod laws;
pub mod relation;
pub mod rename;
pub mod shape;
pub mod token;
pub mod tuples;

pub use derive::{derive_source, impl_round_trip};
pub use relation::{RoundTrip, SameDeserialization};
pub use shape::{Field, Fields, Generics, Kind, LifetimeParam, TypeParam, TypeShape, Variant};
pub use token::{Token, TokenKind};
