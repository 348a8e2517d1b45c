//! Conversion of fetched database rows into strongly typed values.
//!
//! A row arrives from the execution layer as an ordered sequence of
//! nullable dynamic values ([`value::Value`]) together with a parallel
//! schema ([`value_row::ColumnType`]).  The [`value_row::TryFromValueRow`]
//! trait converts such a row into whatever shape the caller asked for:
//! the raw row itself, a unit marker, a single scalar (bare or optional),
//! or a fixed-arity tuple of scalars.  Arbitrary record types may
//! implement the trait themselves to become directly fetchable.

pub mod digits;
pub mod laws;
pub mod value;
pub mod value_row;
