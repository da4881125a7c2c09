//! A dynamically typed value: integers of every width, floats, strings,
//! booleans, null, arrays, maps, pairs and functions in one type, with
//! uniform casts, arithmetic, equality, hashing, indexing and iteration.
//!
//! Every operation is verified against a model of its value (`Val`).
//! Floats are held as their bit patterns: what needs float arithmetic or
//! formatting is handed back to the caller as plain data (`Outcome::Float`,
//! `Real`, `Piece`).

pub mod any;
pub mod cast;
pub mod collections;
pub mod convert;
pub mod float;
pub mod function;
pub mod hash;
pub mod laws;
pub mod ops;
pub mod render;
pub mod text;
pub mod value;

pub use any::null;
pub use cast::{
    Anyable, AutoCast, Model, Real, ToArray, ToBoolean, ToFloat, ToFunction, ToInteger, ToMap,
    ToPair, ToStr,
};
pub use function::Function;
pub use ops::{divides_by_zero, Fault, Op, Outcome};
pub use render::Piece;
pub use value::{Any, Array, Dict, Kind, Null, Pair, Val};
