//! Fault-tolerant extraction of typed values from a parsed JSON document.
//!
//! Every accessor looks a child up by key and reports what it found in a
//! [`Maybe`]: nothing, a value of exactly the asked type, a value coerced
//! from another type, or an error.
use vstd::prelude::*;

pub mod coerce;
pub mod convert;
pub mod document;
pub mod error;
pub mod laws;
pub mod maybe;
pub mod text;
pub mod value;

pub use coerce::{coerce_bool, coerce_int, coerce_string, coerce_uint, string_truth};
pub use convert::TryFromJson;
pub use document::{FloatNumber, Json, Key, Number};
pub use error::FromJsonError;
pub use maybe::{Maybe, MaybeView};
pub use value::MaybeValue;
