//! A fixed-width 512-bit signed integer value with a hexadecimal wire form,
//! a 64-byte little-endian persisted form, bounds-checked narrowing to the
//! native integer widths, and wrapping and checked arithmetic.
pub mod model;
pub mod radix;
mod primitive;
pub mod error;
pub mod value;
pub mod arith;
pub mod convert;
pub mod text;
pub mod binary;
pub mod decimal;

pub use decimal::DecimalParts;
pub use error::Error;
pub use value::BiggerInt;
