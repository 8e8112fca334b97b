//! Open enumerations: a fixed set of named values backed by a representation
//! type, plus a catch-all that keeps every value no named case claims.
//!
//! Converting a representation value to the enumeration never fails: a value
//! that no named variant is declared with is kept by the catch-all, and
//! converting back gives the value that came in.
//!
//! - [`table`] declares an enumeration by the values of its named variants
//!   and converts in both directions.
//! - [`loose_bool`] is the boolean kept in an integer, with the fallible
//!   narrowing to `bool`.
//! - [`repr`] holds the representation types: the primitive integers and
//!   `String`.

pub mod loose_bool;
pub mod repr;
pub mod table;
