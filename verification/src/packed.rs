//! Array-backed raw vectors for the primitive integer types.
//!
//! A raw vector of an integer type is an array of its lanes: 32 bytes,
//! whatever the width of one lane. The operations work lane by lane and
//! are available on every machine.
pub mod element;
pub mod integer;
pub mod laws;
pub mod num;
