//! Fixed-width multiply-accumulate (`a*b + c`) over unsigned 64-, 128- and
//! 256-bit values, with exact carry propagation.
//!
//! Two algorithmically distinct strategies are provided at every width — a
//! direct ("schoolbook") double-width multiplication and a recursive Karatsuba
//! decomposition — each proved against the same mathematical contract, so the
//! two are interchangeable and cross-comparable. The 64- and 128-bit
//! operations return the full double-width product; the 256-bit operation is
//! the terminal width and wraps modulo 2^256, like a fixed-width register.

pub mod algebra;
pub mod karatsuba;
pub mod laws;
pub mod schoolbook;
pub mod words;
