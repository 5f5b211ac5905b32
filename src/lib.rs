//! An incremental evaluation session for a compiled language.
//!
//! Accepted statements are kept in order; each submission regenerates one
//! complete program from them, which an outside toolchain compiles and runs.
//! A statement whose program fails is rolled back.
pub mod accumulator;
pub mod buffer;
pub mod command;
pub mod laws;
pub mod program;
pub mod session;
pub mod text;
pub mod toolchain;
