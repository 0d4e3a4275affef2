//! A lifetime-and-ownership bridge that lets a native parsing engine run
//! grammars compiled to a portable bytecode format.
//!
//! The bridge manages three crossing points: a compute engine able to run
//! bytecode modules, a store that loads named grammar modules from raw bytes
//! and yields language handles, and the transfer of that store's ownership
//! into a parser. The hard part is the ownership choreography across the
//! native boundary: the native store object must be destroyed exactly once,
//! whichever side holds it last.
//!
//! The native side is represented by [`host::Host`], an instrumented model of
//! the boundary that tracks every store object, engine box and load call, so
//! the single-ownership discipline is stated and proved rather than assumed.

pub mod error;
pub mod host;
pub mod parser;
pub mod store;
