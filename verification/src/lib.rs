//! Kernel-side system-call dispatch: the error taxonomy, the result
//! convention, the table of supported calls and the dispatcher that turns a
//! raw call identifier and six machine words into a typed decision.
//!
//! The library decides and never acts: running a handler, emitting a notice
//! and raising a fault are left to the kernel that calls it.

pub mod dispatch;
pub mod error;
pub mod result;
pub mod table;
pub mod words;

pub use dispatch::{syscall, Answer, Call, Route, StubPolicy};
pub use error::SysError;
pub use result::{collapse, expand, SysResult};
pub use table::{entries, lookup, Sys};
