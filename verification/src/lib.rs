//! Binding core for exposing native classes and methods to an embedded,
//! slot-based scripting virtual machine.

pub mod errors;
pub mod foreign;
pub mod marshal;
pub mod util;
pub mod vm;
