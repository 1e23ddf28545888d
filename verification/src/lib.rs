//! Debug-information (DI) attributes of MLIR's LLVM dialect, described as plain values.

pub mod attribute;
pub mod debug_info;
pub mod flags;
pub mod kinds;
pub mod laws;
