//! Typed access to kernel attribute files: the error taxonomy, the bounded
//! read and verbatim write of attribute text, path resolution, and the
//! validator and planner that turn one attribute declaration into a getter
//! and a setter.

pub mod args;
pub mod attr_io;
pub mod codegen;
pub mod decl;
pub mod error;
pub mod path;

pub use error::SysfsError;
