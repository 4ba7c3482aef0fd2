//! Constructor metadata for classes.
//!
//! For every named class of a program this crate reads the constructor's
//! parameter list, collects the name of the type each parameter is annotated
//! with, and appends two static, symbol-keyed members to the class body: one
//! that yields the ordered list of those type names, one that yields the
//! class's own name. A host without reified types can read both back at run
//! time, which is what reflection-style dependency injection needs.
//!
//! The crate works on its own description of the syntax it reads and writes,
//! the types of [`syntax`]. Everything here is pure: the diagnostics that a
//! pass produces are returned as [`Report`] values, never printed.
//!
//! - [`extract`]: from annotations and parameters to type names;
//! - [`metadata`]: the two members that a class gains;
//! - [`report`]: what is said about a processed class;
//! - [`visitor`]: the pass over one class and over a whole program;
//! - [`laws`]: what holds of every pass.

pub mod config;
pub mod extract;
pub mod laws;
pub mod metadata;
pub mod report;
pub mod syntax;
pub mod visitor;

pub use config::{Config, LogLevel};
pub use report::Report;
pub use visitor::{process_transform, TransformVisitor};
