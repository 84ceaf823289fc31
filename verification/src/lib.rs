//! Binding generation for structs that opt in with a marker attribute.
//!
//! The pipeline scans a workspace model for library targets, walks each
//! target's parsed source tree, selects the structs that carry the marker
//! derive and pass the configured name filters, and synthesizes, per
//! selected struct, the code fragments that adapt it to a foreign object
//! runtime: handle conversion, identity, checked downcast, base allocation,
//! property accessors, and a lazily initialized type descriptor.

pub mod ast;
pub mod builder;
pub mod descriptor;
pub mod errors;
pub mod extractor;
pub mod filter;
pub mod generator;
pub mod options;
pub mod workspace;

pub use builder::Builder;
pub use generator::Generator;
