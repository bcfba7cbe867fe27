//! A builder-pattern synthesis engine: from a record schema it resolves the
//! per-field configuration, derives the builder's storage slots and setters,
//! and decides, at build time, where each field's value comes from.
pub mod schema;
pub mod field;
pub mod synth;
pub mod assembly;
pub mod laws;
