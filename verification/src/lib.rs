//! A system-configuration auditor: a fixed catalog of named checks grouped
//! into categories, evaluated against a read-only probe of machine state,
//! merged into one result store, and serialized as JSON, CSV, or HTML.

pub mod audit;
pub mod checks;
pub mod laws;
pub mod probe;
pub mod report;
pub mod strutil;
pub mod types;
