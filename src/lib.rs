//! Typed errors for the status codes of a native virtual-reality runtime.
//!
//! `sys` models the codes that the runtime's C interface returns, `errors` wraps
//! each failing code in a typed error of its subsystem, and `text` builds the log
//! line `<subsystem>(<numeric code>): <description>`.
pub mod sys;
pub mod text;
pub mod errors;
