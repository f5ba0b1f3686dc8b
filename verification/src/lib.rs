//! Resolution of environment-variable lookups that happen either while a
//! program is being translated or once it runs.
//!
//! An invocation names an environment variable and, in its second form, gives a
//! default literal. When the build environment holds the variable, its string
//! value is converted — by the rules of the default literal's kind — into a
//! fixed value baked into the output; when it does not, the output defers the
//! lookup to runtime, where a missing or malformed value falls back to the
//! default instead of failing. This crate holds that decision logic: the
//! literal model, the string parsers, the dispatcher, and the runtime
//! evaluation semantics, each with its contract.

pub mod expand;
pub mod lit;
pub mod parse;
pub mod resolve;
pub mod token;
