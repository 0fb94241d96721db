//! Marshaling core for functions that a host calls through a C string interface:
//! decoding of the argument vector, per-type conversion of arguments and returns,
//! the error taxonomy with its wire text, and the reusable return buffer.

pub mod args;
pub mod buffer;
pub mod call;
pub mod convert;
pub mod decimal;
pub mod error;
pub mod error_keys;
pub mod example;
pub mod json;
pub mod signature;
