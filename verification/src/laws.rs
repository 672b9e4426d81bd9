//! The laws of the library: statements about all schemas, all plans and all
//! sequences of calls, each proved from the definitions that the contracts of
//! the functions use.

pub mod assembly;
pub mod generation;
