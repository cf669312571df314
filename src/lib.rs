//! The error model of a binding to a native compute API that reports failures
//! as integer status codes: one error type for every failure source, the
//! translation of status codes into it, and its rendering as text.

use vstd::prelude::*;

pub mod decimal;
pub mod error;
pub mod status;

pub use error::{Error, Result};
pub use status::Status;

verus! {

} // verus!
