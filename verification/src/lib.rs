use vstd::prelude::*;

pub mod error;
pub mod frames;
pub mod render;
pub mod report;
pub mod spantrace;
pub mod testerror;
pub mod text;

pub use crate::error::{Error, ResultExt};
pub use crate::report::Report;
pub use crate::spantrace::SpanTrace;
pub use tracing_error::ErrorLayer;

verus! {

/// The outcome type this library's operations return.
pub type Result<A = (), E = crate::error::Error> = core::result::Result<A, E>;

} // verus!
