//! Combinators for two-stage suspend/resume protocols.

pub mod then;

pub use then::then;
pub use then::Then;
