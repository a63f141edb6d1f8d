//! A cheaply cloneable, zero-copy-sliceable text type backed by a shared,
//! reference-counted byte buffer, plus a small two-phase chaining state
//! machine for suspend/resume protocols.

pub mod buffer;
pub mod bytestr;
pub mod futures;
pub mod validation;

pub use bytestr::ByteStr;
pub use bytestr::Utf8Error;
pub use validation::utf8_prefix_len;
pub use validation::validate_utf8;
