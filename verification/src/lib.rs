//! Resolution of platform error codes to their canonical diagnostic strings,
//! as a `strerror`-style compatibility layer would report them.
//!
//! The crate is a single stateless lookup: given an [`platform::ErrorCode`]
//! and the active [`platform::PlatformProfile`], [`resolver::error_str`]
//! returns the documented message for that code under that profile, or `None`
//! when the profile does not define the code.

pub mod platform;
pub mod resolver;
