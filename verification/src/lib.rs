//! Locating the cipher key that a game module carries and unpacking the
//! metadata file that was encrypted with it.

pub mod backup;
pub mod cipher;
pub mod error;
pub mod key;
pub mod layout;
pub mod metadata;
pub mod replace;
