//! The ways in which a run can fail. Every failure ends the run.

use vstd::prelude::*;
use crate::layout::GameFile;

verus! {

/// Why a run ended without replacing the metadata file.
#[derive(Clone, Copy, Debug, PartialEq, Eq)]
pub enum UnpackError {
    /// A file of the installation is not at its place.
    InputMissing(GameFile),
    /// The regular expression engine did not accept the key pattern.
    PatternRejected,
    /// The module holds no occurrence of the key pattern.
    KeyNotFound,
    /// The module holds more than one occurrence of the key pattern.
    AmbiguousKey,
    /// The one occurrence does not yield a key of the fixed length.
    MalformedKey,
    /// The decrypted payload does not begin with the metadata signature.
    /// `found` is the signature that was read, `None` where the payload is
    /// too short to hold one.
    SignatureMismatch { found: Option<u32>, expected: u32 },
    /// The metadata file could not be moved to its backup; nothing was
    /// changed.
    BackupFailed,
    /// The decrypted payload could not be written after the backup was made;
    /// the former content is in the backup file.
    WriteFailed,
}

} // verus!
