//! Replacing the metadata file by the unpacked payload. The file is first
//! moved to its backup and then written anew; either operation may fail, and
//! a failure ends the run. The caller makes the operations; what to do next
//! is decided here.

use vstd::prelude::*;
use crate::cipher::decrypted;
use crate::error::UnpackError;
use crate::metadata::{ciphertext, signature, unpacked, METADATA_SIGNATURE};

verus! {

/// The operations on the filesystem, in the order in which they are made.
#[derive(Clone, Copy, Debug, PartialEq, Eq)]
pub enum Step {
    /// Move the metadata file to its backup.
    Backup,
    /// Write the payload to the path that the metadata file had.
    Write,
}

/// What the caller is to do next.
#[derive(Clone, Copy, Debug, PartialEq, Eq)]
pub enum Next {
    /// Make this operation and report whether it succeeded.
    Run(Step),
    /// Make no further operation: the run has ended, with this result.
    Stop(Result<(), UnpackError>),
}

/// How a replacement begins, given what unpacking came to: with the backup
/// where there is a payload, and not at all where there is none.
pub open spec fn first<T>(unpacked: Result<T, UnpackError>) -> Next {
    match unpacked {
        Ok(_) => Next::Run(Step::Backup),
        Err(e) => Next::Stop(Err(e)),
    }
}

/// How a replacement goes on after `step` succeeded or failed. The file is
/// written only after the backup was made.
pub open spec fn following(step: Step, succeeded: bool) -> Next {
    match step {
        Step::Backup => if succeeded {
            Next::Run(Step::Write)
        } else {
            Next::Stop(Err(UnpackError::BackupFailed))
        },
        Step::Write => if succeeded {
            Next::Stop(Ok(()))
        } else {
            Next::Stop(Err(UnpackError::WriteFailed))
        },
    }
}

/// Begins a replacement with what unpacking came to.
pub fn begin<T>(unpacked: &Result<T, UnpackError>) -> (next: Next)
    ensures
        next == first(*unpacked),
{
    match unpacked {
        Ok(_) => Next::Run(Step::Backup),
        Err(e) => Next::Stop(Err(*e)),
    }
}

/// Goes on after `step` was made and succeeded or failed.
pub fn after(step: Step, succeeded: bool) -> (next: Next)
    ensures
        next == following(step, succeeded),
{
    match step {
        Step::Backup => if succeeded {
            Next::Run(Step::Write)
        } else {
            Next::Stop(Err(UnpackError::BackupFailed))
        },
        Step::Write => if succeeded {
            Next::Stop(Ok(()))
        } else {
            Next::Stop(Err(UnpackError::WriteFailed))
        },
    }
}

/// A file whose payload does not begin with the metadata signature starts
/// no operation: the run ends at once with the mismatch, and neither the
/// metadata file nor a backup is touched.
pub proof fn lemma_refused_file_starts_nothing(file: Seq<u8>, key: Seq<u8>)
    requires
        signature(decrypted(ciphertext(file), key)) != Some(METADATA_SIGNATURE),
    ensures
        first(unpacked(file, key)) == Next::Stop(
            Err(
                UnpackError::SignatureMismatch {
                    found: signature(decrypted(ciphertext(file), key)),
                    expected: METADATA_SIGNATURE,
                },
            ),
        ),
{
}

/// A run ends well only by way of the backup and then the write, each of
/// which succeeded: after a failure no operation follows, and no write comes
/// before the backup was made.
pub proof fn lemma_write_only_after_backup(step: Step, succeeded: bool)
    ensures
        following(step, succeeded) == Next::Run(Step::Write) <==> step == Step::Backup
            && succeeded,
        following(step, succeeded) == Next::Stop(Ok(())) <==> step == Step::Write && succeeded,
        !succeeded ==> following(step, succeeded) is Stop,
        following(step, succeeded) != Next::Run(Step::Backup),
{
}

} // verus!
