//! What can go wrong while adding a secret.
use vstd::prelude::*;

verus! {

/// Failures of the secret-store workflow. `WeakPassword` and `InvalidPath`
/// are recovered by asking again; the others end the run.
#[derive(Debug, Clone, Copy, PartialEq, Eq, Structural)]
pub enum VaultSecretError {
    /// The user aborted a prompt.
    CancelledInput,
    /// The vault password is shorter than the minimum length.
    WeakPassword,
    /// The vault path exists but is not a regular file.
    InvalidPath,
    /// The vault does not open: wrong password or damaged ciphertext.
    DecryptionFailure,
    /// The decrypted payload is not UTF-8 text.
    NotUtf8,
    /// The decrypted text is not a mapping of names to strings.
    MalformedDocument,
    /// The document could not be serialized or encrypted.
    EncryptionFailure,
    /// Reading or writing the vault file failed.
    IoFailure,
}

impl VaultSecretError {
    /// A short user-facing description.
    pub fn message(&self) -> &'static str {
        match self {
            VaultSecretError::CancelledInput => "input was cancelled",
            VaultSecretError::WeakPassword => "the vault password must be at least 4 characters long",
            VaultSecretError::InvalidPath => "the vault path is not a regular file",
            VaultSecretError::DecryptionFailure => "failed to decrypt the vault file",
            VaultSecretError::NotUtf8 => "the decrypted vault is not UTF-8 text",
            VaultSecretError::MalformedDocument => "failed to parse the decrypted vault file",
            VaultSecretError::EncryptionFailure => "failed to encrypt the vault",
            VaultSecretError::IoFailure => "failed to read or write the vault file",
        }
    }
}

} // verus!
