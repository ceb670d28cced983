use vstd::prelude::*;

verus! {

/// The errors that the library reports to its callers.
#[derive(Clone, Copy, Debug, PartialEq, Eq, Structural)]
pub enum PageError {
    /// Exactly one of key material and passphrase must be given, and a
    /// recipient list must not be empty.
    Usage,
    /// A public key could not be parsed.
    KeyFormat,
    /// A secret or a ciphertext header is malformed.
    Format,
    /// The credential given does not fit the mode the ciphertext was made in.
    ModeMismatch,
    /// No candidate credential unwrapped the file key.
    DecryptionFailed,
    /// The header or a payload chunk failed authentication.
    Integrity,
    /// The payload ended before its final chunk.
    Truncation,
    /// The ciphertext could not be written out.
    Output,
}

/// What went wrong in the encryption engine while unwrapping or reading, one
/// value for each way it reports failure.
#[derive(Clone, Copy, Debug, PartialEq, Eq, Structural)]
pub enum Failure {
    /// The file failed to decrypt.
    DecryptionFailed,
    /// A passphrase stanza asks for more work than is accepted.
    ExcessiveWork,
    /// The header is malformed.
    InvalidHeader,
    /// The header's authentication tag did not match.
    InvalidMac,
    /// A wrapped key could not be decrypted.
    KeyDecryptionFailed,
    /// None of the candidates fit any stanza.
    NoMatchingKeys,
    /// The file is in a format this engine does not know.
    UnknownFormat,
    /// The input ended too early.
    EndOfInput,
    /// Another input error, such as a payload chunk that failed authentication.
    Input,
}

/// The error reported for an engine failure.
pub open spec fn classify_spec(f: Failure) -> PageError {
    match f {
        Failure::DecryptionFailed => PageError::DecryptionFailed,
        Failure::ExcessiveWork => PageError::DecryptionFailed,
        Failure::KeyDecryptionFailed => PageError::DecryptionFailed,
        Failure::NoMatchingKeys => PageError::DecryptionFailed,
        Failure::InvalidHeader => PageError::Format,
        Failure::UnknownFormat => PageError::Format,
        Failure::InvalidMac => PageError::Integrity,
        Failure::EndOfInput => PageError::Truncation,
        Failure::Input => PageError::Integrity,
    }
}

/// The errors that can come out of a decryption once the credential has been
/// found to fit the ciphertext's mode.
pub open spec fn is_trial_error(e: PageError) -> bool {
    ||| e == PageError::DecryptionFailed
    ||| e == PageError::Format
    ||| e == PageError::Integrity
    ||| e == PageError::Truncation
}

/// Maps an engine failure to the error that callers see. Every way of not
/// finding a usable key collapses into one generic error.
pub fn classify(f: Failure) -> (r: PageError)
    ensures
        r == classify_spec(f),
        is_trial_error(r),
{
    match f {
        Failure::DecryptionFailed => PageError::DecryptionFailed,
        Failure::ExcessiveWork => PageError::DecryptionFailed,
        Failure::KeyDecryptionFailed => PageError::DecryptionFailed,
        Failure::NoMatchingKeys => PageError::DecryptionFailed,
        Failure::InvalidHeader => PageError::Format,
        Failure::UnknownFormat => PageError::Format,
        Failure::InvalidMac => PageError::Integrity,
        Failure::EndOfInput => PageError::Truncation,
        Failure::Input => PageError::Integrity,
    }
}

} // verus!
