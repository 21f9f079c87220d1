//! The error taxonomy of the session layer.
use vstd::prelude::*;

verus! {

/// A request that the configured parameters do not admit.
#[derive(Clone, Copy, Debug, PartialEq, Eq, Structural)]
pub enum ParameterError {
    /// The encoding was asked to hold cleartexts of zero bits.
    ZeroPrecision,
    /// The encoding was asked for more cleartext bits than it can represent.
    PrecisionTooWide,
    /// A cleartext lies outside the interval of the encoding context.
    CleartextOutOfRange,
    /// A bootstrap-gated operation was asked of an evaluator without a public key.
    MissingPublicKey,
    /// A scalar above `i32::MAX` was to multiply cleartexts of more than 32
    /// bits, where no signed multiplier stands for it.
    ScalarOutOfRange,
}

/// A step of the key cache that the file system refused.
#[derive(Clone, Copy, Debug, PartialEq, Eq, Structural)]
pub enum IoError {
    /// Looking for the key files failed.
    Probe,
    /// Reading the stored keys failed.
    Load,
    /// Creating the fingerprint directory failed.
    CreateDir,
    /// Writing the secret key failed.
    SaveSecretKey,
    /// Writing the bootstrapping key failed.
    SaveBootstrappingKey,
}

/// Why an operation of the session layer did not produce a result.
#[derive(Clone, Copy, Debug, PartialEq, Eq, Structural)]
pub enum Error {
    /// Invalid or incompatible parameters.
    Parameter(ParameterError),
    /// The primitive library reported a failure; never retried.
    CryptoOperation,
    /// The key cache could not be read or written.
    Io(IoError),
}

/// The three kinds of failure, without their detail.
#[derive(Clone, Copy, Debug, PartialEq, Eq, Structural)]
pub enum ErrorKind {
    Parameter,
    CryptoOperation,
    Io,
}

impl Error {
    /// What the error says, in words.
    pub open spec fn spec_message(self) -> Seq<char> {
        match self {
            Error::Parameter(e) => match e {
                ParameterError::ZeroPrecision => "the encoding needs at least one bit"@,
                ParameterError::PrecisionTooWide => "the encoding cannot hold that many bits"@,
                ParameterError::CleartextOutOfRange => "the cleartext lies outside the encoding"@,
                ParameterError::MissingPublicKey => "the operation needs a public key"@,
                ParameterError::ScalarOutOfRange => "the scalar is too large for the encoding"@,
            },
            Error::CryptoOperation => "the primitive library reported a failure"@,
            Error::Io(e) => match e {
                IoError::Probe => "could not look for the cached keys"@,
                IoError::Load => "could not load the cached keys"@,
                IoError::CreateDir => "could not create the cache directory"@,
                IoError::SaveSecretKey => "could not save the secret key"@,
                IoError::SaveBootstrappingKey => "could not save the bootstrapping key"@,
            },
        }
    }

    /// What the error says, in words.
    pub fn message(self) -> (text: &'static str)
        ensures
            text@ == self.spec_message(),
    {
        match self {
            Error::Parameter(e) => match e {
                ParameterError::ZeroPrecision => "the encoding needs at least one bit",
                ParameterError::PrecisionTooWide => "the encoding cannot hold that many bits",
                ParameterError::CleartextOutOfRange => "the cleartext lies outside the encoding",
                ParameterError::MissingPublicKey => "the operation needs a public key",
                ParameterError::ScalarOutOfRange => "the scalar is too large for the encoding",
            },
            Error::CryptoOperation => "the primitive library reported a failure",
            Error::Io(e) => match e {
                IoError::Probe => "could not look for the cached keys",
                IoError::Load => "could not load the cached keys",
                IoError::CreateDir => "could not create the cache directory",
                IoError::SaveSecretKey => "could not save the secret key",
                IoError::SaveBootstrappingKey => "could not save the bootstrapping key",
            },
        }
    }

    /// The kind this error belongs to.
    pub open spec fn spec_kind(self) -> ErrorKind {
        match self {
            Error::Parameter(_) => ErrorKind::Parameter,
            Error::CryptoOperation => ErrorKind::CryptoOperation,
            Error::Io(_) => ErrorKind::Io,
        }
    }

    /// The kind this error belongs to.
    #[verifier::when_used_as_spec(spec_kind)]
    pub fn kind(self) -> (k: ErrorKind)
        ensures
            k == self.spec_kind(),
    {
        match self {
            Error::Parameter(_) => ErrorKind::Parameter,
            Error::CryptoOperation => ErrorKind::CryptoOperation,
            Error::Io(_) => ErrorKind::Io,
        }
    }
}

} // verus!
