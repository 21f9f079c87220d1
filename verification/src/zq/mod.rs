//! Integer cleartexts under a homomorphic scheme: the session layer.
use vstd::prelude::*;
use crate::zq::encoding::EncodingContext;
use crate::zq::encoding::EncodingSpec;
use crate::zq::error::Error;

pub mod cache;
pub mod decimal;
pub mod decryptor;
pub mod encoding;
pub mod encryptor;
pub mod error;
pub mod evaluator;
pub mod ffi;
pub mod key_generator;

verus! {

/// Width of a cleartext in bits: cleartexts are the integers of `[0, 2^32 - 1]`.
pub const MAX_CLEARTEXT_BITS: usize = 32;

/// Zero bits kept above a cleartext: the two that a multiplication by
/// bootstrap uses up.
pub const ENCODING_PADDING: usize = 2;

/// An encrypted sample, in whatever form the primitive library keeps it. It
/// carries the encoding it was made under and no reference to a key, and can
/// be copied and handed on freely.
#[derive(Clone, Debug, PartialEq)]
pub struct Ciphertext<C> {
    pub lwe: C,
}

/// What the standard encoding context stands for.
pub open spec fn standard_encoding_spec() -> EncodingSpec {
    EncodingSpec::of(MAX_CLEARTEXT_BITS as nat, ENCODING_PADDING as nat)
}

/// The encoding context that every encryptor and evaluator uses unless it is
/// given another: ciphertexts made under it are understood by all of them.
pub fn standard_encoding() -> (r: Result<EncodingContext, Error>)
    ensures
        r is Ok,
        r->Ok_0@ == standard_encoding_spec(),
        r->Ok_0@.wf(),
{
    match EncodingContext::new(MAX_CLEARTEXT_BITS, ENCODING_PADDING) {
        Ok(encoder) => Ok(encoder),
        Err(e) => Err(Error::Parameter(e)),
    }
}

} // verus!
