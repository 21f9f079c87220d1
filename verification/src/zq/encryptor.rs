//! Encryption under a borrowed secret key.
use vstd::prelude::*;
use crate::zq::encoding::EncodingContext;
use crate::zq::encoding::EncodingSpec;
use crate::zq::error::Error;
use crate::zq::error::ParameterError;
use crate::zq::key_generator::SecretKey;
use crate::zq::standard_encoding;
use crate::zq::standard_encoding_spec;

verus! {

/// Turns cleartexts into requests for encryption under one secret key and
/// one encoding context. It borrows the key and cannot outlive it.
pub struct Encryptor<'a, K> {
    sk: &'a SecretKey<K>,
    encoder: EncodingContext,
}

/// One encryption for the primitive library to carry out: encode `message`
/// under `encoder` and encrypt it under `key`.
pub struct Encryption<'a, K> {
    pub key: &'a K,
    pub message: u32,
    pub encoder: EncodingContext,
}

impl<'a, K> Encryptor<'a, K> {
    /// The secret key that this encryptor is bound to.
    pub closed spec fn key(&self) -> SecretKey<K> {
        *self.sk
    }

    /// What the encoding context of this encryptor stands for.
    pub closed spec fn encoding(&self) -> EncodingSpec {
        self.encoder@
    }

    /// An encryptor under `sk` with the standard encoding context.
    pub fn new(sk: &'a SecretKey<K>) -> (r: Result<Encryptor<'a, K>, Error>)
        ensures
            r is Ok,
            r->Ok_0.key() == *sk,
            r->Ok_0.encoding() == standard_encoding_spec(),
    {
        match standard_encoding() {
            Ok(encoder) => Ok(Encryptor { sk, encoder }),
            Err(e) => Err(e),
        }
    }

    /// An encryptor under `sk` with the encoding context `encoder`.
    pub fn with_encoding(sk: &'a SecretKey<K>, encoder: EncodingContext) -> (r: Encryptor<'a, K>)
        ensures
            r.key() == *sk,
            r.encoding() == encoder@,
    {
        Encryptor { sk, encoder }
    }

    /// The encoding context of this encryptor.
    pub fn encoder(&self) -> (r: &EncodingContext)
        ensures
            r@ == self.encoding(),
            self.encoding().wf(),
    {
        let _ = self.encoder.min();
        &self.encoder
    }

    /// The secret key that this encryptor is bound to.
    pub fn secret_key(&self) -> (r: &'a SecretKey<K>)
        ensures
            *r == self.key(),
    {
        self.sk
    }

    /// The encryption of the cleartext `m`. A cleartext outside the interval
    /// of the encoding context is refused; any other is to be encoded under
    /// this context and encrypted under the bound key.
    pub fn encrypt(&self, m: u32) -> (r: Result<Encryption<'a, K>, Error>)
        ensures
            match r {
                Ok(e) => {
                    &&& self.encoding().contains(m as nat)
                    &&& *e.key == self.key().lwe_key
                    &&& e.message == m
                    &&& e.encoder@ == self.encoding()
                },
                Err(e) => {
                    &&& !self.encoding().contains(m as nat)
                    &&& e == Error::Parameter(ParameterError::CleartextOutOfRange)
                },
            },
            self.encoding().wf(),
    {
        if self.encoder.contains(m as u64) {
            Ok(Encryption { key: &self.sk.lwe_key, message: m, encoder: self.encoder })
        } else {
            Err(Error::Parameter(ParameterError::CleartextOutOfRange))
        }
    }
}

} // verus!
