//! Decryption under a borrowed secret key.
use vstd::prelude::*;
use crate::zq::key_generator::SecretKey;
use crate::zq::Ciphertext;

verus! {

/// Turns ciphertexts into requests for decryption under one secret key. It
/// borrows the key and cannot outlive it.
pub struct Decryptor<'a, K> {
    sk: &'a SecretKey<K>,
}

/// One decryption for the primitive library to carry out: decrypt
/// `ciphertext` under `key` and decode it, rounded to the nearest cleartext.
pub struct Decryption<'r, 'a, K, C> {
    pub key: &'a K,
    pub ciphertext: &'r C,
}

impl<'a, K> Decryptor<'a, K> {
    /// The secret key that this decryptor is bound to.
    pub closed spec fn key(&self) -> SecretKey<K> {
        *self.sk
    }

    /// A decryptor under `sk`.
    pub fn new(sk: &'a SecretKey<K>) -> (r: Decryptor<'a, K>)
        ensures
            r.key() == *sk,
    {
        Decryptor { sk }
    }

    /// The secret key that this decryptor is bound to.
    pub fn secret_key(&self) -> (r: &'a SecretKey<K>)
        ensures
            *r == self.key(),
    {
        self.sk
    }

    /// The decryption of `a`: under the bound key, whatever key it was
    /// encrypted under.
    pub fn decrypt<'r, C>(&self, a: &'r Ciphertext<C>) -> (r: Decryption<'r, 'a, K, C>)
        ensures
            *r.key == self.key().lwe_key,
            *r.ciphertext == a.lwe,
    {
        Decryption { key: &self.sk.lwe_key, ciphertext: &a.lwe }
    }
}

} // verus!
