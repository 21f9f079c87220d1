//! Plain records of the foreign-call boundary.
use vstd::prelude::*;
use crate::zq::error::Error;
use crate::zq::error::ErrorKind;
use crate::zq::key_generator::KeyGenerator;
use crate::zq::key_generator::LWEParams;
use crate::zq::key_generator::RLWEParams;

verus! {

/// Scheme parameters as the foreign caller gives them: one dimension and one
/// noise exponent for both variants of the scheme.
#[derive(Clone, Copy, Debug, PartialEq, Eq, Structural)]
pub struct SecurityParams {
    pub dimension: usize,
    pub log2_std_dev: i32,
}

/// The settings that the foreign caller's parameters stand for: a ring of
/// dimension one whose polynomials have `security.dimension` coefficients,
/// and masks of `security.dimension` elements, both with the given noise.
pub open spec fn key_generator_settings(
    security: SecurityParams,
    bs_base_log: usize,
    bs_level: usize,
) -> KeyGenerator {
    KeyGenerator {
        rlwe_setting: RLWEParams {
            dimension: 1,
            polynomial_size: security.dimension,
            log2_std_dev: security.log2_std_dev,
        },
        lwe_setting: LWEParams {
            dimension: security.dimension,
            log2_std_dev: security.log2_std_dev,
        },
        bs_base_log,
        bs_level,
    }
}

/// The key generator for the foreign caller's parameters.
pub fn new_cxx_key_generator(security: SecurityParams, bs_base_log: usize, bs_level: usize) -> (kg:
    KeyGenerator)
    ensures
        kg == key_generator_settings(security, bs_base_log, bs_level),
{
    KeyGenerator::new(
        RLWEParams {
            dimension: 1,
            polynomial_size: security.dimension,
            log2_std_dev: security.log2_std_dev,
        },
        LWEParams { dimension: security.dimension, log2_std_dev: security.log2_std_dev },
        bs_base_log,
        bs_level,
    )
}

/// The tag under which a result crosses the boundary: zero for success, and
/// one number for each kind of failure.
pub open spec fn status_of_kind(kind: Option<ErrorKind>) -> u8 {
    match kind {
        None => 0,
        Some(ErrorKind::Parameter) => 1,
        Some(ErrorKind::CryptoOperation) => 2,
        Some(ErrorKind::Io) => 3,
    }
}

/// The tag of `result`: zero exactly for `Ok`, else the number of the
/// error's kind.
pub fn status<T>(result: &Result<T, Error>) -> (code: u8)
    ensures
        code == status_of_kind(
            match *result {
                Ok(_) => None,
                Err(e) => Some(e.kind()),
            },
        ),
        code == 0 <==> *result is Ok,
        code <= 3,
{
    match result {
        Ok(_) => 0,
        Err(e) => match e.kind() {
            ErrorKind::Parameter => 1,
            ErrorKind::CryptoOperation => 2,
            ErrorKind::Io => 3,
        },
    }
}

} // verus!
