use torus::zq::error::Error;
use torus::zq::error::IoError;
use torus::zq::error::ParameterError;
use torus::zq::ffi::new_cxx_key_generator;
use torus::zq::ffi::status;
use torus::zq::ffi::SecurityParams;
use torus::zq::key_generator::KeyGenerator;
use torus::zq::key_generator::LWEParams;
use torus::zq::key_generator::RLWEParams;

#[test]
fn foreign_parameters_become_settings_of_ring_dimension_one() {
    let kg = new_cxx_key_generator(SecurityParams { dimension: 1024, log2_std_dev: -25 }, 7, 3);
    assert_eq!(
        kg,
        KeyGenerator::new(
            RLWEParams { dimension: 1, polynomial_size: 1024, log2_std_dev: -25 },
            LWEParams { dimension: 1024, log2_std_dev: -25 },
            7,
            3,
        )
    );
    assert_eq!(kg.fingerprint_name(), "rlwe_1024_1_bs_7_3");
}

#[test]
fn the_status_is_zero_for_success_and_the_kind_for_failure() {
    assert_eq!(status(&Ok::<u32, Error>(5)), 0);
    assert_eq!(status(&Ok::<(), Error>(())), 0);
    let out_of_range = Error::Parameter(ParameterError::CleartextOutOfRange);
    let no_key = Error::Parameter(ParameterError::MissingPublicKey);
    assert_eq!(status(&Err::<u32, Error>(out_of_range)), 1);
    assert_eq!(status(&Err::<u32, Error>(no_key)), 1);
    assert_eq!(status(&Err::<u32, Error>(Error::CryptoOperation)), 2);
    assert_eq!(status(&Err::<u32, Error>(Error::Io(IoError::Load))), 3);
    assert_eq!(status(&Err::<u32, Error>(Error::Io(IoError::CreateDir))), 3);
}
