use torus::zq::decryptor::Decryption;
use torus::zq::decryptor::Decryptor;
use torus::zq::encryptor::Encryption;
use torus::zq::encryptor::Encryptor;
use torus::zq::error::Error;
use torus::zq::error::ParameterError;
use torus::zq::evaluator::Evaluator;
use torus::zq::evaluator::Lookup;
use torus::zq::evaluator::Request;
use torus::zq::key_generator::PublicKey;
use torus::zq::key_generator::SecretKey;
use torus::zq::Ciphertext;

/// A stand-in for the primitive library: a sample is the cleartext plus the
/// key, modulo two to the width of the encoding; the bootstrapping key is
/// the secret key again.
#[derive(Clone, Copy, Debug, PartialEq)]
struct Sample {
    body: u64,
    modulus: u64,
}

fn seal(request: Encryption<'_, u64>) -> Ciphertext<Sample> {
    let modulus = request.encoder.max() + 1;
    Ciphertext { lwe: Sample { body: (request.message as u64 + *request.key) % modulus, modulus } }
}

fn clear(sample: &Sample, key: u64) -> u64 {
    (sample.body + sample.modulus - key % sample.modulus) % sample.modulus
}

fn open(request: Decryption<'_, '_, u64, Sample>) -> u32 {
    clear(request.ciphertext, *request.key) as u32
}

fn perform(request: Request<'_, '_, Sample, u64>, f: fn(f64) -> f64) -> Ciphertext<Sample> {
    let lwe = match request {
        Request::Bootstrap { a, key, lookup, encoder } => {
            let x = clear(a, *key) as f64;
            let y = match lookup {
                Lookup::Caller => f(x),
                Lookup::Relu => f64::max(x, 0.),
            };
            let modulus = encoder.max() + 1;
            Sample { body: (y.round() as u64 + *key) % modulus, modulus }
        }
        Request::MulFromBootstrap { a, b, key } => {
            let product = clear(a, *key) * clear(b, *key);
            Sample { body: (product + *key) % a.modulus, modulus: a.modulus }
        }
        _ => panic!("the linear operations are tried elsewhere"),
    };
    Ciphertext { lwe }
}

fn keys() -> (SecretKey<u64>, PublicKey<u64>) {
    (SecretKey { lwe_key: 0xfeed_beef }, PublicKey { bootstrapping_key: 0xfeed_beef })
}

#[test]
fn test_bootstrap() {
    let (sk, pk) = keys();
    let encryptor = Encryptor::new(&sk).unwrap();
    let decryptor = Decryptor::new(&sk);
    let evaluator = Evaluator::new_fully_evaluator(&pk).unwrap();

    let ct1 = seal(encryptor.encrypt(10).unwrap());
    let ct2 = seal(encryptor.encrypt(5).unwrap());
    let ct3 = perform(evaluator.mul_and_bootstrap(&ct1, &ct2).unwrap(), |x| x);
    assert_eq!(open(decryptor.decrypt(&ct3)), 50);
}

#[test]
fn a_bootstrap_applies_the_callers_function() {
    let (sk, pk) = keys();
    let encryptor = Encryptor::new(&sk).unwrap();
    let decryptor = Decryptor::new(&sk);
    let evaluator = Evaluator::new_fully_evaluator(&pk).unwrap();

    // encode and encrypt
    let c1 = seal(encryptor.encrypt(11).unwrap());

    // bootstrap
    let c2 = perform(evaluator.bootstrap_with_function(&c1).unwrap(), |x| x * x);

    // decrypt
    assert_eq!(open(decryptor.decrypt(&c2)), 121);
}

#[test]
fn relu_changes_no_cleartext() {
    let (sk, pk) = keys();
    let encryptor = Encryptor::new(&sk).unwrap();
    let decryptor = Decryptor::new(&sk);
    let evaluator = Evaluator::new_fully_evaluator(&pk).unwrap();
    for m in [0u32, 1, 77, 49_995_000, u32::MAX] {
        let ct = seal(encryptor.encrypt(m).unwrap());
        let out = perform(evaluator.relu(&ct).unwrap(), |x| x);
        assert_eq!(open(decryptor.decrypt(&out)), m);
    }
}

#[test]
fn what_is_encrypted_is_decrypted() {
    let (sk, _) = keys();
    let encryptor = Encryptor::new(&sk).unwrap();
    let decryptor = Decryptor::new(&sk);
    for m in [0u32, 1, 2, 9_999, 0x7fff_ffff, 0x8000_0000, u32::MAX] {
        assert_eq!(open(decryptor.decrypt(&seal(encryptor.encrypt(m).unwrap()))), m);
    }
}

#[test]
fn without_a_public_key_no_bootstrap_is_asked_for() {
    let missing = Error::Parameter(ParameterError::MissingPublicKey);
    let ct = Ciphertext { lwe: Sample { body: 0, modulus: 2 } };
    let evaluator: Evaluator<'_, u64> = Evaluator::new_levelled_evaluator().unwrap();
    assert_eq!(evaluator.bootstrap_with_function(&ct).err(), Some(missing));
    assert_eq!(evaluator.mul_and_bootstrap(&ct, &ct).err(), Some(missing));
    assert_eq!(evaluator.relu(&ct).err(), Some(missing));
}
