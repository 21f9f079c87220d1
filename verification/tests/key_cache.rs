use std::collections::HashMap;
use std::collections::HashSet;

use torus::zq::cache::CacheAction;
use torus::zq::cache::CacheEvent;
use torus::zq::cache::CacheSession;
use torus::zq::error::Error;
use torus::zq::error::IoError;
use torus::zq::key_generator::KeyGenerator;
use torus::zq::key_generator::LWEParams;
use torus::zq::key_generator::PublicKey;
use torus::zq::key_generator::RLWEParams;
use torus::zq::key_generator::SecretKey;

const RLWE80_256_1: RLWEParams =
    RLWEParams { dimension: 1, polynomial_size: 256, log2_std_dev: -9 };
const LWE80_256: LWEParams = LWEParams { dimension: 256, log2_std_dev: -9 };
const LWE128_256: LWEParams = LWEParams { dimension: 256, log2_std_dev: -5 };
const RLWE128_1024_1: RLWEParams =
    RLWEParams { dimension: 1, polynomial_size: 1024, log2_std_dev: -25 };
const LWE128_1024: LWEParams = LWEParams { dimension: 1024, log2_std_dev: -25 };

/// The requests that a driver can be told to fail.
#[derive(Clone, Copy, PartialEq, Eq, Debug)]
enum Step {
    Probe,
    Load,
    Generate,
    CreateDir,
    SaveSecretKey,
    SaveBootstrappingKey,
}

/// The directories above `path`: what stands before each `/` of it.
fn ancestors(path: &str) -> Vec<String> {
    path.char_indices()
        .filter(|(at, c)| *c == '/' && *at > 0)
        .map(|(at, _)| path[..at].to_string())
        .collect()
}

/// A cache kept in memory, with keys that are plain numbers. Creating a
/// directory creates the missing ones above it; a file is written only where
/// the directories above it exist.
struct MemoryCache {
    dirs: HashSet<String>,
    secret_keys: HashMap<String, u64>,
    bootstrapping_keys: HashMap<String, u64>,
    generations: usize,
    requests: Vec<Step>,
    failing: Option<Step>,
}

impl MemoryCache {
    fn new() -> MemoryCache {
        MemoryCache {
            dirs: HashSet::new(),
            secret_keys: HashMap::new(),
            bootstrapping_keys: HashMap::new(),
            generations: 0,
            requests: Vec::new(),
            failing: None,
        }
    }

    fn can_hold(&self, path: &str) -> bool {
        ancestors(path).iter().all(|dir| self.dirs.contains(dir))
    }

    fn answer(&mut self, action: CacheAction<'_, u64, u64>) -> CacheEvent<u64, u64> {
        let step = match &action {
            CacheAction::Probe { .. } => Step::Probe,
            CacheAction::Load { .. } => Step::Load,
            CacheAction::Generate { .. } => Step::Generate,
            CacheAction::CreateDir { .. } => Step::CreateDir,
            CacheAction::SaveSecretKey { .. } => Step::SaveSecretKey,
            CacheAction::SaveBootstrappingKey { .. } => Step::SaveBootstrappingKey,
            CacheAction::Finish => unreachable!(),
        };
        self.requests.push(step);
        if self.failing == Some(step) {
            return CacheEvent::Failed;
        }
        match action {
            CacheAction::Probe { secret_key_path, bootstrapping_key_path } => CacheEvent::Probed {
                secret_key_found: self.secret_keys.contains_key(secret_key_path),
                bootstrapping_key_found: self
                    .bootstrapping_keys
                    .contains_key(bootstrapping_key_path),
            },
            CacheAction::Load { secret_key_path, bootstrapping_key_path } => CacheEvent::Keys(
                SecretKey { lwe_key: self.secret_keys[secret_key_path] },
                PublicKey { bootstrapping_key: self.bootstrapping_keys[bootstrapping_key_path] },
            ),
            CacheAction::Generate { sampling } => {
                self.generations += 1;
                let seed = 1000 * self.generations as u64 + sampling.bs_level as u64;
                CacheEvent::Keys(
                    SecretKey { lwe_key: seed },
                    PublicKey { bootstrapping_key: seed + 500 },
                )
            }
            CacheAction::CreateDir { dir } => {
                self.dirs.extend(ancestors(dir));
                self.dirs.insert(dir.to_string());
                CacheEvent::Completed
            }
            CacheAction::SaveSecretKey { path, secret_key } => {
                if !self.can_hold(path) {
                    return CacheEvent::Failed;
                }
                self.secret_keys.insert(path.to_string(), secret_key.lwe_key);
                CacheEvent::Completed
            }
            CacheAction::SaveBootstrappingKey { path, bootstrapping_key } => {
                if !self.can_hold(path) {
                    return CacheEvent::Failed;
                }
                self.bootstrapping_keys
                    .insert(path.to_string(), bootstrapping_key.bootstrapping_key);
                CacheEvent::Completed
            }
            CacheAction::Finish => unreachable!(),
        }
    }

    /// Runs the session to its end; the keys come back as their numbers.
    fn drive(&mut self, mut session: CacheSession<u64, u64>) -> Result<(u64, u64), Error> {
        self.requests.clear();
        loop {
            if let CacheAction::Finish = session.action() {
                return numbers(session.finish());
            }
            let event = self.answer(session.action());
            session = session.step(event);
            assert!(self.requests.len() <= 5);
        }
    }
}

fn numbers(outcome: Result<(SecretKey<u64>, PublicKey<u64>), Error>) -> Result<(u64, u64), Error> {
    outcome.map(|(sk, pk)| (sk.lwe_key, pk.bootstrapping_key))
}

#[test]
fn test_generate() {
    // a first call generates the keys
    let dir = "/tmp/key-cache";
    let mut cache = MemoryCache::new();
    let kg = KeyGenerator::new(RLWE80_256_1, LWE80_256, 5, 3);
    let first = cache.drive(kg.generate_with_cache(dir)).unwrap();
    assert_eq!(cache.generations, 1);
    // both files are there
    assert!(cache.secret_keys.contains_key(&format!("{}/{}", dir, "rlwe_256_1_bs_5_3/secret_key")));
    assert!(cache
        .bootstrapping_keys
        .contains_key(&format!("{}/{}", dir, "rlwe_256_1_bs_5_3/bootstrapping_key")));
    assert!(cache.dirs.contains(&format!("{}/{}", dir, "rlwe_256_1_bs_5_3")));

    // a second call loads them from the cache
    let kg2 = KeyGenerator::new(RLWE80_256_1, LWE128_256, 5, 3);
    let second = cache.drive(kg2.generate_with_cache(dir)).unwrap();
    assert_eq!(cache.generations, 1, "the second call must not generate");
    assert_eq!(cache.requests, vec![Step::Probe, Step::Load]);
    assert_eq!(second, first);
}

#[test]
fn a_miss_generates_then_stores_in_order() {
    let mut cache = MemoryCache::new();
    let kg = KeyGenerator::new(RLWE128_1024_1, LWE128_1024, 7, 3);
    let (sk, pk) = cache.drive(kg.generate_with_cache("./cache")).unwrap();
    assert_eq!(
        cache.requests,
        vec![
            Step::Probe,
            Step::Generate,
            Step::CreateDir,
            Step::SaveSecretKey,
            Step::SaveBootstrappingKey
        ]
    );
    assert_eq!((sk, pk), (1003, 1503));
    assert_eq!(cache.secret_keys["./cache/rlwe_1024_1_bs_7_3/secret_key"], 1003);
    assert_eq!(cache.bootstrapping_keys["./cache/rlwe_1024_1_bs_7_3/bootstrapping_key"], 1503);
}

#[test]
fn an_empty_cache_path_generates_and_stores_nothing() {
    let mut cache = MemoryCache::new();
    let kg = KeyGenerator::new(RLWE80_256_1, LWE80_256, 5, 3);
    let with_cache = cache.drive(kg.generate_with_cache("")).unwrap();
    assert_eq!(cache.requests, vec![Step::Generate]);
    assert_eq!(with_cache, (1003, 1503));
    let plain = cache.drive(kg.generate()).unwrap();
    assert_eq!(cache.requests, vec![Step::Generate]);
    assert_eq!(plain, (2003, 2503));
    assert_eq!(cache.generations, 2);
    assert!(cache.dirs.is_empty());
    assert!(cache.secret_keys.is_empty());
    assert!(cache.bootstrapping_keys.is_empty());
}

#[test]
fn an_entry_with_one_file_is_generated_anew() {
    let mut cache = MemoryCache::new();
    cache.secret_keys.insert("root/rlwe_256_1_bs_5_3/secret_key".to_string(), 77);
    let kg = KeyGenerator::new(RLWE80_256_1, LWE80_256, 5, 3);
    let keys = cache.drive(kg.generate_with_cache("root")).unwrap();
    assert_eq!(cache.generations, 1);
    assert_eq!(keys, (1003, 1503));
    assert_eq!(cache.secret_keys["root/rlwe_256_1_bs_5_3/secret_key"], 1003);
    assert_eq!(cache.bootstrapping_keys["root/rlwe_256_1_bs_5_3/bootstrapping_key"], 1503);
}

#[test]
fn other_bootstrap_parameters_use_another_entry() {
    let mut cache = MemoryCache::new();
    let a = KeyGenerator::new(RLWE80_256_1, LWE80_256, 5, 3);
    let b = KeyGenerator::new(RLWE80_256_1, LWE80_256, 5, 4);
    let c = KeyGenerator::new(RLWE80_256_1, LWE80_256, 53, 0);
    cache.drive(a.generate_with_cache("r")).unwrap();
    cache.drive(b.generate_with_cache("r")).unwrap();
    cache.drive(c.generate_with_cache("r")).unwrap();
    assert_eq!(cache.generations, 3);
    assert_eq!(cache.secret_keys.len(), 3);
    assert!(cache.dirs.contains("r/rlwe_256_1_bs_5_3"));
    assert!(cache.dirs.contains("r/rlwe_256_1_bs_5_4"));
    assert!(cache.dirs.contains("r/rlwe_256_1_bs_53_0"));
}

#[test]
fn fingerprint_and_paths_are_spelled_out() {
    let kg = KeyGenerator::new(RLWE128_1024_1, LWE128_1024, 5, 3);
    assert_eq!(kg.fingerprint_name(), "rlwe_1024_1_bs_5_3");
    assert_eq!(kg.cache_dir("./cache"), "./cache/rlwe_1024_1_bs_5_3");
    let paths = kg.cache_paths("/var/keys");
    assert_eq!(paths.dir, "/var/keys/rlwe_1024_1_bs_5_3");
    assert_eq!(paths.secret_key, "/var/keys/rlwe_1024_1_bs_5_3/secret_key");
    assert_eq!(paths.bootstrapping_key, "/var/keys/rlwe_1024_1_bs_5_3/bootstrapping_key");
    let zero = KeyGenerator::new(
        RLWEParams { polynomial_size: 0, dimension: 0, log2_std_dev: 0 },
        LWEParams { dimension: 0, log2_std_dev: 0 },
        0,
        0,
    );
    assert_eq!(zero.fingerprint_name(), "rlwe_0_0_bs_0_0");
}

fn outcome_when_failing(step: Step, stored: bool) -> (Result<(u64, u64), Error>, Vec<Step>) {
    let mut cache = MemoryCache::new();
    let kg = KeyGenerator::new(RLWE80_256_1, LWE80_256, 5, 3);
    if stored {
        cache.drive(kg.generate_with_cache("r")).unwrap();
    }
    cache.failing = Some(step);
    let result = cache.drive(kg.generate_with_cache("r"));
    (result, cache.requests.clone())
}

#[test]
fn each_failed_request_ends_the_session_with_its_error() {
    let (r, requests) = outcome_when_failing(Step::Probe, false);
    assert_eq!(r, Err(Error::Io(IoError::Probe)));
    assert_eq!(requests, vec![Step::Probe]);

    let (r, requests) = outcome_when_failing(Step::Load, true);
    assert_eq!(r, Err(Error::Io(IoError::Load)));
    assert_eq!(requests, vec![Step::Probe, Step::Load]);

    let (r, requests) = outcome_when_failing(Step::Generate, false);
    assert_eq!(r, Err(Error::CryptoOperation));
    assert_eq!(requests, vec![Step::Probe, Step::Generate]);

    let (r, requests) = outcome_when_failing(Step::CreateDir, false);
    assert_eq!(r, Err(Error::Io(IoError::CreateDir)));
    assert_eq!(requests, vec![Step::Probe, Step::Generate, Step::CreateDir]);

    let (r, _) = outcome_when_failing(Step::SaveSecretKey, false);
    assert_eq!(r, Err(Error::Io(IoError::SaveSecretKey)));

    let (r, requests) = outcome_when_failing(Step::SaveBootstrappingKey, false);
    assert_eq!(r, Err(Error::Io(IoError::SaveBootstrappingKey)));
    assert_eq!(requests.len(), 5);
}

#[test]
fn an_answer_out_of_turn_counts_as_a_failure() {
    let kg = KeyGenerator::new(RLWE80_256_1, LWE80_256, 5, 3);
    let session: CacheSession<u64, u64> = kg.generate_with_cache("r");
    let session = session.step(CacheEvent::Completed);
    assert!(matches!(session.action(), CacheAction::Finish));
    assert_eq!(numbers(session.finish()), Err(Error::Io(IoError::Probe)));

    let session: CacheSession<u64, u64> = kg.generate();
    let session = session.step(CacheEvent::Probed {
        secret_key_found: true,
        bootstrapping_key_found: true,
    });
    assert_eq!(numbers(session.finish()), Err(Error::CryptoOperation));
}

#[test]
fn a_session_that_has_ended_stays_as_it_is() {
    let kg = KeyGenerator::new(RLWE80_256_1, LWE80_256, 5, 3);
    let session: CacheSession<u64, u64> = kg.generate();
    let first = CacheEvent::Keys(SecretKey { lwe_key: 1 }, PublicKey { bootstrapping_key: 2 });
    let session = session.step(first);
    let session = session.step(CacheEvent::Failed);
    let late = CacheEvent::Keys(SecretKey { lwe_key: 8 }, PublicKey { bootstrapping_key: 9 });
    let session = session.step(late);
    assert_eq!(numbers(session.finish()), Ok((1, 2)));

    let failed: CacheSession<u64, u64> = kg.generate_with_cache("r").step(CacheEvent::Failed);
    let late = CacheEvent::Keys(SecretKey { lwe_key: 8 }, PublicKey { bootstrapping_key: 9 });
    let failed = failed.step(late);
    assert_eq!(numbers(failed.finish()), Err(Error::Io(IoError::Probe)));
}

#[test]
fn a_session_stopped_midway_gives_the_pending_error() {
    let kg = KeyGenerator::new(RLWE80_256_1, LWE80_256, 5, 3);
    let waiting: CacheSession<u64, u64> = kg.generate_with_cache("r");
    assert_eq!(numbers(waiting.finish()), Err(Error::Io(IoError::Probe)));
    let loading: CacheSession<u64, u64> = kg.generate_with_cache("r").step(CacheEvent::Probed {
        secret_key_found: true,
        bootstrapping_key_found: true,
    });
    assert!(matches!(loading.action(), CacheAction::Load { .. }));
    assert_eq!(numbers(loading.finish()), Err(Error::Io(IoError::Load)));
}

#[test]
fn generate_names_the_settings_to_generate_for() {
    let kg = KeyGenerator::new(RLWE128_1024_1, LWE128_1024, 7, 3);
    let session: CacheSession<u64, u64> = kg.generate();
    match session.action() {
        CacheAction::Generate { sampling } => {
            assert_eq!(sampling, kg.key_pair_sampling());
            assert_eq!(sampling.rlwe_setting, RLWE128_1024_1);
            assert_eq!((sampling.bs_base_log, sampling.bs_level), (7, 3));
        }
        _ => panic!("a plain generation starts by generating"),
    };
}

#[test]
fn a_generation_reads_the_ring_settings_and_not_the_plain_ones() {
    let a = KeyGenerator::new(RLWE80_256_1, LWE80_256, 5, 3);
    let b = KeyGenerator::new(RLWE80_256_1, LWE128_1024, 5, 3);
    assert_eq!(a.key_pair_sampling(), b.key_pair_sampling());
    assert_eq!(a.key_pair_sampling().rlwe_setting, RLWE80_256_1);
    let miss: CacheSession<u64, u64> =
        b.generate_with_cache("r").step(CacheEvent::Probed {
            secret_key_found: false,
            bootstrapping_key_found: true,
        });
    match miss.action() {
        CacheAction::Generate { sampling } => assert_eq!(sampling, a.key_pair_sampling()),
        _ => panic!("a miss generates"),
    };
}

#[test]
fn a_miss_under_a_nested_root_creates_every_missing_directory() {
    let mut cache = MemoryCache::new();
    cache.dirs.insert("R".to_string());
    let kg = KeyGenerator::new(RLWE80_256_1, LWE80_256, 5, 3);
    let keys = cache.drive(kg.generate_with_cache("R/x/y")).unwrap();
    assert_eq!(keys, (1003, 1503));
    assert_eq!(
        cache.requests,
        vec![
            Step::Probe,
            Step::Generate,
            Step::CreateDir,
            Step::SaveSecretKey,
            Step::SaveBootstrappingKey
        ]
    );
    for dir in ["R", "R/x", "R/x/y", "R/x/y/rlwe_256_1_bs_5_3"] {
        assert!(cache.dirs.contains(dir), "{} is no directory", dir);
    }
    assert_eq!(cache.dirs.len(), 4);
    assert_eq!(cache.secret_keys["R/x/y/rlwe_256_1_bs_5_3/secret_key"], 1003);
    assert_eq!(cache.bootstrapping_keys["R/x/y/rlwe_256_1_bs_5_3/bootstrapping_key"], 1503);

    // the second call finds the entry and creates nothing
    let again = cache.drive(kg.generate_with_cache("R/x/y")).unwrap();
    assert_eq!(again, keys);
    assert_eq!(cache.requests, vec![Step::Probe, Step::Load]);
    assert_eq!(cache.dirs.len(), 4);
}

#[test]
fn the_directory_is_asked_for_before_the_files() {
    let kg = KeyGenerator::new(RLWE80_256_1, LWE80_256, 5, 3);
    let session: CacheSession<u64, u64> = kg.generate_with_cache("/var/keys/a");
    let session = session.step(CacheEvent::Probed {
        secret_key_found: false,
        bootstrapping_key_found: false,
    });
    let keys = CacheEvent::Keys(SecretKey { lwe_key: 1 }, PublicKey { bootstrapping_key: 2 });
    let session = session.step(keys);
    match session.action() {
        CacheAction::CreateDir { dir } => {
            assert_eq!(dir, "/var/keys/a/rlwe_256_1_bs_5_3");
            assert_eq!(
                ancestors(&kg.cache_paths("/var/keys/a").secret_key),
                vec!["/var", "/var/keys", "/var/keys/a", "/var/keys/a/rlwe_256_1_bs_5_3"]
            );
        }
        _ => panic!("fresh keys are stored in a directory that exists"),
    };
}
