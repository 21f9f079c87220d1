//! The key cache as a state machine. The session decides what is to be done
//! next (look for the files, load them, generate, create the directory, save);
//! its driver does it and reports how it went.
use vstd::prelude::*;
use crate::zq::error::Error;
use crate::zq::error::IoError;
use crate::zq::key_generator::CachePaths;
use crate::zq::key_generator::CachePathsSpec;
use crate::zq::key_generator::is_ancestor;
use crate::zq::key_generator::KeyGenerator;
use crate::zq::key_generator::KeyPairSampling;
use crate::zq::key_generator::lemma_key_files_lie_in_dir;
use crate::zq::key_generator::with_ancestors;
use crate::zq::key_generator::lemma_cache_entry_shared;
use crate::zq::key_generator::PublicKey;
use crate::zq::key_generator::SecretKey;

verus! {

/// Where a session stands: the request that is still unanswered, or how the
/// session ended.
pub enum CacheStage<K, B> {
    /// Asked whether both key files exist.
    Probing,
    /// Asked for the stored keys.
    Loading,
    /// Asked for fresh keys; `persist` says whether they are to be stored.
    Generating { persist: bool },
    /// Holds fresh keys and asked for the fingerprint directory.
    CreatingDir(SecretKey<K>, PublicKey<B>),
    /// Asked to write the secret key.
    SavingSecretKey(SecretKey<K>, PublicKey<B>),
    /// Asked to write the bootstrapping key.
    SavingBootstrappingKey(SecretKey<K>, PublicKey<B>),
    /// Ended with this key pair.
    Ready(SecretKey<K>, PublicKey<B>),
    /// Ended without keys.
    Failed(Error),
}

/// What the driver reports back after carrying out a request.
pub enum CacheEvent<K, B> {
    /// Answer to a probe: which of the two files exist.
    Probed { secret_key_found: bool, bootstrapping_key_found: bool },
    /// Answer to a load or to a generation: the key pair.
    Keys(SecretKey<K>, PublicKey<B>),
    /// The directory was created, or the file was written.
    Completed,
    /// The request could not be carried out.
    Failed,
}

/// What a session asks of its driver, over texts and values.
pub enum CacheActionSpec<K, B> {
    Probe { secret_key_path: Seq<char>, bootstrapping_key_path: Seq<char> },
    Load { secret_key_path: Seq<char>, bootstrapping_key_path: Seq<char> },
    Generate { sampling: KeyPairSampling },
    CreateDir { dir: Seq<char> },
    SaveSecretKey { path: Seq<char>, secret_key: SecretKey<K> },
    SaveBootstrappingKey { path: Seq<char>, bootstrapping_key: PublicKey<B> },
    Finish,
}

/// What a session asks of its driver.
pub enum CacheAction<'s, K, B> {
    /// Report whether the two files exist.
    Probe { secret_key_path: &'s str, bootstrapping_key_path: &'s str },
    /// Read the key pair from the two files.
    Load { secret_key_path: &'s str, bootstrapping_key_path: &'s str },
    /// Sample a secret key and derive its bootstrapping key, as `sampling`
    /// says.
    Generate { sampling: KeyPairSampling },
    /// Create the directory and any missing parent.
    CreateDir { dir: &'s str },
    /// Write the secret key to the file.
    SaveSecretKey { path: &'s str, secret_key: &'s SecretKey<K> },
    /// Write the bootstrapping key to the file.
    SaveBootstrappingKey { path: &'s str, bootstrapping_key: &'s PublicKey<B> },
    /// Nothing is left to do: take the result with `finish`.
    Finish,
}

impl<'s, K, B> View for CacheAction<'s, K, B> {
    type V = CacheActionSpec<K, B>;

    open spec fn view(&self) -> CacheActionSpec<K, B> {
        match *self {
            CacheAction::Probe {
                secret_key_path,
                bootstrapping_key_path,
            } => CacheActionSpec::Probe {
                secret_key_path: secret_key_path@,
                bootstrapping_key_path: bootstrapping_key_path@,
            },
            CacheAction::Load {
                secret_key_path,
                bootstrapping_key_path,
            } => CacheActionSpec::Load {
                secret_key_path: secret_key_path@,
                bootstrapping_key_path: bootstrapping_key_path@,
            },
            CacheAction::Generate { sampling } => CacheActionSpec::Generate { sampling },
            CacheAction::CreateDir { dir } => CacheActionSpec::CreateDir { dir: dir@ },
            CacheAction::SaveSecretKey { path, secret_key } => CacheActionSpec::SaveSecretKey {
                path: path@,
                secret_key: *secret_key,
            },
            CacheAction::SaveBootstrappingKey {
                path,
                bootstrapping_key,
            } => CacheActionSpec::SaveBootstrappingKey {
                path: path@,
                bootstrapping_key: *bootstrapping_key,
            },
            CacheAction::Finish => CacheActionSpec::Finish,
        }
    }
}

impl<K, B> CacheStage<K, B> {
    /// Whether the session has ended.
    pub open spec fn is_terminal(self) -> bool {
        self is Ready || self is Failed
    }

    /// The error of a session that ends in this stage without a key pair:
    /// the one it failed with, else the failure of the request it waits on.
    pub open spec fn pending_error(self) -> Error
        recommends
            !(self is Ready),
    {
        match self {
            CacheStage::Probing => Error::Io(IoError::Probe),
            CacheStage::Loading => Error::Io(IoError::Load),
            CacheStage::Generating { .. } => Error::CryptoOperation,
            CacheStage::CreatingDir(..) => Error::Io(IoError::CreateDir),
            CacheStage::SavingSecretKey(..) => Error::Io(IoError::SaveSecretKey),
            CacheStage::SavingBootstrappingKey(..) => Error::Io(IoError::SaveBootstrappingKey),
            CacheStage::Ready(..) => arbitrary(),
            CacheStage::Failed(e) => e,
        }
    }

    /// The stage after `event`. The expected answer moves the session on; any
    /// other answer counts as the pending request having failed; a session
    /// that has ended stays as it is.
    pub open spec fn next(self, event: CacheEvent<K, B>) -> CacheStage<K, B> {
        match self {
            CacheStage::Probing => match event {
                CacheEvent::Probed { secret_key_found, bootstrapping_key_found } => {
                    if secret_key_found && bootstrapping_key_found {
                        CacheStage::Loading
                    } else {
                        CacheStage::Generating { persist: true }
                    }
                },
                _ => CacheStage::Failed(self.pending_error()),
            },
            CacheStage::Loading => match event {
                CacheEvent::Keys(sk, pk) => CacheStage::Ready(sk, pk),
                _ => CacheStage::Failed(self.pending_error()),
            },
            CacheStage::Generating { persist } => match event {
                CacheEvent::Keys(sk, pk) => if persist {
                    CacheStage::CreatingDir(sk, pk)
                } else {
                    CacheStage::Ready(sk, pk)
                },
                _ => CacheStage::Failed(self.pending_error()),
            },
            CacheStage::CreatingDir(sk, pk) => match event {
                CacheEvent::Completed => CacheStage::SavingSecretKey(sk, pk),
                _ => CacheStage::Failed(self.pending_error()),
            },
            CacheStage::SavingSecretKey(sk, pk) => match event {
                CacheEvent::Completed => CacheStage::SavingBootstrappingKey(sk, pk),
                _ => CacheStage::Failed(self.pending_error()),
            },
            CacheStage::SavingBootstrappingKey(sk, pk) => match event {
                CacheEvent::Completed => CacheStage::Ready(sk, pk),
                _ => CacheStage::Failed(self.pending_error()),
            },
            CacheStage::Ready(..) => self,
            CacheStage::Failed(_) => self,
        }
    }

    /// An upper bound on the number of requests still to come.
    pub open spec fn remaining(self) -> nat {
        match self {
            CacheStage::Probing => 5,
            CacheStage::Loading => 1,
            CacheStage::Generating { .. } => 4,
            CacheStage::CreatingDir(..) => 3,
            CacheStage::SavingSecretKey(..) => 2,
            CacheStage::SavingBootstrappingKey(..) => 1,
            CacheStage::Ready(..) => 0,
            CacheStage::Failed(_) => 0,
        }
    }
}

/// What a session is: the settings it generates for, the places of its cache
/// entry, and its stage.
pub struct CacheSessionSpec<K, B> {
    pub settings: KeyGenerator,
    pub paths: CachePathsSpec,
    pub stage: CacheStage<K, B>,
}

impl<K, B> CacheSessionSpec<K, B> {
    /// The request that the session makes in its stage.
    pub open spec fn action(self) -> CacheActionSpec<K, B> {
        match self.stage {
            CacheStage::Probing => CacheActionSpec::Probe {
                secret_key_path: self.paths.secret_key,
                bootstrapping_key_path: self.paths.bootstrapping_key,
            },
            CacheStage::Loading => CacheActionSpec::Load {
                secret_key_path: self.paths.secret_key,
                bootstrapping_key_path: self.paths.bootstrapping_key,
            },
            CacheStage::Generating { .. } => CacheActionSpec::Generate {
                sampling: self.settings.spec_key_pair_sampling(),
            },
            CacheStage::CreatingDir(..) => CacheActionSpec::CreateDir { dir: self.paths.dir },
            CacheStage::SavingSecretKey(sk, _) => CacheActionSpec::SaveSecretKey {
                path: self.paths.secret_key,
                secret_key: sk,
            },
            CacheStage::SavingBootstrappingKey(_, pk) => CacheActionSpec::SaveBootstrappingKey {
                path: self.paths.bootstrapping_key,
                bootstrapping_key: pk,
            },
            CacheStage::Ready(..) => CacheActionSpec::Finish,
            CacheStage::Failed(_) => CacheActionSpec::Finish,
        }
    }

    /// The session after `event`.
    pub open spec fn next(self, event: CacheEvent<K, B>) -> CacheSessionSpec<K, B> {
        CacheSessionSpec { stage: self.stage.next(event), ..self }
    }

    /// What the session has to give when it is stopped here: the key pair if
    /// it is ready, else the error it ended with or that of the request it
    /// was left waiting on.
    pub open spec fn outcome(self) -> Result<(SecretKey<K>, PublicKey<B>), Error> {
        match self.stage {
            CacheStage::Ready(sk, pk) => Ok((sk, pk)),
            _ => Err(self.stage.pending_error()),
        }
    }
}

/// One generation of a key pair, with or without the cache.
pub struct CacheSession<K, B> {
    settings: KeyGenerator,
    paths: CachePaths,
    stage: CacheStage<K, B>,
}

impl<K, B> View for CacheSession<K, B> {
    type V = CacheSessionSpec<K, B>;

    closed spec fn view(&self) -> CacheSessionSpec<K, B> {
        CacheSessionSpec { settings: self.settings, paths: self.paths@, stage: self.stage }
    }
}

impl<K, B> CacheSession<K, B> {
    /// A session for `settings` that starts in `stage`.
    pub(crate) fn start(settings: KeyGenerator, paths: CachePaths, stage: CacheStage<K, B>) -> (s:
        CacheSession<K, B>)
        ensures
            s@ == (CacheSessionSpec { settings, paths: paths@, stage }),
    {
        CacheSession { settings, paths, stage }
    }

    /// What the driver is to do next.
    pub fn action(&self) -> (a: CacheAction<'_, K, B>)
        ensures
            a@ == self@.action(),
    {
        match &self.stage {
            CacheStage::Probing => CacheAction::Probe {
                secret_key_path: self.paths.secret_key.as_str(),
                bootstrapping_key_path: self.paths.bootstrapping_key.as_str(),
            },
            CacheStage::Loading => CacheAction::Load {
                secret_key_path: self.paths.secret_key.as_str(),
                bootstrapping_key_path: self.paths.bootstrapping_key.as_str(),
            },
            CacheStage::Generating { .. } => CacheAction::Generate {
                sampling: self.settings.key_pair_sampling(),
            },
            CacheStage::CreatingDir(..) => CacheAction::CreateDir { dir: self.paths.dir.as_str() },
            CacheStage::SavingSecretKey(sk, _) => CacheAction::SaveSecretKey {
                path: self.paths.secret_key.as_str(),
                secret_key: sk,
            },
            CacheStage::SavingBootstrappingKey(_, pk) => CacheAction::SaveBootstrappingKey {
                path: self.paths.bootstrapping_key.as_str(),
                bootstrapping_key: pk,
            },
            CacheStage::Ready(..) => CacheAction::Finish,
            CacheStage::Failed(_) => CacheAction::Finish,
        }
    }

    /// Takes the driver's report on the last request and moves on. Each
    /// report brings the end nearer, so a driver that answers every request
    /// is done after at most five of them.
    pub fn step(self, event: CacheEvent<K, B>) -> (next: CacheSession<K, B>)
        ensures
            next@ == self@.next(event),
            self@.stage.is_terminal() ==> next@ == self@,
            !self@.stage.is_terminal() ==> next@.stage.remaining() < self@.stage.remaining(),
    {
        let CacheSession { settings, paths, stage } = self;
        let stage = match stage {
            CacheStage::Probing => match event {
                CacheEvent::Probed { secret_key_found, bootstrapping_key_found } => {
                    if secret_key_found && bootstrapping_key_found {
                        CacheStage::Loading
                    } else {
                        CacheStage::Generating { persist: true }
                    }
                },
                _ => CacheStage::Failed(Error::Io(IoError::Probe)),
            },
            CacheStage::Loading => match event {
                CacheEvent::Keys(sk, pk) => CacheStage::Ready(sk, pk),
                _ => CacheStage::Failed(Error::Io(IoError::Load)),
            },
            CacheStage::Generating { persist } => match event {
                CacheEvent::Keys(sk, pk) => if persist {
                    CacheStage::CreatingDir(sk, pk)
                } else {
                    CacheStage::Ready(sk, pk)
                },
                _ => CacheStage::Failed(Error::CryptoOperation),
            },
            CacheStage::CreatingDir(sk, pk) => match event {
                CacheEvent::Completed => CacheStage::SavingSecretKey(sk, pk),
                _ => CacheStage::Failed(Error::Io(IoError::CreateDir)),
            },
            CacheStage::SavingSecretKey(sk, pk) => match event {
                CacheEvent::Completed => CacheStage::SavingBootstrappingKey(sk, pk),
                _ => CacheStage::Failed(Error::Io(IoError::SaveSecretKey)),
            },
            CacheStage::SavingBootstrappingKey(sk, pk) => match event {
                CacheEvent::Completed => CacheStage::Ready(sk, pk),
                _ => CacheStage::Failed(Error::Io(IoError::SaveBootstrappingKey)),
            },
            CacheStage::Ready(sk, pk) => CacheStage::Ready(sk, pk),
            CacheStage::Failed(e) => CacheStage::Failed(e),
        };
        CacheSession { settings, paths, stage }
    }

    /// Ends the session and hands out its result.
    pub fn finish(self) -> (r: Result<(SecretKey<K>, PublicKey<B>), Error>)
        ensures
            r == self@.outcome(),
    {
        match self.stage {
            CacheStage::Ready(sk, pk) => Ok((sk, pk)),
            CacheStage::Failed(e) => Err(e),
            CacheStage::Probing => Err(Error::Io(IoError::Probe)),
            CacheStage::Loading => Err(Error::Io(IoError::Load)),
            CacheStage::Generating { .. } => Err(Error::CryptoOperation),
            CacheStage::CreatingDir(..) => Err(Error::Io(IoError::CreateDir)),
            CacheStage::SavingSecretKey(..) => Err(Error::Io(IoError::SaveSecretKey)),
            CacheStage::SavingBootstrappingKey(..) => Err(Error::Io(IoError::SaveBootstrappingKey)),
        }
    }
}

/// A model of the cache on disk: the directories that exist and the key that
/// each key file holds. Key files may lie where no directory is recorded:
/// they are found and read all the same.
pub struct CacheStore<K, B> {
    pub dirs: Set<Seq<char>>,
    pub secret_keys: Map<Seq<char>, SecretKey<K>>,
    pub bootstrapping_keys: Map<Seq<char>, PublicKey<B>>,
}

impl<K, B> CacheStore<K, B> {
    /// Whether both key files of the entry exist.
    pub open spec fn holds_entry(self, paths: CachePathsSpec) -> bool {
        self.secret_keys.dom().contains(paths.secret_key) && self.bootstrapping_keys.dom().contains(
            paths.bootstrapping_key,
        )
    }

    /// The key pair stored in the entry.
    pub open spec fn entry(self, paths: CachePathsSpec) -> (SecretKey<K>, PublicKey<B>)
        recommends
            self.holds_entry(paths),
    {
        (self.secret_keys[paths.secret_key], self.bootstrapping_keys[paths.bootstrapping_key])
    }

    /// Whether a file can be written at `path`: every directory above it
    /// exists.
    pub open spec fn can_hold(self, path: Seq<char>) -> bool {
        forall|p: Seq<char>| #[trigger] is_ancestor(p, path) ==> self.dirs.contains(p)
    }

    /// How a driver on this store answers `action` when nothing goes wrong,
    /// and the store it leaves; `fresh` is the pair that a generation yields.
    /// Creating a directory creates every missing directory above it too; a
    /// file is written only where the directories above it exist.
    pub open spec fn perform(
        self,
        action: CacheActionSpec<K, B>,
        fresh: (SecretKey<K>, PublicKey<B>),
    ) -> (CacheEvent<K, B>, CacheStore<K, B>) {
        match action {
            CacheActionSpec::Probe { secret_key_path, bootstrapping_key_path } => (
                CacheEvent::Probed {
                    secret_key_found: self.secret_keys.dom().contains(secret_key_path),
                    bootstrapping_key_found: self.bootstrapping_keys.dom().contains(
                        bootstrapping_key_path,
                    ),
                },
                self,
            ),
            CacheActionSpec::Load { secret_key_path, bootstrapping_key_path } => {
                if self.secret_keys.dom().contains(secret_key_path)
                    && self.bootstrapping_keys.dom().contains(bootstrapping_key_path) {
                    (
                        CacheEvent::Keys(
                            self.secret_keys[secret_key_path],
                            self.bootstrapping_keys[bootstrapping_key_path],
                        ),
                        self,
                    )
                } else {
                    (CacheEvent::Failed, self)
                }
            },
            CacheActionSpec::Generate { .. } => (CacheEvent::Keys(fresh.0, fresh.1), self),
            CacheActionSpec::CreateDir { dir } => (
                CacheEvent::Completed,
                CacheStore { dirs: self.dirs.union(with_ancestors(dir)), ..self },
            ),
            CacheActionSpec::SaveSecretKey { path, secret_key } => {
                if self.can_hold(path) {
                    (
                        CacheEvent::Completed,
                        CacheStore {
                            secret_keys: self.secret_keys.insert(path, secret_key),
                            ..self
                        },
                    )
                } else {
                    (CacheEvent::Failed, self)
                }
            },
            CacheActionSpec::SaveBootstrappingKey { path, bootstrapping_key } => {
                if self.can_hold(path) {
                    (
                        CacheEvent::Completed,
                        CacheStore {
                            bootstrapping_keys: self.bootstrapping_keys.insert(
                                path,
                                bootstrapping_key,
                            ),
                            ..self
                        },
                    )
                } else {
                    (CacheEvent::Failed, self)
                }
            },
            CacheActionSpec::Finish => (CacheEvent::Completed, self),
        }
    }
}

/// Where a driven session has got to.
pub struct CacheRun<K, B> {
    pub session: CacheSessionSpec<K, B>,
    pub store: CacheStore<K, B>,
    /// The requests that were carried out, in their order.
    pub requests: Seq<CacheActionSpec<K, B>>,
}

/// Drives `session` on `store` for at most `steps` requests, each answered as
/// `CacheStore::perform` says.
pub open spec fn run<K, B>(
    session: CacheSessionSpec<K, B>,
    store: CacheStore<K, B>,
    fresh: (SecretKey<K>, PublicKey<B>),
    steps: nat,
) -> CacheRun<K, B>
    decreases steps,
{
    if steps == 0 || session.stage.is_terminal() {
        CacheRun { session, store, requests: Seq::empty() }
    } else {
        let (event, after) = store.perform(session.action(), fresh);
        let rest = run(session.next(event), after, fresh, (steps - 1) as nat);
        CacheRun { requests: seq![session.action()] + rest.requests, ..rest }
    }
}

/// The number of requests after which every session has ended.
pub open spec fn full_run() -> nat {
    5
}

/// The session after the driver's reports `events`, taken in their order.
pub open spec fn after<K, B>(
    session: CacheSessionSpec<K, B>,
    events: Seq<CacheEvent<K, B>>,
) -> CacheSessionSpec<K, B>
    decreases events.len(),
{
    if events.len() == 0 {
        session
    } else {
        after(session.next(events.first()), events.drop_first())
    }
}

/// Whatever the driver reports, five reports end a session, and a session
/// that has ended keeps its outcome.
pub proof fn lemma_session_ends<K, B>(
    session: CacheSessionSpec<K, B>,
    events: Seq<CacheEvent<K, B>>,
)
    ensures
        after(session, events).stage.remaining() + events.len() <= session.stage.remaining()
            || after(session, events).stage.is_terminal(),
        events.len() >= full_run() ==> after(session, events).stage.is_terminal(),
        session.stage.is_terminal() ==> after(session, events) == session,
    decreases events.len(),
{
    if events.len() > 0 {
        lemma_session_ends(session.next(events.first()), events.drop_first());
    }
}

/// On a disk that does as it is asked, every session ends with a key pair:
/// whatever exists under the cache root beforehand, the files can be written
/// once the session has had the directory created.
pub proof fn lemma_run_succeeds<K, B>(
    kg: KeyGenerator,
    root: Seq<char>,
    store: CacheStore<K, B>,
    fresh: (SecretKey<K>, PublicKey<B>),
)
    ensures
        run(kg.spec_generate_with_cache(root), store, fresh, full_run()).session.stage is Ready,
{
    if root.len() == 0 {
        lemma_cache_disabled(kg, store, fresh);
    } else if store.holds_entry(kg.spec_cache_paths(root)) {
        lemma_cache_hit(kg, root, store, fresh);
    } else {
        lemma_cache_miss(kg, root, store, fresh);
    }
}

/// Without a cache root a key pair is generated and returned: that is the
/// one request, and nothing is stored.
pub proof fn lemma_cache_disabled<K, B>(
    kg: KeyGenerator,
    store: CacheStore<K, B>,
    fresh: (SecretKey<K>, PublicKey<B>),
)
    ensures
        ({
            let r = run(kg.spec_generate_with_cache(Seq::empty()), store, fresh, full_run());
            &&& r.session.outcome() == Ok::<_, Error>(fresh)
            &&& r.requests == seq![
                CacheActionSpec::<K, B>::Generate { sampling: kg.spec_key_pair_sampling() },
            ]
            &&& r.store == store
        }),
{
    reveal_with_fuel(run, 7);
    let r = run(kg.spec_generate_with_cache(Seq::empty()), store, fresh, full_run());
    assert(r.requests =~= seq![
        CacheActionSpec::<K, B>::Generate { sampling: kg.spec_key_pair_sampling() },
    ]);
}

/// Where both key files exist, the stored pair is returned: the files are
/// looked for and read, nothing is generated and nothing is written.
pub proof fn lemma_cache_hit<K, B>(
    kg: KeyGenerator,
    root: Seq<char>,
    store: CacheStore<K, B>,
    fresh: (SecretKey<K>, PublicKey<B>),
)
    requires
        root.len() > 0,
        store.holds_entry(kg.spec_cache_paths(root)),
    ensures
        ({
            let paths = kg.spec_cache_paths(root);
            let r = run(kg.spec_generate_with_cache(root), store, fresh, full_run());
            &&& r.session.outcome() == Ok::<_, Error>(store.entry(paths))
            &&& r.requests == seq![
                CacheActionSpec::<K, B>::Probe {
                    secret_key_path: paths.secret_key,
                    bootstrapping_key_path: paths.bootstrapping_key,
                },
                CacheActionSpec::<K, B>::Load {
                    secret_key_path: paths.secret_key,
                    bootstrapping_key_path: paths.bootstrapping_key,
                },
            ]
            &&& r.store == store
        }),
{
    reveal_with_fuel(run, 7);
    let paths = kg.spec_cache_paths(root);
    let r = run(kg.spec_generate_with_cache(root), store, fresh, full_run());
    assert(r.requests =~= seq![
        CacheActionSpec::<K, B>::Probe {
            secret_key_path: paths.secret_key,
            bootstrapping_key_path: paths.bootstrapping_key,
        },
        CacheActionSpec::<K, B>::Load {
            secret_key_path: paths.secret_key,
            bootstrapping_key_path: paths.bootstrapping_key,
        },
    ]);
}

/// Where a key file is missing, a pair is generated once and returned; the
/// fingerprint directory is created with every missing directory above it,
/// the cache root among them, and then the secret key and the bootstrapping
/// key are written to the entry, in that order. Afterwards every directory
/// above the two key files exists.
pub proof fn lemma_cache_miss<K, B>(
    kg: KeyGenerator,
    root: Seq<char>,
    store: CacheStore<K, B>,
    fresh: (SecretKey<K>, PublicKey<B>),
)
    requires
        root.len() > 0,
        !store.holds_entry(kg.spec_cache_paths(root)),
    ensures
        ({
            let paths = kg.spec_cache_paths(root);
            let r = run(kg.spec_generate_with_cache(root), store, fresh, full_run());
            &&& r.session.outcome() == Ok::<_, Error>(fresh)
            &&& r.requests == seq![
                CacheActionSpec::<K, B>::Probe {
                    secret_key_path: paths.secret_key,
                    bootstrapping_key_path: paths.bootstrapping_key,
                },
                CacheActionSpec::<K, B>::Generate { sampling: kg.spec_key_pair_sampling() },
                CacheActionSpec::<K, B>::CreateDir { dir: paths.dir },
                CacheActionSpec::<K, B>::SaveSecretKey {
                    path: paths.secret_key,
                    secret_key: fresh.0,
                },
                CacheActionSpec::<K, B>::SaveBootstrappingKey {
                    path: paths.bootstrapping_key,
                    bootstrapping_key: fresh.1,
                },
            ]
            &&& r.store.holds_entry(paths)
            &&& r.store.entry(paths) == fresh
            &&& r.store.dirs == store.dirs.union(with_ancestors(paths.dir))
            &&& r.store.dirs.contains(paths.dir)
            &&& r.store.dirs.contains(root)
            &&& forall|p: Seq<char>| #[trigger] is_ancestor(p, root) ==> r.store.dirs.contains(p)
            &&& r.store.can_hold(paths.secret_key)
            &&& r.store.can_hold(paths.bootstrapping_key)
            &&& r.store.secret_keys == store.secret_keys.insert(paths.secret_key, fresh.0)
            &&& r.store.bootstrapping_keys == store.bootstrapping_keys.insert(
                paths.bootstrapping_key,
                fresh.1,
            )
        }),
{
    reveal_with_fuel(run, 7);
    let paths = kg.spec_cache_paths(root);
    lemma_key_files_lie_in_dir(kg, root);
    let created = CacheStore { dirs: store.dirs.union(with_ancestors(paths.dir)), ..store };
    assert(created.can_hold(paths.secret_key));
    let saved = CacheStore {
        secret_keys: created.secret_keys.insert(paths.secret_key, fresh.0),
        ..created
    };
    assert(saved.can_hold(paths.bootstrapping_key));
    let r = run(kg.spec_generate_with_cache(root), store, fresh, full_run());
    assert(r.requests =~= seq![
        CacheActionSpec::<K, B>::Probe {
            secret_key_path: paths.secret_key,
            bootstrapping_key_path: paths.bootstrapping_key,
        },
        CacheActionSpec::<K, B>::Generate { sampling: kg.spec_key_pair_sampling() },
        CacheActionSpec::<K, B>::CreateDir { dir: paths.dir },
        CacheActionSpec::<K, B>::SaveSecretKey { path: paths.secret_key, secret_key: fresh.0 },
        CacheActionSpec::<K, B>::SaveBootstrappingKey {
            path: paths.bootstrapping_key,
            bootstrapping_key: fresh.1,
        },
    ]);
}

/// Whether a key pair is asked for among `requests`.
pub open spec fn generates<K, B>(requests: Seq<CacheActionSpec<K, B>>) -> bool {
    exists|i: int| 0 <= i < requests.len() && #[trigger] requests[i] is Generate
}

/// Generating twice with the cache gives the same keys twice. After a first
/// call on a root whose entry is incomplete, a second call, made for any
/// settings of the same fingerprint, returns the key pair of the first,
/// generates nothing and leaves the cache as it is.
pub proof fn lemma_cache_idempotent<K, B>(
    first: KeyGenerator,
    second: KeyGenerator,
    root: Seq<char>,
    store: CacheStore<K, B>,
    fresh_first: (SecretKey<K>, PublicKey<B>),
    fresh_second: (SecretKey<K>, PublicKey<B>),
)
    requires
        root.len() > 0,
        !store.holds_entry(first.spec_cache_paths(root)),
        first.fingerprint_fields() == second.fingerprint_fields(),
    ensures
        ({
            let r1 = run(first.spec_generate_with_cache(root), store, fresh_first, full_run());
            let r2 = run(
                second.spec_generate_with_cache(root),
                r1.store,
                fresh_second,
                full_run(),
            );
            &&& r1.session.outcome() == Ok::<_, Error>(fresh_first)
            &&& generates(r1.requests)
            &&& r2.session.outcome() == Ok::<_, Error>(fresh_first)
            &&& !generates(r2.requests)
            &&& r2.store == r1.store
        }),
{
    lemma_cache_miss(first, root, store, fresh_first);
    lemma_cache_entry_shared(first, second, root);
    let r1 = run(first.spec_generate_with_cache(root), store, fresh_first, full_run());
    lemma_cache_hit(second, root, r1.store, fresh_second);
    assert(r1.requests[1] is Generate);
}

} // verus!
