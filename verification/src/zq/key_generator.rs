//! Scheme parameters, keys, and the fingerprint under which keys are cached.
use vstd::prelude::*;
use vstd::string::*;
use crate::zq::cache::CacheSession;
use crate::zq::cache::CacheSessionSpec;
use crate::zq::cache::CacheStage;
use crate::zq::decimal::append_decimal;
use crate::zq::decimal::decimal;
use crate::zq::decimal::lemma_decimal_injective;
use crate::zq::decimal::lemma_decimal_shape;
use crate::zq::decimal::lemma_digit_run_unique;

verus! {

/// Security parameters of the ring variant of the scheme.
#[derive(Clone, Copy, Debug, PartialEq, Eq, Structural)]
pub struct RLWEParams {
    /// The number of coefficients of a polynomial.
    pub polynomial_size: usize,
    /// The size of a mask.
    pub dimension: usize,
    /// Base-two logarithm of the standard deviation of the noise.
    pub log2_std_dev: i32,
}

/// Security parameters of the plain variant of the scheme.
#[derive(Clone, Copy, Debug, PartialEq, Eq, Structural)]
pub struct LWEParams {
    /// The size of a mask.
    pub dimension: usize,
    /// Base-two logarithm of the standard deviation of the noise.
    pub log2_std_dev: i32,
}

/// The bootstrapping key, in whatever form the primitive library keeps it.
/// Safe to hand to a party that computes without the secret key.
#[derive(Debug, PartialEq)]
pub struct PublicKey<B> {
    pub bootstrapping_key: B,
}

/// The secret key material, in whatever form the primitive library keeps it.
/// It is never to be logged, so it has no printed form.
#[derive(PartialEq)]
pub struct SecretKey<K> {
    pub lwe_key: K,
}

/// What identifies a cryptographic configuration: keys interoperate only if
/// they were generated from equal settings.
#[derive(Clone, Copy, Debug, PartialEq, Eq, Structural)]
pub struct KeyGenerator {
    pub rlwe_setting: RLWEParams,
    pub lwe_setting: LWEParams,
    /// Base-two logarithm of the decomposition base of the bootstrap.
    pub bs_base_log: usize,
    /// Number of decomposition levels of the bootstrap.
    pub bs_level: usize,
}

/// The sampling of a lone secret key for the primitive library to carry out,
/// from the settings of the plain variant.
#[derive(Clone, Copy, Debug, PartialEq, Eq, Structural)]
pub struct SecretKeySampling {
    pub setting: LWEParams,
}

/// The generation of a key pair for the primitive library to carry out: a
/// ring secret key is sampled from `rlwe_setting` and flattened into the
/// secret key, whose masks have `rlwe_setting.dimension` times
/// `rlwe_setting.polynomial_size` elements, and the bootstrapping key is
/// derived from the two with the decomposition `bs_base_log`, `bs_level`.
/// The settings of the plain variant take no part in it.
#[derive(Clone, Copy, Debug, PartialEq, Eq, Structural)]
pub struct KeyPairSampling {
    pub rlwe_setting: RLWEParams,
    pub bs_base_log: usize,
    pub bs_level: usize,
}

/// Whether `p` is a directory above `path`: a beginning of `path` that is not
/// empty and ends just before a `/` of `path`.
pub open spec fn is_ancestor(p: Seq<char>, path: Seq<char>) -> bool {
    &&& 0 < p.len() < path.len()
    &&& p.is_prefix_of(path)
    &&& path[p.len() as int] == '/'
}

/// The directory `dir` and every directory above it.
pub open spec fn with_ancestors(dir: Seq<char>) -> Set<Seq<char>> {
    Set::new(|p: Seq<char>| p == dir || is_ancestor(p, dir))
}

/// Name of the file that holds the secret key of a cache entry.
pub open spec fn secret_key_file() -> Seq<char> {
    "secret_key"@
}

/// Name of the file that holds the bootstrapping key of a cache entry.
pub open spec fn bootstrapping_key_file() -> Seq<char> {
    "bootstrapping_key"@
}

/// The places of one cache entry, as text.
pub struct CachePathsSpec {
    pub dir: Seq<char>,
    pub secret_key: Seq<char>,
    pub bootstrapping_key: Seq<char>,
}

/// The places of one cache entry: its directory and the two files in it.
#[derive(Debug)]
pub struct CachePaths {
    pub dir: String,
    pub secret_key: String,
    pub bootstrapping_key: String,
}

impl View for CachePaths {
    type V = CachePathsSpec;

    open spec fn view(&self) -> CachePathsSpec {
        CachePathsSpec {
            dir: self.dir@,
            secret_key: self.secret_key@,
            bootstrapping_key: self.bootstrapping_key@,
        }
    }
}

impl KeyGenerator {
    /// The four numbers that the cache fingerprint is made of. The noise
    /// parameters and the plain-variant settings take no part in it.
    pub open spec fn fingerprint_fields(self) -> (nat, nat, nat, nat) {
        (
            self.rlwe_setting.polynomial_size as nat,
            self.rlwe_setting.dimension as nat,
            self.bs_base_log as nat,
            self.bs_level as nat,
        )
    }

    /// The name of the fingerprint directory:
    /// `rlwe_<polynomial size>_<dimension>_bs_<base log>_<level>`.
    pub open spec fn fingerprint(self) -> Seq<char> {
        "rlwe_"@ + decimal(self.rlwe_setting.polynomial_size as nat) + "_"@ + decimal(
            self.rlwe_setting.dimension as nat,
        ) + "_bs_"@ + decimal(self.bs_base_log as nat) + "_"@ + decimal(self.bs_level as nat)
    }

    /// The fingerprint directory under the cache root `root`.
    pub open spec fn spec_cache_dir(self, root: Seq<char>) -> Seq<char> {
        root + "/"@ + self.fingerprint()
    }

    /// The places of the cache entry under the cache root `root`.
    pub open spec fn spec_cache_paths(self, root: Seq<char>) -> CachePathsSpec {
        CachePathsSpec {
            dir: self.spec_cache_dir(root),
            secret_key: self.spec_cache_dir(root) + "/"@ + secret_key_file(),
            bootstrapping_key: self.spec_cache_dir(root) + "/"@ + bootstrapping_key_file(),
        }
    }

    /// What a generation of a key pair reads of these settings: the ring
    /// settings and the two decomposition parameters.
    pub open spec fn spec_key_pair_sampling(self) -> KeyPairSampling {
        KeyPairSampling {
            rlwe_setting: self.rlwe_setting,
            bs_base_log: self.bs_base_log,
            bs_level: self.bs_level,
        }
    }

    /// The session that `generate` starts: fresh keys, nothing stored.
    pub open spec fn spec_generate<K, B>(self) -> CacheSessionSpec<K, B> {
        CacheSessionSpec {
            settings: self,
            paths: self.spec_cache_paths(Seq::empty()),
            stage: CacheStage::Generating { persist: false },
        }
    }

    /// The session that `generate_with_cache` starts under the cache root
    /// `root`: with an empty root that of `generate`, else one that first
    /// looks for the entry.
    pub open spec fn spec_generate_with_cache<K, B>(self, root: Seq<char>) -> CacheSessionSpec<
        K,
        B,
    > {
        if root.len() == 0 {
            self.spec_generate()
        } else {
            CacheSessionSpec {
                settings: self,
                paths: self.spec_cache_paths(root),
                stage: CacheStage::Probing,
            }
        }
    }

    /// A generator for the given settings.
    pub fn new(
        rlwe_setting: RLWEParams,
        lwe_setting: LWEParams,
        bs_base_log: usize,
        bs_level: usize,
    ) -> (kg: KeyGenerator)
        ensures
            kg == (KeyGenerator { rlwe_setting, lwe_setting, bs_base_log, bs_level }),
    {
        KeyGenerator { rlwe_setting, lwe_setting, bs_base_log, bs_level }
    }

    /// Starts the generation of a fresh key pair. The session asks for the
    /// keys, sampled as `key_pair_sampling` says, and ends with them; it
    /// touches no file.
    pub fn generate<K, B>(&self) -> (session: CacheSession<K, B>)
        ensures
            session@ == self.spec_generate::<K, B>(),
    {
        proof {
            reveal_strlit("");
            assert(""@ =~= Seq::<char>::empty());
        }
        CacheSession::start(*self, self.cache_paths(""), CacheStage::Generating { persist: false })
    }

    /// The generation of a key pair, as `generate` and a miss of
    /// `generate_with_cache` ask for it: from the ring settings and the
    /// decomposition parameters, without the settings of the plain variant.
    pub fn key_pair_sampling(&self) -> (r: KeyPairSampling)
        ensures
            r == self.spec_key_pair_sampling(),
    {
        KeyPairSampling {
            rlwe_setting: self.rlwe_setting,
            bs_base_log: self.bs_base_log,
            bs_level: self.bs_level,
        }
    }

    /// The generation of a secret key alone, for use without bootstraps: it
    /// is sampled from the plain-variant settings, and no bootstrapping key
    /// is derived.
    pub fn generate_only_sk(&self) -> (r: SecretKeySampling)
        ensures
            r.setting == self.lwe_setting,
    {
        SecretKeySampling { setting: self.lwe_setting }
    }

    /// Starts a generation that goes through the cache under `cache_path`.
    /// With an empty `cache_path` this is `generate`. Else the session looks
    /// for the two key files of the fingerprint directory: where both exist it
    /// loads them, and where not it generates a pair, creates the directory
    /// and stores both keys before it ends.
    pub fn generate_with_cache<K, B>(&self, cache_path: &str) -> (session: CacheSession<K, B>)
        ensures
            session@ == self.spec_generate_with_cache::<K, B>(cache_path@),
    {
        if cache_path.is_empty() {
            self.generate()
        } else {
            CacheSession::start(*self, self.cache_paths(cache_path), CacheStage::Probing)
        }
    }

    /// The name of the fingerprint directory of these settings.
    pub fn fingerprint_name(&self) -> (name: String)
        ensures
            name@ == self.fingerprint(),
    {
        let mut name = String::from_str("rlwe_");
        append_decimal(&mut name, self.rlwe_setting.polynomial_size);
        name.append("_");
        append_decimal(&mut name, self.rlwe_setting.dimension);
        name.append("_bs_");
        append_decimal(&mut name, self.bs_base_log);
        name.append("_");
        append_decimal(&mut name, self.bs_level);
        name
    }

    /// The fingerprint directory of these settings under `cache_path`.
    pub fn cache_dir(&self, cache_path: &str) -> (dir: String)
        ensures
            dir@ == self.spec_cache_dir(cache_path@),
    {
        let name = self.fingerprint_name();
        let mut dir = String::from_str(cache_path);
        dir.append("/");
        dir.append(name.as_str());
        dir
    }

    /// The directory and the two key files of these settings under `cache_path`.
    pub fn cache_paths(&self, cache_path: &str) -> (paths: CachePaths)
        ensures
            paths@ == self.spec_cache_paths(cache_path@),
    {
        let dir = self.cache_dir(cache_path);
        let mut secret_key = dir.clone();
        secret_key.append("/");
        secret_key.append("secret_key");
        let mut bootstrapping_key = dir.clone();
        bootstrapping_key.append("/");
        bootstrapping_key.append("bootstrapping_key");
        CachePaths { dir, secret_key, bootstrapping_key }
    }
}

/// Text that follows a common beginning is determined by the whole.
proof fn lemma_cancel_prefix(p: Seq<char>, x: Seq<char>, y: Seq<char>)
    requires
        p + x == p + y,
    ensures
        x == y,
{
    assert(x =~= (p + x).subrange(p.len() as int, (p + x).len() as int));
    assert(y =~= (p + y).subrange(p.len() as int, (p + y).len() as int));
}

/// A numeral followed by a separator that starts with `_` can be read back:
/// equal texts of that shape have equal numbers and equal remainders.
proof fn lemma_read_field(n: nat, sep: Seq<char>, r: Seq<char>, m: nat, t: Seq<char>)
    requires
        sep.len() > 0,
        sep[0] == '_',
        decimal(n) + (sep + r) == decimal(m) + (sep + t),
    ensures
        n == m,
        r == t,
{
    lemma_decimal_shape(n);
    lemma_decimal_shape(m);
    assert((sep + r)[0] == '_');
    assert((sep + t)[0] == '_');
    lemma_digit_run_unique(decimal(n), sep + r, decimal(m), sep + t);
    lemma_decimal_injective(n, m);
    lemma_cancel_prefix(sep, r, t);
}

/// Joining texts does not depend on how the joins are grouped.
proof fn lemma_concat_assoc(a: Seq<char>, b: Seq<char>, c: Seq<char>)
    ensures
        (a + b) + c == a + (b + c),
{
    assert((a + b) + c =~= a + (b + c));
}

/// The part of a fingerprint after `rlwe_`, grouped so that each field is
/// followed by everything after it.
spec fn fingerprint_fields_text(f: (nat, nat, nat, nat)) -> Seq<char> {
    decimal(f.0) + ("_"@ + (decimal(f.1) + ("_bs_"@ + (decimal(f.2) + ("_"@ + decimal(f.3))))))
}

proof fn lemma_fingerprint_grouped(kg: KeyGenerator)
    ensures
        kg.fingerprint() == "rlwe_"@ + fingerprint_fields_text(kg.fingerprint_fields()),
{
    let (p, d, b, l) = kg.fingerprint_fields();
    let x0 = "rlwe_"@;
    let x1 = x0 + decimal(p);
    let x2 = x1 + "_"@;
    let x3 = x2 + decimal(d);
    let x4 = x3 + "_bs_"@;
    let x5 = x4 + decimal(b);
    let y6 = "_"@ + decimal(l);
    let y5 = decimal(b) + y6;
    let y4 = "_bs_"@ + y5;
    let y3 = decimal(d) + y4;
    let y2 = "_"@ + y3;
    let y1 = decimal(p) + y2;
    lemma_concat_assoc(x5, "_"@, decimal(l));
    lemma_concat_assoc(x4, decimal(b), y6);
    lemma_concat_assoc(x3, "_bs_"@, y5);
    lemma_concat_assoc(x2, decimal(d), y4);
    lemma_concat_assoc(x1, "_"@, y3);
    lemma_concat_assoc(x0, decimal(p), y2);
}

/// Two settings have the same fingerprint exactly when they agree on the
/// polynomial size, the ring dimension and the two bootstrap decomposition
/// parameters. Settings that differ only in their noise parameters, or in the
/// plain-variant settings, share one cache entry.
pub proof fn lemma_fingerprint_injective(a: KeyGenerator, b: KeyGenerator)
    ensures
        a.fingerprint() == b.fingerprint() <==> a.fingerprint_fields() == b.fingerprint_fields(),
{
    if a.fingerprint() == b.fingerprint() {
        reveal_strlit("_");
        reveal_strlit("_bs_");
        let (pa, da, ba, la) = a.fingerprint_fields();
        let (pb, db, bb, lb) = b.fingerprint_fields();
        let a3 = decimal(ba) + ("_"@ + decimal(la));
        let b3 = decimal(bb) + ("_"@ + decimal(lb));
        let a2 = decimal(da) + ("_bs_"@ + a3);
        let b2 = decimal(db) + ("_bs_"@ + b3);
        lemma_fingerprint_grouped(a);
        lemma_fingerprint_grouped(b);
        lemma_cancel_prefix(
            "rlwe_"@,
            fingerprint_fields_text(a.fingerprint_fields()),
            fingerprint_fields_text(b.fingerprint_fields()),
        );
        lemma_read_field(pa, "_"@, a2, pb, b2);
        lemma_read_field(da, "_bs_"@, a3, db, b3);
        lemma_read_field(ba, "_"@, decimal(la), bb, decimal(lb));
        lemma_decimal_injective(la, lb);
    }
}

/// Under one cache root, two settings use the same cache entry exactly when
/// they agree on the four fingerprint fields.
pub proof fn lemma_cache_entry_shared(a: KeyGenerator, b: KeyGenerator, root: Seq<char>)
    ensures
        a.spec_cache_dir(root) == b.spec_cache_dir(root) <==> a.fingerprint_fields()
            == b.fingerprint_fields(),
        a.spec_cache_paths(root) == b.spec_cache_paths(root) <==> a.fingerprint_fields()
            == b.fingerprint_fields(),
{
    lemma_fingerprint_injective(a, b);
    if a.spec_cache_dir(root) == b.spec_cache_dir(root) {
        lemma_cancel_prefix(root + "/"@, a.fingerprint(), b.fingerprint());
    }
}

/// The directory and the two key files of a cache entry are three different
/// places, and both files lie directly in the directory.
pub proof fn lemma_cache_paths_distinct(kg: KeyGenerator, root: Seq<char>)
    ensures
        ({
            let paths = kg.spec_cache_paths(root);
            &&& paths.secret_key != paths.bootstrapping_key
            &&& paths.secret_key != paths.dir
            &&& paths.bootstrapping_key != paths.dir
            &&& paths.dir.is_prefix_of(paths.secret_key)
            &&& paths.dir.is_prefix_of(paths.bootstrapping_key)
        }),
{
    reveal_strlit("secret_key");
    reveal_strlit("bootstrapping_key");
    reveal_strlit("/");
    let paths = kg.spec_cache_paths(root);
    assert(paths.secret_key.len() == paths.dir.len() + 11);
    assert(paths.bootstrapping_key.len() == paths.dir.len() + 18);
    assert(paths.dir =~= paths.secret_key.subrange(0, paths.dir.len() as int));
    assert(paths.dir =~= paths.bootstrapping_key.subrange(0, paths.dir.len() as int));
}

/// The directories above a key file of a cache entry are the fingerprint
/// directory and the directories above that one; the cache root and every
/// directory above the cache root are among them.
pub proof fn lemma_key_files_lie_in_dir(kg: KeyGenerator, root: Seq<char>)
    requires
        root.len() > 0,
    ensures
        ({
            let paths = kg.spec_cache_paths(root);
            &&& with_ancestors(paths.dir).contains(root)
            &&& forall|p: Seq<char>| #[trigger]
                is_ancestor(p, root) ==> with_ancestors(paths.dir).contains(p)
            &&& forall|p: Seq<char>| #[trigger]
                is_ancestor(p, paths.secret_key) <==> with_ancestors(paths.dir).contains(p)
            &&& forall|p: Seq<char>| #[trigger]
                is_ancestor(p, paths.bootstrapping_key) <==> with_ancestors(paths.dir).contains(p)
        }),
{
    reveal_strlit("/");
    let paths = kg.spec_cache_paths(root);
    let dir = paths.dir;
    assert(is_ancestor(root, dir)) by {
        assert(root =~= dir.subrange(0, root.len() as int));
        assert(dir[root.len() as int] == '/');
    }
    assert forall|p: Seq<char>| #[trigger] is_ancestor(p, root) implies with_ancestors(
        dir,
    ).contains(p) by {
        assert(p =~= dir.subrange(0, p.len() as int));
        assert(dir[p.len() as int] == root[p.len() as int]);
    }
    reveal_strlit("secret_key");
    reveal_strlit("bootstrapping_key");
    lemma_file_in_dir(dir, secret_key_file());
    lemma_file_in_dir(dir, bootstrapping_key_file());
}

/// The directories above the file `name` of the directory `dir` are `dir`
/// and the directories above it.
proof fn lemma_file_in_dir(dir: Seq<char>, name: Seq<char>)
    requires
        dir.len() > 0,
        name.len() > 0,
        forall|i: int| 0 <= i < name.len() ==> name[i] != '/',
    ensures
        forall|p: Seq<char>| #[trigger]
            is_ancestor(p, dir + "/"@ + name) <==> with_ancestors(dir).contains(p),
{
    reveal_strlit("/");
    let file = dir + "/"@ + name;
    assert forall|p: Seq<char>| #[trigger]
        is_ancestor(p, file) <==> with_ancestors(dir).contains(p) by {
        if is_ancestor(p, file) {
            if p.len() < dir.len() {
                assert(file[p.len() as int] == dir[p.len() as int]);
                assert(p =~= dir.subrange(0, p.len() as int));
            } else if p.len() == dir.len() {
                assert(p =~= dir);
            } else {
                assert(file[p.len() as int] == name[p.len() - dir.len() - 1]);
            }
        }
        if with_ancestors(dir).contains(p) {
            assert(file[dir.len() as int] == '/');
            if p == dir {
                assert(p =~= file.subrange(0, p.len() as int));
            } else {
                assert(p =~= dir.subrange(0, p.len() as int));
                assert(p =~= file.subrange(0, p.len() as int));
                assert(file[p.len() as int] == dir[p.len() as int]);
            }
        }
    }
}

} // verus!
