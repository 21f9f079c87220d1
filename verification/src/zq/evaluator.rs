//! The ciphertext algebra: which operations an evaluator offers and what
//! each asks of the primitive library.
use vstd::prelude::*;
use vstd::arithmetic::div_mod::lemma_fundamental_div_mod;
use vstd::arithmetic::div_mod::lemma_mod_multiples_basic;
use vstd::arithmetic::div_mod::lemma_small_mod;
use vstd::arithmetic::power2::lemma2_to64;
use vstd::arithmetic::power2::lemma_pow2_adds;
use vstd::arithmetic::power2::lemma_pow2_pos;
use vstd::arithmetic::power2::pow2;
use crate::zq::encoding::EncodingContext;
use crate::zq::encoding::EncodingSpec;
use crate::zq::error::Error;
use crate::zq::error::ParameterError;
use crate::zq::key_generator::PublicKey;
use crate::zq::Ciphertext;
use crate::zq::standard_encoding;
use crate::zq::standard_encoding_spec;

verus! {

/// An operation of the ciphertext algebra, with the ciphertexts it is asked
/// of.
pub enum Operation<C> {
    /// Sum of two ciphertexts.
    Add(C, C),
    /// Sum of a ciphertext and a known constant.
    AddScalar(C, u32),
    /// Product of a ciphertext and a known constant.
    MulScalar(C, u32),
    /// Noise refresh that also applies a function of the caller.
    BootstrapWithFunction(C),
    /// Product of two ciphertexts.
    MulAndBootstrap(C, C),
    /// `max(x, 0)` by bootstrap.
    Relu(C),
}

/// The function that a bootstrap evaluates.
#[derive(Clone, Copy, Debug, PartialEq, Eq, Structural)]
pub enum Lookup {
    /// The function that the caller brings.
    Caller,
    /// `max(x, 0)`.
    Relu,
}

/// What an operation asks of the primitive library, over values.
pub enum RequestSpec<C, B> {
    Add { a: C, b: C, new_min: nat },
    AddConstant { a: C, constant: nat },
    MulConstant { a: C, factor: int },
    Bootstrap { a: C, key: B, lookup: Lookup, encoder: EncodingSpec },
    MulFromBootstrap { a: C, b: C, key: B },
}

/// What an operation asks of the primitive library: the call to make, with
/// its operands and parameters.
pub enum Request<'r, 'a, C, B> {
    /// Add `a` and `b`; the interval of the result starts at `new_min`.
    Add { a: &'r C, b: &'r C, new_min: u64 },
    /// Add `constant` to `a`, encoded as `a` is.
    AddConstant { a: &'r C, constant: u32 },
    /// Multiply `a` by `factor`.
    MulConstant { a: &'r C, factor: i32 },
    /// Bootstrap `a` under `key`, through the lookup table of `lookup`, into
    /// a ciphertext encoded under `encoder`.
    Bootstrap { a: &'r C, key: &'a B, lookup: Lookup, encoder: EncodingContext },
    /// Multiply `a` and `b` by bootstraps under `key`.
    MulFromBootstrap { a: &'r C, b: &'r C, key: &'a B },
}

impl<'r, 'a, C, B> View for Request<'r, 'a, C, B> {
    type V = RequestSpec<C, B>;

    open spec fn view(&self) -> RequestSpec<C, B> {
        match *self {
            Request::Add { a, b, new_min } => RequestSpec::Add {
                a: *a,
                b: *b,
                new_min: new_min as nat,
            },
            Request::AddConstant { a, constant } => RequestSpec::AddConstant {
                a: *a,
                constant: constant as nat,
            },
            Request::MulConstant { a, factor } => RequestSpec::MulConstant {
                a: *a,
                factor: factor as int,
            },
            Request::Bootstrap { a, key, lookup, encoder } => RequestSpec::Bootstrap {
                a: *a,
                key: *key,
                lookup,
                encoder: encoder@,
            },
            Request::MulFromBootstrap { a, b, key } => RequestSpec::MulFromBootstrap {
                a: *a,
                b: *b,
                key: *key,
            },
        }
    }
}

/// What an in-place operation asks of the primitive library: the call to
/// make on the first operand itself, which is overwritten with the result.
pub enum Update<'r, C> {
    /// Add `b` to `a`; the interval of the result starts at `new_min`.
    Add { a: &'r mut C, b: &'r C, new_min: u64 },
    /// Add `constant` to `a`, encoded as `a` is.
    AddConstant { a: &'r mut C, constant: u32 },
    /// Multiply `a` by `factor`.
    MulConstant { a: &'r mut C, factor: i32 },
}

impl<'r, C> Update<'r, C> {
    /// The request that the update stands for, with what its target holds
    /// now as first operand.
    pub open spec fn request<B>(self) -> RequestSpec<C, B> {
        match self {
            Update::Add { a, b, new_min } => RequestSpec::Add {
                a: *a,
                b: *b,
                new_min: new_min as nat,
            },
            Update::AddConstant { a, constant } => RequestSpec::AddConstant {
                a: *a,
                constant: constant as nat,
            },
            Update::MulConstant { a, factor } => RequestSpec::MulConstant {
                a: *a,
                factor: factor as int,
            },
        }
    }
}

/// What comes of asking for an operation, over values: the request, or why
/// there is none.
pub open spec fn planned<'r, 'a, C, B>(r: Result<Request<'r, 'a, C, B>, Error>) -> Result<
    RequestSpec<C, B>,
    Error,
> {
    match r {
        Ok(request) => Ok(request@),
        Err(e) => Err(e),
    }
}

/// The widest encoding under which every scalar has a multiplier, in bits.
pub const MAX_WRAPPING_BITS: usize = 32;

/// The signed number that multiplies as `k` does modulo `2^32`: `k` itself
/// below `2^31`, and `k - 2^32` from there on.
pub open spec fn multiplier_of(k: u32) -> int {
    if k <= i32::MAX {
        k as int
    } else {
        k - 0x1_0000_0000
    }
}

/// The multiplier that stands for the scalar `k`.
pub fn scalar_multiplier(k: u32) -> (r: i32)
    ensures
        r == multiplier_of(k),
        (r - k) % 0x1_0000_0000 == 0,
{
    if k <= 0x7fff_ffff {
        k as i32
    } else {
        let low: i32 = (k - 0x8000_0000) as i32;
        low + i32::MIN
    }
}

/// Whether the multiplier of `k` stands for `k` on cleartexts of `bits` bits:
/// always where it is `k` itself, and else where the cleartexts wrap at a
/// divisor of `2^32`.
pub open spec fn multiplier_fits(k: u32, bits: nat) -> bool {
    k <= i32::MAX || bits <= MAX_WRAPPING_BITS
}

/// Multiplying by the multiplier of `k` is multiplying by `k` modulo `2^32`,
/// the number of cleartexts under the standard encoding.
pub proof fn lemma_multiplier_scales(a: int, k: u32)
    ensures
        (a * multiplier_of(k) - a * k) % 0x1_0000_0000 == 0,
{
    if k > i32::MAX {
        assert(a * multiplier_of(k) - a * k == -a * 0x1_0000_0000) by (nonlinear_arith)
            requires
                multiplier_of(k) == k - 0x1_0000_0000,
        ;
        lemma_mod_multiples_basic(-a, 0x1_0000_0000);
    }
}

/// `max(x, 0)`.
pub open spec fn relu_of(x: int) -> int {
    if x > 0 {
        x
    } else {
        0
    }
}

/// Cleartexts are unsigned, so `max(x, 0)` changes none of them.
pub proof fn lemma_relu_keeps_cleartexts(encoder: EncodingSpec, m: nat)
    requires
        encoder.wf(),
        encoder.contains(m),
    ensures
        relu_of(m as int) == m,
{
}

impl<C, B> RequestSpec<C, B> {
    /// The cleartext that the request asks for, where `clear` gives the
    /// cleartext of a ciphertext and `f` is the caller's function.
    pub open spec fn cleartext(self, clear: spec_fn(C) -> int, f: spec_fn(int) -> int) -> int {
        match self {
            RequestSpec::Add { a, b, .. } => clear(a) + clear(b),
            RequestSpec::AddConstant { a, constant } => clear(a) + constant,
            RequestSpec::MulConstant { a, factor } => clear(a) * factor,
            RequestSpec::Bootstrap { a, lookup, .. } => match lookup {
                Lookup::Caller => f(clear(a)),
                Lookup::Relu => relu_of(clear(a)),
            },
            RequestSpec::MulFromBootstrap { a, b, .. } => clear(a) * clear(b),
        }
    }
}

impl<C> Operation<C> {
    /// What the operation means on cleartexts, where `clear` gives the
    /// cleartext of a ciphertext and `f` is the caller's function.
    pub open spec fn meaning(self, clear: spec_fn(C) -> int, f: spec_fn(int) -> int) -> int {
        match self {
            Operation::Add(a, b) => clear(a) + clear(b),
            Operation::AddScalar(a, k) => clear(a) + k,
            Operation::MulScalar(a, k) => clear(a) * k,
            Operation::BootstrapWithFunction(a) => f(clear(a)),
            Operation::MulAndBootstrap(a, b) => clear(a) * clear(b),
            Operation::Relu(a) => relu_of(clear(a)),
        }
    }

    /// Whether the operation goes through a bootstrap, and so needs the
    /// public key.
    pub open spec fn requires_public_key(self) -> bool {
        self is BootstrapWithFunction || self is MulAndBootstrap || self is Relu
    }
}

/// What an evaluator is: the public key it may hold and what its encoding
/// context stands for.
pub struct EvaluatorSpec<B> {
    pub pk: Option<PublicKey<B>>,
    pub encoder: EncodingSpec,
}

impl<B> EvaluatorSpec<B> {
    /// What `op` asks of the primitive library, or why it cannot be had. An
    /// operation that goes through a bootstrap is refused by an evaluator
    /// without a public key, and a product with a scalar that has no
    /// multiplier under the encoding is refused; all else is to be had.
    pub open spec fn plan<C>(self, op: Operation<C>) -> Result<RequestSpec<C, B>, Error> {
        match op {
            Operation::Add(a, b) => Ok(RequestSpec::Add { a, b, new_min: self.encoder.min }),
            Operation::AddScalar(a, k) => Ok(RequestSpec::AddConstant { a, constant: k as nat }),
            Operation::MulScalar(a, k) => if multiplier_fits(k, self.encoder.nb_bit_precision) {
                Ok(RequestSpec::MulConstant { a, factor: multiplier_of(k) })
            } else {
                Err(Error::Parameter(ParameterError::ScalarOutOfRange))
            },
            Operation::BootstrapWithFunction(a) => match self.pk {
                Some(pk) => Ok(
                    RequestSpec::Bootstrap {
                        a,
                        key: pk.bootstrapping_key,
                        lookup: Lookup::Caller,
                        encoder: self.encoder,
                    },
                ),
                None => Err(Error::Parameter(ParameterError::MissingPublicKey)),
            },
            Operation::MulAndBootstrap(a, b) => match self.pk {
                Some(pk) => Ok(RequestSpec::MulFromBootstrap { a, b, key: pk.bootstrapping_key }),
                None => Err(Error::Parameter(ParameterError::MissingPublicKey)),
            },
            Operation::Relu(a) => match self.pk {
                Some(pk) => Ok(
                    RequestSpec::Bootstrap {
                        a,
                        key: pk.bootstrapping_key,
                        lookup: Lookup::Relu,
                        encoder: self.encoder,
                    },
                ),
                None => Err(Error::Parameter(ParameterError::MissingPublicKey)),
            },
        }
    }
}

/// Computes on ciphertexts. A levelled evaluator holds no public key and
/// offers the linear operations only; a full evaluator borrows a public key,
/// cannot outlive it, and offers all of them. Each operation gives the
/// request that the primitive library is to carry out.
pub struct Evaluator<'a, B> {
    pk: Option<&'a PublicKey<B>>,
    encoder: EncodingContext,
}

impl<'a, B> View for Evaluator<'a, B> {
    type V = EvaluatorSpec<B>;

    closed spec fn view(&self) -> EvaluatorSpec<B> {
        EvaluatorSpec {
            pk: match self.pk {
                Some(pk) => Some(*pk),
                None => None,
            },
            encoder: self.encoder@,
        }
    }
}

impl<'a, B> Evaluator<'a, B> {
    /// An evaluator without a public key, with the standard encoding context.
    pub fn new_levelled_evaluator() -> (r: Result<Evaluator<'a, B>, Error>)
        ensures
            r is Ok,
            r->Ok_0@ == (EvaluatorSpec::<B> { pk: None, encoder: standard_encoding_spec() }),
    {
        match standard_encoding() {
            Ok(encoder) => Ok(Evaluator { pk: None, encoder }),
            Err(e) => Err(e),
        }
    }

    /// An evaluator bound to the public key `pk`, with the standard encoding
    /// context.
    pub fn new_fully_evaluator(pk: &'a PublicKey<B>) -> (r: Result<Evaluator<'a, B>, Error>)
        ensures
            r is Ok,
            r->Ok_0@ == (EvaluatorSpec { pk: Some(*pk), encoder: standard_encoding_spec() }),
    {
        match standard_encoding() {
            Ok(encoder) => Ok(Evaluator { pk: Some(pk), encoder }),
            Err(e) => Err(e),
        }
    }

    /// An evaluator with the encoding context `encoder`, bound to `pk` if
    /// there is one.
    pub fn with_encoding(pk: Option<&'a PublicKey<B>>, encoder: EncodingContext) -> (r: Evaluator<
        'a,
        B,
    >)
        ensures
            r@.encoder == encoder@,
            match pk {
                Some(pk) => r@.pk == Some(*pk),
                None => r@.pk is None,
            },
    {
        Evaluator { pk, encoder }
    }

    /// The encoding context of this evaluator.
    pub fn encoder(&self) -> (r: &EncodingContext)
        ensures
            r@ == self@.encoder,
            self@.encoder.wf(),
    {
        let _ = self.encoder.min();
        &self.encoder
    }

    /// Whether this evaluator holds no public key.
    pub fn is_levelled(&self) -> (r: bool)
        ensures
            r == (self@.pk is None),
    {
        self.pk.is_none()
    }

    /// The sum of `a` and `b`.
    pub fn add<'r, C>(&self, a: &'r Ciphertext<C>, b: &'r Ciphertext<C>) -> (r: Result<
        Request<'r, 'a, C, B>,
        Error,
    >)
        ensures
            planned(r) == self@.plan(Operation::Add(a.lwe, b.lwe)),
            r is Ok,
            self@.encoder.wf(),
    {
        Ok(Request::Add { a: &a.lwe, b: &b.lwe, new_min: self.encoder.min() })
    }

    /// The sum of `a` and the constant `b`.
    pub fn add_u32<'r, C>(&self, a: &'r Ciphertext<C>, b: u32) -> (r: Result<
        Request<'r, 'a, C, B>,
        Error,
    >)
        ensures
            planned(r) == self@.plan(Operation::AddScalar(a.lwe, b)),
            r is Ok,
    {
        Ok(Request::AddConstant { a: &a.lwe, constant: b })
    }

    /// The product of `a` and the constant `b`. Under the standard encoding
    /// every constant is to be had; under an encoding of more than 32 bits a
    /// constant above `i32::MAX` is refused.
    pub fn mul_u32<'r, C>(&self, a: &'r Ciphertext<C>, b: u32) -> (r: Result<
        Request<'r, 'a, C, B>,
        Error,
    >)
        ensures
            planned(r) == self@.plan(Operation::MulScalar(a.lwe, b)),
            r is Ok <==> multiplier_fits(b, self@.encoder.nb_bit_precision),
    {
        if b <= 0x7fff_ffff || self.encoder.nb_bit_precision() <= MAX_WRAPPING_BITS {
            Ok(Request::MulConstant { a: &a.lwe, factor: scalar_multiplier(b) })
        } else {
            Err(Error::Parameter(ParameterError::ScalarOutOfRange))
        }
    }

    /// The sum of `a` and `b`, to be written to `a`: what `a` holds when
    /// the borrow ends is what the primitive library has written to the
    /// target of the update.
    pub fn add_inplace<'r, C>(&self, a: &'r mut Ciphertext<C>, b: &'r Ciphertext<C>) -> (r: Result<
        Update<'r, C>,
        Error,
    >)
        ensures
            r is Ok,
            Ok::<_, Error>(r->Ok_0.request::<B>()) == self@.plan(
                Operation::Add(old(a).lwe, b.lwe),
            ),
            r matches Ok(Update::Add { a: target, .. }) && final(a).lwe == *final(target),
    {
        Ok(Update::Add { a: &mut a.lwe, b: &b.lwe, new_min: self.encoder.min() })
    }

    /// The sum of `a` and the constant `b`, to be written to `a`.
    pub fn add_u32_inplace<'r, C>(&self, a: &'r mut Ciphertext<C>, b: u32) -> (r: Result<
        Update<'r, C>,
        Error,
    >)
        ensures
            r is Ok,
            Ok::<_, Error>(r->Ok_0.request::<B>()) == self@.plan(
                Operation::AddScalar(old(a).lwe, b),
            ),
            r matches Ok(Update::AddConstant { a: target, .. }) && final(a).lwe == *final(target),
    {
        Ok(Update::AddConstant { a: &mut a.lwe, constant: b })
    }

    /// The product of `a` and the constant `b`, to be written to `a`. Where
    /// `mul_u32` refuses the constant, this does, and `a` stays as it is.
    pub fn mul_u32_inplace<'r, C>(&self, a: &'r mut Ciphertext<C>, b: u32) -> (r: Result<
        Update<'r, C>,
        Error,
    >)
        ensures
            r is Ok <==> multiplier_fits(b, self@.encoder.nb_bit_precision),
            match r {
                Ok(update) => {
                    &&& Ok::<_, Error>(update.request::<B>()) == self@.plan(
                        Operation::MulScalar(old(a).lwe, b),
                    )
                    &&& update matches Update::MulConstant { a: target, .. } && final(a).lwe
                        == *final(target)
                },
                Err(e) => {
                    &&& e == Error::Parameter(ParameterError::ScalarOutOfRange)
                    &&& *final(a) == *old(a)
                },
            },
    {
        if b <= 0x7fff_ffff || self.encoder.nb_bit_precision() <= MAX_WRAPPING_BITS {
            Ok(Update::MulConstant { a: &mut a.lwe, factor: scalar_multiplier(b) })
        } else {
            Err(Error::Parameter(ParameterError::ScalarOutOfRange))
        }
    }

    /// The bootstrap of `a` through a function that the caller hands to the
    /// primitive library with the request. It refreshes the noise of `a`
    /// and is the one way to apply a function that is not linear. An
    /// evaluator without a public key refuses it.
    pub fn bootstrap_with_function<'r, C>(&self, a: &'r Ciphertext<C>) -> (r: Result<
        Request<'r, 'a, C, B>,
        Error,
    >)
        ensures
            planned(r) == self@.plan(Operation::BootstrapWithFunction(a.lwe)),
            r is Ok <==> self@.pk is Some,
    {
        match self.pk {
            Some(pk) => Ok(
                Request::Bootstrap {
                    a: &a.lwe,
                    key: &pk.bootstrapping_key,
                    lookup: Lookup::Caller,
                    encoder: self.encoder,
                },
            ),
            None => Err(Error::Parameter(ParameterError::MissingPublicKey)),
        }
    }

    /// The product of `a` and `b`, which goes through bootstraps: the scheme
    /// has no direct product of two ciphertexts. An evaluator without a
    /// public key refuses it.
    pub fn mul_and_bootstrap<'r, C>(&self, a: &'r Ciphertext<C>, b: &'r Ciphertext<C>) -> (r:
        Result<Request<'r, 'a, C, B>, Error>)
        ensures
            planned(r) == self@.plan(Operation::MulAndBootstrap(a.lwe, b.lwe)),
            r is Ok <==> self@.pk is Some,
    {
        match self.pk {
            Some(pk) => Ok(
                Request::MulFromBootstrap { a: &a.lwe, b: &b.lwe, key: &pk.bootstrapping_key },
            ),
            None => Err(Error::Parameter(ParameterError::MissingPublicKey)),
        }
    }

    /// `max(x, 0)` by bootstrap. Cleartexts are unsigned, so it changes
    /// none of them and only refreshes the noise. An evaluator without a
    /// public key refuses it.
    pub fn relu<'r, C>(&self, x: &'r Ciphertext<C>) -> (r: Result<Request<'r, 'a, C, B>, Error>)
        ensures
            planned(r) == self@.plan(Operation::Relu(x.lwe)),
            r is Ok <==> self@.pk is Some,
    {
        match self.pk {
            Some(pk) => Ok(
                Request::Bootstrap {
                    a: &x.lwe,
                    key: &pk.bootstrapping_key,
                    lookup: Lookup::Relu,
                    encoder: self.encoder,
                },
            ),
            None => Err(Error::Parameter(ParameterError::MissingPublicKey)),
        }
    }
}

/// An operation that goes through a bootstrap is to be had exactly when the
/// evaluator holds a public key; of the others only a product with a scalar
/// that has no multiplier is refused. So a levelled evaluator under the
/// standard encoding offers every linear operation and no other.
pub proof fn lemma_plan_is_gated_by_the_key<C, B>(evaluator: EvaluatorSpec<B>, op: Operation<C>)
    ensures
        op.requires_public_key() ==> (evaluator.plan(op) is Ok <==> evaluator.pk is Some),
        op.requires_public_key() && evaluator.pk is None ==> evaluator.plan(op)
            == Err::<RequestSpec<C, B>, _>(Error::Parameter(ParameterError::MissingPublicKey)),
        !op.requires_public_key() ==> (evaluator.plan(op) is Ok <==> (op matches
            Operation::MulScalar(_, k) ==> multiplier_fits(
            k,
            evaluator.encoder.nb_bit_precision,
        ))),
        !op.requires_public_key() && evaluator.encoder == standard_encoding_spec()
            ==> evaluator.plan(op) is Ok,
{
}

/// What an evaluator asks of the primitive library is what the operation
/// means. The cleartext asked for is that of the operation: the same number
/// for every operation but the product with a scalar above `i32::MAX`, and
/// there the same modulo the number of cleartexts of the evaluator's
/// encoding.
pub proof fn lemma_plan_asks_for_the_meaning<C, B>(
    evaluator: EvaluatorSpec<B>,
    op: Operation<C>,
    clear: spec_fn(C) -> int,
    f: spec_fn(int) -> int,
)
    requires
        evaluator.encoder.wf(),
        evaluator.plan(op) is Ok,
    ensures
        ({
            let asked = evaluator.plan(op)->Ok_0.cleartext(clear, f);
            let meant = op.meaning(clear, f);
            &&& (asked - meant) % (pow2(evaluator.encoder.nb_bit_precision) as int) == 0
            &&& !(op matches Operation::MulScalar(_, k) && k > i32::MAX) ==> asked == meant
        }),
{
    let asked = evaluator.plan(op)->Ok_0.cleartext(clear, f);
    let meant = op.meaning(clear, f);
    let bits = evaluator.encoder.nb_bit_precision;
    lemma_pow2_pos(bits);
    lemma_small_mod(0, pow2(bits));
    match op {
        Operation::MulScalar(a, k) => {
            if k > i32::MAX {
                lemma_multiplier_scales(clear(a), k);
                lemma_pow2_adds(bits, (32 - bits) as nat);
                lemma2_to64();
                lemma_pow2_pos((32 - bits) as nat);
                let q = (asked - meant) / 0x1_0000_0000;
                lemma_fundamental_div_mod(asked - meant, 0x1_0000_0000);
                assert(asked - meant == (q * pow2((32 - bits) as nat)) * pow2(bits))
                    by (nonlinear_arith)
                    requires
                        asked - meant == 0x1_0000_0000 * q,
                        pow2(bits) * pow2((32 - bits) as nat) == 0x1_0000_0000,
                ;
                lemma_mod_multiples_basic(q * pow2((32 - bits) as nat), pow2(bits) as int);
            }
        },
        _ => {},
    }
}

/// Under the standard encoding every `u32` is a cleartext.
pub proof fn lemma_standard_encoding_holds_every_u32(m: u32)
    ensures
        standard_encoding_spec().wf(),
        standard_encoding_spec().contains(m as nat),
{
    lemma2_to64();
}

} // verus!
