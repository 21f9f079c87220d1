//! The encoding context shared by encryption and evaluation.
use vstd::prelude::*;
use vstd::arithmetic::power2::pow2;
use vstd::arithmetic::power2::lemma_pow2_pos;
use vstd::arithmetic::power2::lemma_pow2_strictly_increases;
use vstd::bits::lemma_u64_pow2_no_overflow;
use vstd::bits::lemma_u64_shl_is_mul;
use crate::zq::error::ParameterError;

verus! {

/// The widest cleartext an encoding context can be asked for, in bits: the
/// number of cleartexts, `2^bits`, has to fit a signed word of 64 bits.
pub const MAX_PRECISION_BITS: usize = 62;

/// What an encoding context stands for: the closed interval of cleartexts,
/// the number of bits that represent one, and the zero bits kept above them.
pub struct EncodingSpec {
    pub min: nat,
    pub max: nat,
    pub nb_bit_precision: nat,
    pub nb_bit_padding: nat,
}

impl EncodingSpec {
    /// The context for cleartexts of `nb_bit_precision` bits: `[0, 2^bits - 1]`.
    pub open spec fn of(nb_bit_precision: nat, nb_bit_padding: nat) -> EncodingSpec {
        EncodingSpec {
            min: 0,
            max: (pow2(nb_bit_precision) - 1) as nat,
            nb_bit_precision,
            nb_bit_padding,
        }
    }

    /// The interval starts at zero and spans exactly the cleartexts of the
    /// configured width.
    pub open spec fn wf(self) -> bool {
        &&& 1 <= self.nb_bit_precision <= MAX_PRECISION_BITS
        &&& self == EncodingSpec::of(self.nb_bit_precision, self.nb_bit_padding)
    }

    /// Whether the cleartext `m` lies in the interval.
    pub open spec fn contains(self, m: nat) -> bool {
        self.min <= m <= self.max
    }

    /// Two contexts interpret each other's ciphertexts when they agree on
    /// cleartext width and on padding.
    pub open spec fn compatible(self, other: EncodingSpec) -> bool {
        self.nb_bit_precision == other.nb_bit_precision && self.nb_bit_padding
            == other.nb_bit_padding
    }
}

/// A numeric encoding: which cleartexts can be encrypted and how many bits
/// they take. Only `new` makes one, so every context is well formed.
#[derive(Clone, Copy, Debug)]
pub struct EncodingContext {
    min: u64,
    max: u64,
    nb_bit_precision: usize,
    nb_bit_padding: usize,
}

impl View for EncodingContext {
    type V = EncodingSpec;

    closed spec fn view(&self) -> EncodingSpec {
        EncodingSpec {
            min: self.min as nat,
            max: self.max as nat,
            nb_bit_precision: self.nb_bit_precision as nat,
            nb_bit_padding: self.nb_bit_padding as nat,
        }
    }
}

impl EncodingContext {
    #[verifier::type_invariant]
    spec fn inv(self) -> bool {
        self@.wf()
    }

    /// The context for cleartexts of `nb_bit_precision` bits with
    /// `nb_bit_padding` bits of padding. A width of zero bits, or one above
    /// `MAX_PRECISION_BITS`, is refused.
    pub fn new(nb_bit_precision: usize, nb_bit_padding: usize) -> (r: Result<
        EncodingContext,
        ParameterError,
    >)
        ensures
            match r {
                Ok(ctx) => {
                    &&& 1 <= nb_bit_precision <= MAX_PRECISION_BITS
                    &&& ctx@ == EncodingSpec::of(nb_bit_precision as nat, nb_bit_padding as nat)
                    &&& ctx@.wf()
                },
                Err(e) => {
                    ||| nb_bit_precision == 0 && e == ParameterError::ZeroPrecision
                    ||| nb_bit_precision > MAX_PRECISION_BITS && e
                        == ParameterError::PrecisionTooWide
                },
            },
    {
        if nb_bit_precision == 0 {
            return Err(ParameterError::ZeroPrecision);
        }
        if nb_bit_precision > MAX_PRECISION_BITS {
            return Err(ParameterError::PrecisionTooWide);
        }
        let shift: u64 = nb_bit_precision as u64;
        proof {
            lemma_u64_pow2_no_overflow(shift as nat);
            lemma_u64_shl_is_mul(1u64, shift);
        }
        let limit: u64 = 1u64 << shift;
        Ok(EncodingContext { min: 0, max: limit - 1, nb_bit_precision, nb_bit_padding })
    }

    /// The smallest cleartext of the interval.
    pub fn min(&self) -> (r: u64)
        ensures
            r == self@.min,
            self@.wf(),
    {
        proof {
            use_type_invariant(self);
        }
        self.min
    }

    /// The largest cleartext of the interval.
    pub fn max(&self) -> (r: u64)
        ensures
            r == self@.max,
            self@.wf(),
    {
        proof {
            use_type_invariant(self);
        }
        self.max
    }

    /// The number of bits that represent a cleartext.
    pub fn nb_bit_precision(&self) -> (r: usize)
        ensures
            r == self@.nb_bit_precision,
            self@.wf(),
    {
        proof {
            use_type_invariant(self);
        }
        self.nb_bit_precision
    }

    /// The number of zero bits kept above the cleartext.
    pub fn nb_bit_padding(&self) -> (r: usize)
        ensures
            r == self@.nb_bit_padding,
            self@.wf(),
    {
        proof {
            use_type_invariant(self);
        }
        self.nb_bit_padding
    }

    /// Whether the cleartext `m` lies in the interval of this context.
    pub fn contains(&self, m: u64) -> (r: bool)
        ensures
            r == self@.contains(m as nat),
            self@.wf(),
    {
        proof {
            use_type_invariant(self);
        }
        self.min <= m && m <= self.max
    }

    /// Whether ciphertexts made under `other` can be interpreted under `self`.
    pub fn compatible(&self, other: &EncodingContext) -> (r: bool)
        ensures
            r == self@.compatible(other@),
    {
        self.nb_bit_precision == other.nb_bit_precision && self.nb_bit_padding
            == other.nb_bit_padding
    }
}

/// Contexts of equal width and padding are the same context: they agree on
/// every cleartext.
pub proof fn lemma_compatible_contexts_agree(a: EncodingSpec, b: EncodingSpec)
    requires
        a.wf(),
        b.wf(),
        a.compatible(b),
    ensures
        a == b,
        forall|m: nat| a.contains(m) == b.contains(m),
{
}

/// A wider context admits every cleartext of a narrower one.
pub proof fn lemma_wider_context_contains(a: EncodingSpec, b: EncodingSpec, m: nat)
    requires
        a.wf(),
        b.wf(),
        a.nb_bit_precision <= b.nb_bit_precision,
        a.contains(m),
    ensures
        b.contains(m),
{
    lemma_pow2_pos(a.nb_bit_precision);
    lemma_pow2_pos(b.nb_bit_precision);
    if a.nb_bit_precision < b.nb_bit_precision {
        lemma_pow2_strictly_increases(a.nb_bit_precision, b.nb_bit_precision);
    }
}

} // verus!
