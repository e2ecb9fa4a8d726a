use vstd::prelude::*;

use crate::array::ArrayValueTree;
use crate::array::UniformArrayStrategy;
use crate::filter::FilterFn;
use crate::filter::FilterStrategy;
use crate::filter::FilterValueTree;
use crate::map::MapFn;
use crate::map::MapStrategy;
use crate::map::MapValueTree;
use crate::num::IntRangeStrategy;
use crate::num::IntValueTree;
use crate::strategy::Modeled;
use crate::strategy::Strategy;
use crate::strategy::ValueTree;

verus! {

/// An unsigned byte that is never zero, whatever produced it.
#[derive(Clone, Copy, Debug, PartialEq, Eq, Structural)]
pub struct NonZeroByte {
    value: u8,
}

impl NonZeroByte {
    #[verifier::type_invariant]
    spec fn type_inv(&self) -> bool {
        self.value != 0
    }

    /// Wraps a byte known to be non-zero.
    pub fn new(value: u8) -> (r: NonZeroByte)
        requires
            value != 0,
        ensures
            r.model() == value,
    {
        NonZeroByte { value }
    }

    /// The byte. Law: it is never zero.
    pub fn get(&self) -> (r: u8)
        ensures
            r == self.model(),
            r != 0,
    {
        proof {
            use_type_invariant(self);
        }
        self.value
    }
}

impl Modeled for NonZeroByte {
    type Model = u8;

    closed spec fn model(&self) -> u8 {
        self.value
    }
}

/// The predicate of the non-zero generator: the drawn word is not zero.
#[derive(Clone, Copy, Debug)]
pub struct NonZeroPred;

impl FilterFn<IntValueTree> for NonZeroPred {
    open spec fn pred(&self, m: u64) -> bool {
        m != 0
    }

    fn eval(&self, v: &u64) -> (r: bool) {
        *v != 0
    }
}

/// The witnessing conversion at the end of the non-zero generator: a total
/// map into [`NonZeroByte`], so it cannot fail on any value the filter lets
/// through — and on no other value either.
#[derive(Clone, Copy, Debug)]
pub struct NonZeroByteFromWord;

impl MapFn<FilterValueTree<IntValueTree, NonZeroPred>> for NonZeroByteFromWord {
    type Output = NonZeroByte;

    open spec fn map_model(&self, m: u64) -> u8 {
        if m % 256 == 0 {
            1u8
        } else {
            (m % 256) as u8
        }
    }

    fn apply(&self, v: u64) -> (o: NonZeroByte) {
        let b = (v % 256) as u8;
        if b == 0 {
            NonZeroByte { value: 1 }
        } else {
            NonZeroByte { value: b }
        }
    }
}

/// The tree of the non-zero byte generator.
pub type NonZeroByteTree = MapValueTree<FilterValueTree<IntValueTree, NonZeroPred>, NonZeroByteFromWord>;

/// A strategy producing non-zero unsigned bytes: a filter with predicate
/// "not zero" over the byte range, then the witnessing conversion.
pub fn any_non_zero_u8() -> (s: MapStrategy<
    FilterStrategy<IntRangeStrategy, NonZeroPred>,
    NonZeroByteFromWord,
>)
    ensures
        s.wf(),
        s.source_strategy().source_strategy() == (IntRangeStrategy { lo: 0, hi: 255 }),
        s.source_strategy().predicate_spec() == (NonZeroPred),
        s.func_spec() == (NonZeroByteFromWord),
{
    MapStrategy::new(
        FilterStrategy::new(IntRangeStrategy::new(0, 255), "must be non-zero", NonZeroPred),
        NonZeroByteFromWord,
    )
}

/// Law: the non-zero generator never exposes zero — at the draw and after
/// every shrink step, the byte a well-formed tree of this generator stands
/// for is not zero.
pub proof fn lemma_non_zero_never_zero(t: NonZeroByteTree)
    requires
        t.wf(),
        t.func_spec() == (NonZeroByteFromWord),
    ensures
        t.current_model() != 0,
{
}

/// Law (rejection propagates): a composite over an element whose filter can
/// never be satisfied — here "not zero" over the single-value range `[0, 0]`
/// — accepts no tree at all, so by the contract of `new_tree` every draw from
/// it returns `Reject`.
pub proof fn lemma_unsatisfiable_element_rejects(
    s: UniformArrayStrategy<FilterStrategy<IntRangeStrategy, NonZeroPred>>,
    t: ArrayValueTree<FilterValueTree<IntValueTree, NonZeroPred>>,
)
    requires
        s.element_strategy().source_strategy() == (IntRangeStrategy { lo: 0, hi: 0 }),
        s.arity() >= 1,
    ensures
        !(t.wf() && s.accepts(t)),
{
    if t.wf() && s.accepts(t) {
        let sub = t.sub_trees()[0];
        assert(s.element_strategy().accepts(sub));
        assert(sub.source_tree().current_model() == 0);
        assert(sub.wf());
        assert(NonZeroPred.pred(sub.source_tree().current_model()));
    }
}

/// A word that is never zero, whatever produced it.
#[derive(Clone, Copy, Debug, PartialEq, Eq, Structural)]
pub struct NonZeroWord {
    value: u64,
}

impl NonZeroWord {
    #[verifier::type_invariant]
    spec fn type_inv(&self) -> bool {
        self.value != 0
    }

    /// Wraps a word known to be non-zero.
    pub fn new(value: u64) -> (r: NonZeroWord)
        requires
            value != 0,
        ensures
            r.model() == value,
    {
        NonZeroWord { value }
    }

    /// The word. Law: it is never zero.
    pub fn get(&self) -> (r: u64)
        ensures
            r == self.model(),
            r != 0,
    {
        proof {
            use_type_invariant(self);
        }
        self.value
    }
}

impl Modeled for NonZeroWord {
    type Model = u64;

    closed spec fn model(&self) -> u64 {
        self.value
    }
}

/// The witnessing conversion of the non-zero word generator.
#[derive(Clone, Copy, Debug)]
pub struct NonZeroWordFromWord;

impl MapFn<FilterValueTree<IntValueTree, NonZeroPred>> for NonZeroWordFromWord {
    type Output = NonZeroWord;

    open spec fn map_model(&self, m: u64) -> u64 {
        if m == 0 {
            1u64
        } else {
            m
        }
    }

    fn apply(&self, v: u64) -> (o: NonZeroWord) {
        if v == 0 {
            NonZeroWord { value: 1 }
        } else {
            NonZeroWord { value: v }
        }
    }
}

/// A signed integer that is never zero, whatever produced it.
#[derive(Clone, Copy, Debug, PartialEq, Eq, Structural)]
pub struct NonZeroSigned {
    value: i64,
}

impl NonZeroSigned {
    #[verifier::type_invariant]
    spec fn type_inv(&self) -> bool {
        self.value != 0
    }

    /// Wraps a value known to be non-zero.
    pub fn new(value: i64) -> (r: NonZeroSigned)
        requires
            value != 0,
        ensures
            r.model() == value,
    {
        NonZeroSigned { value }
    }

    /// The value. Law: it is never zero.
    pub fn get(&self) -> (r: i64)
        ensures
            r == self.model(),
            r != 0,
    {
        proof {
            use_type_invariant(self);
        }
        self.value
    }
}

impl Modeled for NonZeroSigned {
    type Model = i64;

    closed spec fn model(&self) -> i64 {
        self.value
    }
}

/// The signed reading of the low `bits` bits of a drawn word, in two's
/// complement; the widths are the table of supported signed types.
pub open spec fn signed_of(m: u64, bits: u32) -> i64 {
    if bits == 8 {
        ((m as u8) as i8) as i64
    } else if bits == 16 {
        ((m as u16) as i16) as i64
    } else if bits == 32 {
        ((m as u32) as i32) as i64
    } else {
        m as i64
    }
}

/// The witnessing conversion of the signed non-zero generators: the drawn
/// pattern reinterpreted at its width.
#[derive(Clone, Copy, Debug)]
pub struct NonZeroSignedFromWord {
    /// The width of the signed type, in bits.
    pub bits: u32,
}

impl MapFn<FilterValueTree<IntValueTree, NonZeroPred>> for NonZeroSignedFromWord {
    type Output = NonZeroSigned;

    open spec fn map_model(&self, m: u64) -> i64 {
        if signed_of(m, self.bits) == 0 {
            1i64
        } else {
            signed_of(m, self.bits)
        }
    }

    fn apply(&self, v: u64) -> (o: NonZeroSigned) {
        let s: i64 = if self.bits == 8 {
            ((v as u8) as i8) as i64
        } else if self.bits == 16 {
            ((v as u16) as i16) as i64
        } else if self.bits == 32 {
            ((v as u32) as i32) as i64
        } else {
            v as i64
        };
        if s == 0 {
            NonZeroSigned { value: 1 }
        } else {
            NonZeroSigned { value: s }
        }
    }
}

/// The largest value an unsigned integer of `bits` bits can hold.
pub open spec fn width_max(bits: u32) -> u64 {
    if bits >= 64 {
        u64::MAX
    } else {
        ((1u64 << bits) - 1) as u64
    }
}

/// A strategy producing non-zero unsigned integers of the given width, up to
/// 64 bits: one filter-then-witness construction, parameterized over the
/// width instead of repeated per type.
pub fn any_non_zero_uint(bits: u32) -> (s: MapStrategy<
    FilterStrategy<IntRangeStrategy, NonZeroPred>,
    NonZeroWordFromWord,
>)
    requires
        1 <= bits <= 64,
    ensures
        s.wf(),
        s.source_strategy().source_strategy() == (IntRangeStrategy {
            lo: 0,
            hi: width_max(bits),
        }),
        s.source_strategy().predicate_spec() == (NonZeroPred),
        s.func_spec() == (NonZeroWordFromWord),
{
    let hi: u64 = if bits >= 64 {
        u64::MAX
    } else {
        proof {
            assert(1u64 << bits >= 1) by (bit_vector)
                requires
                    bits < 64,
            ;
        }
        (1u64 << bits) - 1
    };
    MapStrategy::new(
        FilterStrategy::new(IntRangeStrategy::new(0, hi), "must be non-zero", NonZeroPred),
        NonZeroWordFromWord,
    )
}

/// A 128-bit unsigned integer that is never zero, whatever produced it.
#[derive(Clone, Copy, Debug, PartialEq, Eq, Structural)]
pub struct NonZeroWide {
    value: u128,
}

impl NonZeroWide {
    #[verifier::type_invariant]
    spec fn type_inv(&self) -> bool {
        self.value != 0
    }

    /// Wraps a value known to be non-zero.
    pub fn new(value: u128) -> (r: NonZeroWide)
        requires
            value != 0,
        ensures
            r.model() == value,
    {
        NonZeroWide { value }
    }

    /// The value. Law: it is never zero.
    pub fn get(&self) -> (r: u128)
        ensures
            r == self.model(),
            r != 0,
    {
        proof {
            use_type_invariant(self);
        }
        self.value
    }
}

impl Modeled for NonZeroWide {
    type Model = u128;

    closed spec fn model(&self) -> u128 {
        self.value
    }
}

/// The word a block holds at an index, zero past its end.
pub open spec fn word_at(m: Seq<u64>, i: int) -> u64 {
    if 0 <= i < m.len() {
        m[i]
    } else {
        0u64
    }
}

/// The predicate of the wide non-zero generator: some word of the drawn
/// block is not zero.
#[derive(Clone, Copy, Debug)]
pub struct AnyWordNonZero;

impl FilterFn<ArrayValueTree<IntValueTree>> for AnyWordNonZero {
    open spec fn pred(&self, m: Seq<u64>) -> bool {
        exists|i: int| 0 <= i < m.len() && m[i] != 0
    }

    fn eval(&self, v: &Vec<u64>) -> (r: bool) {
        let mut i: usize = 0;
        while i < v.len()
            invariant
                i <= v@.len(),
                forall|k: int| 0 <= k < i ==> v@[k] == 0,
            decreases v@.len() - i,
        {
            if v[i] != 0 {
                proof {
                    assert(v.model()[i as int] == v@[i as int]);
                }
                return true;
            }
            i = i + 1;
        }
        proof {
            assert forall|k: int| 0 <= k < v.model().len() implies v.model()[k] == 0 by {
                assert(v.model()[k] == v@[k]);
            }
        }
        false
    }
}

/// The witnessing conversion of the wide non-zero generator: the two words
/// of the block combined little-endian into one 128-bit value.
#[derive(Clone, Copy, Debug)]
pub struct NonZeroWideFromWords;

impl MapFn<FilterValueTree<ArrayValueTree<IntValueTree>, AnyWordNonZero>> for NonZeroWideFromWords {
    type Output = NonZeroWide;

    open spec fn map_model(&self, m: Seq<u64>) -> u128 {
        let c = (word_at(m, 0) as int + word_at(m, 1) as int * 0x10000000000000000) as u128;
        if c == 0 {
            1u128
        } else {
            c
        }
    }

    fn apply(&self, v: Vec<u64>) -> (o: NonZeroWide) {
        let w0: u64 = if v.len() > 0 {
            v[0]
        } else {
            0
        };
        let w1: u64 = if v.len() > 1 {
            v[1]
        } else {
            0
        };
        proof {
            if v@.len() > 0 {
                assert(v.model()[0] == v@[0]);
            }
            if v@.len() > 1 {
                assert(v.model()[1] == v@[1]);
            }
        }
        let c: u128 = (w0 as u128) + (w1 as u128) * 0x10000000000000000u128;
        if c == 0 {
            NonZeroWide { value: 1 }
        } else {
            NonZeroWide { value: c }
        }
    }
}

/// A strategy producing non-zero 128-bit integers: the filter asks that some
/// word of a two-word block is non-zero, and the witnessing conversion
/// combines the block into a value that is then itself non-zero.
pub fn any_non_zero_u128() -> (s: MapStrategy<
    FilterStrategy<UniformArrayStrategy<IntRangeStrategy>, AnyWordNonZero>,
    NonZeroWideFromWords,
>)
    ensures
        s.wf(),
        s.source_strategy().source_strategy().element_strategy() == (IntRangeStrategy {
            lo: 0,
            hi: u64::MAX,
        }),
        s.source_strategy().source_strategy().arity() == 2,
        s.source_strategy().predicate_spec() == (AnyWordNonZero),
        s.func_spec() == (NonZeroWideFromWords),
{
    MapStrategy::new(
        FilterStrategy::new(
            crate::array::uniform(IntRangeStrategy::new(0, u64::MAX), 2),
            "must be non-zero",
            AnyWordNonZero,
        ),
        NonZeroWideFromWords,
    )
}

/// A strategy producing non-zero signed integers of the given width: the
/// same filter-then-witness construction, ending in the signed
/// reinterpretation of the drawn pattern. A non-zero pattern of the width
/// reads as a non-zero signed value, so the conversion is the identity on
/// everything the filter lets through.
pub fn any_non_zero_int(bits: u32) -> (s: MapStrategy<
    FilterStrategy<IntRangeStrategy, NonZeroPred>,
    NonZeroSignedFromWord,
>)
    requires
        bits == 8 || bits == 16 || bits == 32 || bits == 64,
    ensures
        s.wf(),
        s.source_strategy().source_strategy() == (IntRangeStrategy {
            lo: 0,
            hi: width_max(bits),
        }),
        s.source_strategy().predicate_spec() == (NonZeroPred),
        s.func_spec() == (NonZeroSignedFromWord { bits }),
{
    let hi: u64 = if bits >= 64 {
        u64::MAX
    } else {
        proof {
            assert(1u64 << bits >= 1) by (bit_vector)
                requires
                    bits < 64,
            ;
        }
        (1u64 << bits) - 1
    };
    MapStrategy::new(
        FilterStrategy::new(IntRangeStrategy::new(0, hi), "must be non-zero", NonZeroPred),
        NonZeroSignedFromWord { bits },
    )
}

/// A strategy producing non-zero words: the same construction as the byte
/// generator, over the full word range.
pub fn any_non_zero_u64() -> (s: MapStrategy<
    FilterStrategy<IntRangeStrategy, NonZeroPred>,
    NonZeroWordFromWord,
>)
    ensures
        s.wf(),
        s.source_strategy().source_strategy() == (IntRangeStrategy { lo: 0, hi: u64::MAX }),
        s.source_strategy().predicate_spec() == (NonZeroPred),
        s.func_spec() == (NonZeroWordFromWord),
{
    MapStrategy::new(
        FilterStrategy::new(
            IntRangeStrategy::new(0, u64::MAX),
            "must be non-zero",
            NonZeroPred,
        ),
        NonZeroWordFromWord,
    )
}

} // verus!
