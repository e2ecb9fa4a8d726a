use vstd::prelude::*;

use crate::array::uniform;
use crate::array::ArrayValueTree;
use crate::array::UniformArrayStrategy;
use crate::map::MapFn;
use crate::map::MapStrategy;
use crate::num::IntRangeStrategy;
use crate::num::IntValueTree;
use crate::strategy::Modeled;
use crate::strategy::Strategy;

verus! {

// The fixed-width hash and big-integer types whose generators live here are
// the types of the `primitive_types` crate; they are opaque to verification,
// so each is declared here and its stored data is given a name that the
// wrappers below speak about.

#[verifier::external_type_specification]
#[verifier::external_body]
pub struct ExH128(primitive_types::H128);

#[verifier::external_type_specification]
#[verifier::external_body]
pub struct ExH160(primitive_types::H160);

#[verifier::external_type_specification]
#[verifier::external_body]
pub struct ExH256(primitive_types::H256);

#[verifier::external_type_specification]
#[verifier::external_body]
pub struct ExH512(primitive_types::H512);

#[verifier::external_type_specification]
#[verifier::external_body]
pub struct ExU128(primitive_types::U128);

#[verifier::external_type_specification]
#[verifier::external_body]
pub struct ExU256(primitive_types::U256);

#[verifier::external_type_specification]
#[verifier::external_body]
pub struct ExU512(primitive_types::U512);

/// The 16 bytes a `primitive_types::H128` stores.
pub uninterp spec fn h128_bytes(h: primitive_types::H128) -> Seq<u8>;

/// The 20 bytes a `primitive_types::H160` stores.
pub uninterp spec fn h160_bytes(h: primitive_types::H160) -> Seq<u8>;

/// The 32 bytes a `primitive_types::H256` stores.
pub uninterp spec fn h256_bytes(h: primitive_types::H256) -> Seq<u8>;

/// The 64 bytes a `primitive_types::H512` stores.
pub uninterp spec fn h512_bytes(h: primitive_types::H512) -> Seq<u8>;

/// The 2 little-endian words a `primitive_types::U128` stores.
pub uninterp spec fn u128_words(u: primitive_types::U128) -> Seq<u64>;

/// The 4 little-endian words a `primitive_types::U256` stores.
pub uninterp spec fn u256_words(u: primitive_types::U256) -> Seq<u64>;

/// The 8 little-endian words a `primitive_types::U512` stores.
pub uninterp spec fn u512_words(u: primitive_types::U512) -> Seq<u64>;

impl Modeled for primitive_types::H128 {
    type Model = Seq<u8>;

    open spec fn model(&self) -> Seq<u8> {
        h128_bytes(*self)
    }
}

impl Modeled for primitive_types::H160 {
    type Model = Seq<u8>;

    open spec fn model(&self) -> Seq<u8> {
        h160_bytes(*self)
    }
}

impl Modeled for primitive_types::H256 {
    type Model = Seq<u8>;

    open spec fn model(&self) -> Seq<u8> {
        h256_bytes(*self)
    }
}

impl Modeled for primitive_types::H512 {
    type Model = Seq<u8>;

    open spec fn model(&self) -> Seq<u8> {
        h512_bytes(*self)
    }
}

impl Modeled for primitive_types::U128 {
    type Model = Seq<u64>;

    open spec fn model(&self) -> Seq<u64> {
        u128_words(*self)
    }
}

impl Modeled for primitive_types::U256 {
    type Model = Seq<u64>;

    open spec fn model(&self) -> Seq<u64> {
        u256_words(*self)
    }
}

impl Modeled for primitive_types::U512 {
    type Model = Seq<u64>;

    open spec fn model(&self) -> Seq<u64> {
        u512_words(*self)
    }
}

/// Relies on primitive_types::H128::from_slice, which copies the given bytes
/// into the hash and panics on any length other than 16.
#[verifier::external_body]
fn h128_from_bytes(b: &Vec<u8>) -> (r: primitive_types::H128)
    requires
        b@.len() == 16,
    ensures
        h128_bytes(r) == b@,
{
    primitive_types::H128::from_slice(b.as_slice())
}

/// Relies on primitive_types::H160::from_slice, which copies the given bytes
/// into the hash and panics on any length other than 20.
#[verifier::external_body]
fn h160_from_bytes(b: &Vec<u8>) -> (r: primitive_types::H160)
    requires
        b@.len() == 20,
    ensures
        h160_bytes(r) == b@,
{
    primitive_types::H160::from_slice(b.as_slice())
}

/// Relies on primitive_types::H256::from_slice, which copies the given bytes
/// into the hash and panics on any length other than 32.
#[verifier::external_body]
fn h256_from_bytes(b: &Vec<u8>) -> (r: primitive_types::H256)
    requires
        b@.len() == 32,
    ensures
        h256_bytes(r) == b@,
{
    primitive_types::H256::from_slice(b.as_slice())
}

/// Relies on primitive_types::H512::from_slice, which copies the given bytes
/// into the hash and panics on any length other than 64.
#[verifier::external_body]
fn h512_from_bytes(b: &Vec<u8>) -> (r: primitive_types::H512)
    requires
        b@.len() == 64,
    ensures
        h512_bytes(r) == b@,
{
    primitive_types::H512::from_slice(b.as_slice())
}

/// Relies on the primitive_types::U128 tuple constructor, which stores the 2
/// given words as the little-endian representation.
#[verifier::external_body]
fn u128_from_words(w: &Vec<u64>) -> (r: primitive_types::U128)
    requires
        w@.len() == 2,
    ensures
        u128_words(r) == w@,
{
    primitive_types::U128([w[0], w[1]])
}

/// Relies on the primitive_types::U256 tuple constructor, which stores the 4
/// given words as the little-endian representation.
#[verifier::external_body]
fn u256_from_words(w: &Vec<u64>) -> (r: primitive_types::U256)
    requires
        w@.len() == 4,
    ensures
        u256_words(r) == w@,
{
    primitive_types::U256([w[0], w[1], w[2], w[3]])
}

/// Relies on the primitive_types::U512 tuple constructor, which stores the 8
/// given words as the little-endian representation.
#[verifier::external_body]
fn u512_from_words(w: &Vec<u64>) -> (r: primitive_types::U512)
    requires
        w@.len() == 8,
    ensures
        u512_words(r) == w@,
{
    primitive_types::U512([w[0], w[1], w[2], w[3], w[4], w[5], w[6], w[7]])
}

/// The `width` bytes that a block of entropy words denotes: the low byte of
/// each word, padded with zeroes past the block's end.
pub open spec fn bytes_of_words(m: Seq<u64>, width: int) -> Seq<u8> {
    Seq::new(
        width as nat,
        |i: int|
            if 0 <= i < m.len() {
                (m[i] % 256) as u8
            } else {
                0u8
            },
    )
}

/// The `width` words that a block of entropy words denotes, padded with
/// zeroes past the block's end.
pub open spec fn words_padded(m: Seq<u64>, width: int) -> Seq<u64> {
    Seq::new(
        width as nat,
        |i: int|
            if 0 <= i < m.len() {
                m[i]
            } else {
                0u64
            },
    )
}

/// Law: on a block of the declared width whose words are in byte range, the
/// byte construction preserves the block exactly, bit pattern for bit
/// pattern, so distinct blocks construct distinct values.
pub proof fn lemma_bytes_of_words_exact(m: Seq<u64>, width: int)
    requires
        m.len() == width,
        forall|i: int| 0 <= i < m.len() ==> m[i] <= 255,
    ensures
        forall|i: int| 0 <= i < width ==> bytes_of_words(m, width)[i] == m[i],
{
}

/// Law: on a block of the declared width, the word construction is the
/// identity on the block.
pub proof fn lemma_words_padded_exact(m: Seq<u64>, width: int)
    requires
        m.len() == width,
    ensures
        words_padded(m, width) =~= m,
{
}

fn block_to_bytes(v: &Vec<u64>, width: usize) -> (r: Vec<u8>)
    ensures
        r@ == bytes_of_words(v@, width as int),
{
    let mut out: Vec<u8> = Vec::new();
    let mut i: usize = 0;
    while i < width
        invariant
            i <= width,
            out@.len() == i,
            forall|k: int| 0 <= k < i ==> out@[k] == bytes_of_words(v@, width as int)[k],
        decreases width - i,
    {
        let b: u8 = if i < v.len() {
            (v[i] % 256) as u8
        } else {
            0u8
        };
        out.push(b);
        i = i + 1;
    }
    proof {
        assert(out@ =~= bytes_of_words(v@, width as int));
    }
    out
}

fn pad_words(v: &Vec<u64>, width: usize) -> (r: Vec<u64>)
    ensures
        r@ == words_padded(v@, width as int),
{
    let mut out: Vec<u64> = Vec::new();
    let mut i: usize = 0;
    while i < width
        invariant
            i <= width,
            out@.len() == i,
            forall|k: int| 0 <= k < i ==> out@[k] == words_padded(v@, width as int)[k],
        decreases width - i,
    {
        let w: u64 = if i < v.len() {
            v[i]
        } else {
            0u64
        };
        out.push(w);
        i = i + 1;
    }
    proof {
        assert(out@ =~= words_padded(v@, width as int));
    }
    out
}

/// The block tree the typed generators draw from: one entropy word per
/// element.
pub type BlockTree = ArrayValueTree<IntValueTree>;

/// The block strategy the typed generators draw from.
pub type BlockStrategy = UniformArrayStrategy<IntRangeStrategy>;

/// Constructs a 128-bit hash from a block of 16 byte-range words.
#[derive(Clone, Copy, Debug)]
pub struct H128FromBytes;

impl MapFn<BlockTree> for H128FromBytes {
    type Output = primitive_types::H128;

    open spec fn map_model(&self, m: Seq<u64>) -> Seq<u8> {
        bytes_of_words(m, 16)
    }

    fn apply(&self, v: Vec<u64>) -> (o: primitive_types::H128) {
        let bytes = block_to_bytes(&v, 16);
        let o = h128_from_bytes(&bytes);
        proof {
            assert(v.model() =~= v@);
        }
        o
    }
}

/// Constructs a 160-bit hash from a block of 20 byte-range words.
#[derive(Clone, Copy, Debug)]
pub struct H160FromBytes;

impl MapFn<BlockTree> for H160FromBytes {
    type Output = primitive_types::H160;

    open spec fn map_model(&self, m: Seq<u64>) -> Seq<u8> {
        bytes_of_words(m, 20)
    }

    fn apply(&self, v: Vec<u64>) -> (o: primitive_types::H160) {
        let bytes = block_to_bytes(&v, 20);
        let o = h160_from_bytes(&bytes);
        proof {
            assert(v.model() =~= v@);
        }
        o
    }
}

/// Constructs a 256-bit hash from a block of 32 byte-range words.
#[derive(Clone, Copy, Debug)]
pub struct H256FromBytes;

impl MapFn<BlockTree> for H256FromBytes {
    type Output = primitive_types::H256;

    open spec fn map_model(&self, m: Seq<u64>) -> Seq<u8> {
        bytes_of_words(m, 32)
    }

    fn apply(&self, v: Vec<u64>) -> (o: primitive_types::H256) {
        let bytes = block_to_bytes(&v, 32);
        let o = h256_from_bytes(&bytes);
        proof {
            assert(v.model() =~= v@);
        }
        o
    }
}

/// Constructs a 512-bit hash from a block of 64 byte-range words.
#[derive(Clone, Copy, Debug)]
pub struct H512FromBytes;

impl MapFn<BlockTree> for H512FromBytes {
    type Output = primitive_types::H512;

    open spec fn map_model(&self, m: Seq<u64>) -> Seq<u8> {
        bytes_of_words(m, 64)
    }

    fn apply(&self, v: Vec<u64>) -> (o: primitive_types::H512) {
        let bytes = block_to_bytes(&v, 64);
        let o = h512_from_bytes(&bytes);
        proof {
            assert(v.model() =~= v@);
        }
        o
    }
}

/// Constructs a 128-bit integer from a block of 2 full-range words.
#[derive(Clone, Copy, Debug)]
pub struct U128FromWords;

impl MapFn<BlockTree> for U128FromWords {
    type Output = primitive_types::U128;

    open spec fn map_model(&self, m: Seq<u64>) -> Seq<u64> {
        words_padded(m, 2)
    }

    fn apply(&self, v: Vec<u64>) -> (o: primitive_types::U128) {
        let words = pad_words(&v, 2);
        let o = u128_from_words(&words);
        proof {
            assert(v.model() =~= v@);
        }
        o
    }
}

/// Constructs a 256-bit integer from a block of 4 full-range words.
#[derive(Clone, Copy, Debug)]
pub struct U256FromWords;

impl MapFn<BlockTree> for U256FromWords {
    type Output = primitive_types::U256;

    open spec fn map_model(&self, m: Seq<u64>) -> Seq<u64> {
        words_padded(m, 4)
    }

    fn apply(&self, v: Vec<u64>) -> (o: primitive_types::U256) {
        let words = pad_words(&v, 4);
        let o = u256_from_words(&words);
        proof {
            assert(v.model() =~= v@);
        }
        o
    }
}

/// Constructs a 512-bit integer from a block of 8 full-range words.
#[derive(Clone, Copy, Debug)]
pub struct U512FromWords;

impl MapFn<BlockTree> for U512FromWords {
    type Output = primitive_types::U512;

    open spec fn map_model(&self, m: Seq<u64>) -> Seq<u64> {
        words_padded(m, 8)
    }

    fn apply(&self, v: Vec<u64>) -> (o: primitive_types::U512) {
        let words = pad_words(&v, 8);
        let o = u512_from_words(&words);
        proof {
            assert(v.model() =~= v@);
        }
        o
    }
}

/// The strategy each byte of a hash block is drawn from.
pub open spec fn byte_range() -> IntRangeStrategy {
    IntRangeStrategy { lo: 0, hi: 255 }
}

/// The strategy each word of an integer block is drawn from.
pub open spec fn word_range() -> IntRangeStrategy {
    IntRangeStrategy { lo: 0, hi: u64::MAX }
}

/// A strategy producing uniformly random 128-bit hashes.
pub fn any_h128() -> (s: MapStrategy<BlockStrategy, H128FromBytes>)
    ensures
        s.wf(),
        s.source_strategy().element_strategy() == byte_range(),
        s.source_strategy().arity() == 16,
{
    MapStrategy::new(uniform(IntRangeStrategy::new(0, 255), 16), H128FromBytes)
}

/// A strategy producing uniformly random 160-bit hashes.
pub fn any_h160() -> (s: MapStrategy<BlockStrategy, H160FromBytes>)
    ensures
        s.wf(),
        s.source_strategy().element_strategy() == byte_range(),
        s.source_strategy().arity() == 20,
{
    MapStrategy::new(uniform(IntRangeStrategy::new(0, 255), 20), H160FromBytes)
}

/// A strategy producing uniformly random 256-bit hashes.
pub fn any_h256() -> (s: MapStrategy<BlockStrategy, H256FromBytes>)
    ensures
        s.wf(),
        s.source_strategy().element_strategy() == byte_range(),
        s.source_strategy().arity() == 32,
{
    MapStrategy::new(uniform(IntRangeStrategy::new(0, 255), 32), H256FromBytes)
}

/// A strategy producing uniformly random 512-bit hashes.
pub fn any_h512() -> (s: MapStrategy<BlockStrategy, H512FromBytes>)
    ensures
        s.wf(),
        s.source_strategy().element_strategy() == byte_range(),
        s.source_strategy().arity() == 64,
{
    MapStrategy::new(uniform(IntRangeStrategy::new(0, 255), 64), H512FromBytes)
}

/// A strategy producing uniformly random 128-bit integers.
pub fn any_u128() -> (s: MapStrategy<BlockStrategy, U128FromWords>)
    ensures
        s.wf(),
        s.source_strategy().element_strategy() == word_range(),
        s.source_strategy().arity() == 2,
{
    MapStrategy::new(uniform(IntRangeStrategy::new(0, u64::MAX), 2), U128FromWords)
}

/// A strategy producing uniformly random 256-bit integers.
pub fn any_u256() -> (s: MapStrategy<BlockStrategy, U256FromWords>)
    ensures
        s.wf(),
        s.source_strategy().element_strategy() == word_range(),
        s.source_strategy().arity() == 4,
{
    MapStrategy::new(uniform(IntRangeStrategy::new(0, u64::MAX), 4), U256FromWords)
}

/// A strategy producing uniformly random 512-bit integers.
pub fn any_u512() -> (s: MapStrategy<BlockStrategy, U512FromWords>)
    ensures
        s.wf(),
        s.source_strategy().element_strategy() == word_range(),
        s.source_strategy().arity() == 8,
{
    MapStrategy::new(uniform(IntRangeStrategy::new(0, u64::MAX), 8), U512FromWords)
}

} // verus!
