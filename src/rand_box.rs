use noise::{Perlin, Simplex};
use rand::rngs::StdRng;
use rand::{RngExt, SeedableRng};
use sha2::Digest;
use std::hash::BuildHasher;
use vstd::prelude::*;

verus! {

#[verifier::external_type_specification]
#[verifier::external_body]
pub struct ExStdRng(StdRng);

#[verifier::external_type_specification]
#[verifier::external_body]
pub struct ExPerlin(Perlin);

#[verifier::external_type_specification]
#[verifier::external_body]
pub struct ExSimplex(Simplex);

/// The SHA-256 digest of the UTF-8 encoding of a text.
pub uninterp spec fn sha256_of(text: Seq<char>) -> Seq<u8>;

/// The generator that `StdRng::from_seed` builds from a 32-byte seed.
pub uninterp spec fn std_rng_from_seed(seed: Seq<u8>) -> StdRng;

/// The 64-bit hash that std's `DefaultHasher` gives a text.
pub uninterp spec fn default_hash_of(text: Seq<char>) -> u64;

/// The Perlin field that `Perlin::new` builds from a seed.
pub uninterp spec fn perlin_with_seed(seed: u32) -> Perlin;

/// The Simplex field that `Simplex::new` builds from a seed.
pub uninterp spec fn simplex_with_seed(seed: u32) -> Simplex;

/// The value that `random_range(lo..hi)` draws as a `usize` from a generator
/// state, paired with the state it leaves behind.
pub uninterp spec fn size_draw(rng: StdRng, lo: usize, hi: usize) -> (usize, StdRng);

/// The value that `random_range(lo..hi)` draws as a `u8` from a generator
/// state, paired with the state it leaves behind.
pub uninterp spec fn byte_draw(rng: StdRng, lo: u8, hi: u8) -> (u8, StdRng);

/// Relies on sha2's `Sha256::digest`: the 32-byte SHA-256 digest of the
/// text's UTF-8 bytes.
#[verifier::external_body]
fn sha256_digest(text: &str) -> (r: [u8; 32])
    ensures
        r@ == sha256_of(text@),
{
    sha2::Sha256::digest(text.as_bytes()).into()
}

/// Relies on rand's `SeedableRng::from_seed` for `StdRng`: the generator is a
/// function of the seed alone.
#[verifier::external_body]
fn std_rng_from(seed: [u8; 32]) -> (r: StdRng)
    ensures
        r == std_rng_from_seed(seed@),
{
    StdRng::from_seed(seed)
}

/// Relies on std's `BuildHasher::hash_one` with the `DefaultHasher` that
/// `new` builds (fixed keys, so not seeded per process): the hash that a
/// `String` holding the text gets, a function of the text alone for one
/// build of std.
#[verifier::external_body]
fn default_hash(text: &str) -> (r: u64)
    ensures
        r == default_hash_of(text@),
{
    std::hash::BuildHasherDefault::<std::hash::DefaultHasher>::default().hash_one(text)
}

/// Relies on noise's `Perlin::new`: the field is a function of the seed alone.
pub assume_specification[ Perlin::new ](seed: u32) -> (r: Perlin)
    ensures
        r == perlin_with_seed(seed),
;

/// Relies on noise's `Simplex::new`: the field is a function of the seed alone.
pub assume_specification[ Simplex::new ](seed: u32) -> (r: Simplex)
    ensures
        r == simplex_with_seed(seed),
;

/// Relies on rand's `RngExt::random_range` over `usize`: a value in
/// `[lo, hi)`, drawn and advanced deterministically from the generator state.
/// It panics on an empty range, which `requires` leaves out.
#[verifier::external_body]
fn draw_size(rng: &mut StdRng, lo: usize, hi: usize) -> (r: usize)
    requires
        lo < hi,
    ensures
        lo <= r < hi,
        (r, *final(rng)) == size_draw(*old(rng), lo, hi),
{
    rng.random_range(lo..hi)
}

/// Relies on rand's `RngExt::random_range` over `u8`: a value in `[lo, hi)`,
/// drawn and advanced deterministically from the generator state. It panics
/// on an empty range, which `requires` leaves out.
#[verifier::external_body]
fn draw_byte(rng: &mut StdRng, lo: u8, hi: u8) -> (r: u8)
    requires
        lo < hi,
    ensures
        lo <= r < hi,
        (r, *final(rng)) == byte_draw(*old(rng), lo, hi),
{
    rng.random_range(lo..hi)
}

/// Why a draw could not be made.
#[derive(Clone, Copy, Debug, PartialEq, Eq, Structural)]
pub enum DrawError {
    /// The range asked for is empty: its lower bound is not below its upper bound.
    InvalidRange,
    /// An element was asked of an empty slice.
    EmptyCollection,
}

/// The generator state that a seed text starts from: `StdRng` seeded with the
/// SHA-256 digest of the text.
pub open spec fn fresh_rng(hash: Seq<char>) -> StdRng {
    std_rng_from_seed(sha256_of(hash))
}

/// The seed of the Perlin field: the low 32 bits of the text's default hash.
pub open spec fn perlin_seed(hash: Seq<char>) -> u32 {
    (default_hash_of(hash) & 0xFFFF_FFFFu64) as u32
}

/// The seed of the Simplex field: one past the Perlin seed, modulo 2^32.
pub open spec fn simplex_seed(hash: Seq<char>) -> u32 {
    ((perlin_seed(hash) as int + 1) % 0x1_0000_0000) as u32
}

/// A seeded source of randomness: a generator that draws, and two coherent
/// noise fields, all derived from one seed text.
pub struct RandBox {
    /// The generator that draws; only draws and `reset` change it.
    pub rng: StdRng,
    /// The seed text, kept so that the generator can be restarted.
    pub hash: String,
    /// The first noise field, seeded by the low half of the text's hash.
    pub perlin: Perlin,
    /// The second noise field, seeded one past the first.
    pub simplex: Simplex,
}

impl RandBox {
    /// The noise fields are those that the seed text `hash` derives.
    pub open spec fn has_fields_of(&self, hash: Seq<char>) -> bool {
        &&& self.perlin == perlin_with_seed(perlin_seed(hash))
        &&& self.simplex == simplex_with_seed(simplex_seed(hash))
    }

    /// The source is as construction from `hash` leaves it: its text is
    /// `hash`, its fields are those of `hash` and its generator has not drawn.
    pub open spec fn seeded_by(&self, hash: Seq<char>) -> bool {
        &&& self.hash@ == hash
        &&& self.has_fields_of(hash)
        &&& self.rng == fresh_rng(hash)
    }

    /// Derives the generator and both noise fields from the seed text.
    pub fn new(hash: String) -> (r: RandBox)
        ensures
            r.seeded_by(hash@),
    {
        let rng = RandBox::init_rng(hash.as_str());
        let seed = RandBox::string_to_u32_seed(hash.as_str());
        let perlin = Perlin::new(seed);
        let simplex = Simplex::new(RandBox::next_seed(seed));
        RandBox { rng, hash, perlin, simplex }
    }

    /// The generator seeded with the SHA-256 digest of the text.
    fn init_rng(hash: &str) -> (r: StdRng)
        ensures
            r == fresh_rng(hash@),
    {
        let seed = sha256_digest(hash);
        std_rng_from(seed)
    }

    /// Restarts the generator from the seed text; the noise fields are kept.
    pub fn reset(&mut self)
        ensures
            final(self).hash@ == old(self).hash@,
            final(self).perlin == old(self).perlin,
            final(self).simplex == old(self).simplex,
            final(self).rng == fresh_rng(old(self).hash@),
    {
        let new_rng = RandBox::init_rng(self.hash.as_str());
        self.rng = new_rng;
    }

    /// A `u8` drawn uniformly from `[min, max)`.
    pub fn rand_u8(&mut self, min: u8, max: u8) -> (r: Result<u8, DrawError>)
        ensures
            final(self).hash == old(self).hash,
            final(self).perlin == old(self).perlin,
            final(self).simplex == old(self).simplex,
            min < max ==> (r matches Ok(v) && (v, final(self).rng) == byte_draw(old(self).rng, min, max)),
            min < max ==> (r matches Ok(v) && min <= v < max),
            min >= max ==> r == Err::<u8, DrawError>(DrawError::InvalidRange),
            min >= max ==> final(self).rng == old(self).rng,
    {
        if min >= max {
            return Err(DrawError::InvalidRange);
        }
        let r = draw_byte(&mut self.rng, min, max);
        Ok(r)
    }

    /// A `usize` drawn uniformly from `[min, max)`.
    pub fn rand_usize(&mut self, min: usize, max: usize) -> (r: Result<usize, DrawError>)
        ensures
            final(self).hash == old(self).hash,
            final(self).perlin == old(self).perlin,
            final(self).simplex == old(self).simplex,
            min < max ==> (r matches Ok(v) && (v, final(self).rng) == size_draw(old(self).rng, min, max)),
            min < max ==> (r matches Ok(v) && min <= v < max),
            min >= max ==> r == Err::<usize, DrawError>(DrawError::InvalidRange),
            min >= max ==> final(self).rng == old(self).rng,
    {
        if min >= max {
            return Err(DrawError::InvalidRange);
        }
        let r = draw_size(&mut self.rng, min, max);
        Ok(r)
    }

    /// One element of a non-empty slice, at an index drawn uniformly from
    /// `[0, len)`.
    pub fn rand_element<'a, T>(&mut self, elements: &'a [T]) -> (r: Result<&'a T, DrawError>)
        ensures
            final(self).hash == old(self).hash,
            final(self).perlin == old(self).perlin,
            final(self).simplex == old(self).simplex,
            elements@.len() > 0 ==> (r matches Ok(e) && {
                let (i, next) = size_draw(old(self).rng, 0, elements@.len() as usize);
                &&& i < elements@.len()
                &&& *e == elements@[i as int]
                &&& final(self).rng == next
            }),
            elements@.len() == 0 ==> (r matches Err(e) && e == DrawError::EmptyCollection),
            elements@.len() == 0 ==> final(self).rng == old(self).rng,
    {
        let n = elements.len();
        if n == 0 {
            return Err(DrawError::EmptyCollection);
        }
        let i = draw_size(&mut self.rng, 0, n);
        Ok(&elements[i])
    }

    /// The low 32 bits of the text's default hash.
    fn string_to_u32_seed(s: &str) -> (r: u32)
        ensures
            r == perlin_seed(s@),
    {
        let h = default_hash(s);
        (h & 0xFFFF_FFFFu64) as u32
    }

    /// The seed after `seed`, wrapping at 2^32.
    fn next_seed(seed: u32) -> (r: u32)
        ensures
            r == (seed as int + 1) % 0x1_0000_0000,
    {
        if seed == u32::MAX {
            0
        } else {
            seed + 1
        }
    }
}

} // verus!
