//! Deterministic random streams.
//!
//! City generation must be reproducible: the same seed has to rebuild the same
//! city. Each subsystem therefore derives its own stream from (seed, key), so
//! that adding a draw in one generator cannot reshuffle another, and each
//! chunk of a subsystem its own from (seed, key, chunk), so that chunks come
//! out the same whatever order they are visited in.

pub mod stream;

use rand::SeedableRng;
use rand_chacha::ChaCha8Rng;
use vstd::arithmetic::div_mod::{lemma_mul_mod_noop_left, lemma_mul_mod_noop_right, lemma_small_mod};
use vstd::arithmetic::mul::lemma_mul_is_associative;
use vstd::prelude::*;

verus! {

/// `rand_chacha::ChaCha8Rng`, the generator every stream is. Nothing inside
/// it is visible here: verified code only hands it on.
#[verifier::external_type_specification]
#[verifier::external_body]
pub struct ExChaCha8Rng(ChaCha8Rng);

/// The generator `ChaCha8Rng::seed_from_u64` builds from `state`.
pub uninterp spec fn chacha8_from_u64(state: u64) -> ChaCha8Rng;

/// `rand_core`'s `SeedableRng::seed_from_u64` for `ChaCha8Rng`: it expands
/// `state` into a 32-byte seed with a fixed PCG32 sequence and builds the
/// generator from that seed, so the generator it returns depends on `state`
/// and on nothing else. Which generator that is, is not stated here.
#[verifier::external_body]
fn chacha8_seeded(state: u64) -> (rng: ChaCha8Rng)
    ensures
        rng == chacha8_from_u64(state),
{
    ChaCha8Rng::seed_from_u64(state)
}

/// The golden-ratio constant that spreads stream keys across the word.
pub const GOLDEN: u64 = 0x9E37_79B9_7F4A_7C15;

/// Its inverse modulo 2^64: multiplying by the one undoes the other.
pub const GOLDEN_INVERSE: u64 = 0xF1DE_83E1_9937_733D;

pub open spec fn word_modulus() -> nat {
    0x1_0000_0000_0000_0000
}

/// `x * GOLDEN`, wrapping at 64 bits.
pub open spec fn spread(x: u64) -> u64 {
    ((x as nat * GOLDEN as nat) % word_modulus()) as u64
}

/// The seed of subsystem `key`'s stream in a world of `seed`.
pub open spec fn stream_key(seed: u64, key: u64) -> u64 {
    seed ^ spread(key)
}

/// A chunk's grid coordinates packed into one word: the column in the high
/// half and the row in the low half, each as its 32-bit pattern.
pub open spec fn chunk_word(chunk: (i32, i32)) -> u64 {
    (((chunk.0 as u32) as u64) << 32u64) | ((chunk.1 as u32) as u64)
}

/// The seed of one chunk's stream within subsystem `key`.
pub open spec fn chunk_key(seed: u64, key: u64, chunk: (i32, i32)) -> u64 {
    seed ^ spread(key) ^ spread(chunk_word(chunk))
}

/// An independent, reproducible stream for one subsystem.
pub fn stream_for(seed: u64, key: u64) -> (rng: ChaCha8Rng)
    ensures
        rng == chacha8_from_u64(stream_key(seed, key)),
{
    chacha8_seeded(key_for(seed, key))
}

/// The same derivation, stopping one step short of a generator, for
/// subsystems that sample noise against a fixed key rather than draw.
pub fn key_for(seed: u64, key: u64) -> (derived: u64)
    ensures
        derived == stream_key(seed, key),
{
    seed ^ key.wrapping_mul(GOLDEN)
}

/// A stream for one chunk of one subsystem.
pub fn stream_for_chunk(seed: u64, key: u64, chunk: (i32, i32)) -> (rng: ChaCha8Rng)
    ensures
        rng == chacha8_from_u64(chunk_key(seed, key, chunk)),
{
    let c = pack_chunk(chunk);
    chacha8_seeded(seed ^ key.wrapping_mul(GOLDEN) ^ c.wrapping_mul(GOLDEN))
}

fn pack_chunk(chunk: (i32, i32)) -> (c: u64)
    ensures
        c == chunk_word(chunk),
{
    let high: u64 = (chunk.0 as u32) as u64;
    let low: u64 = (chunk.1 as u32) as u64;
    (high << 32u64) | low
}

/// Multiplying by `GOLDEN` loses nothing: `GOLDEN_INVERSE` gets the word back.
pub proof fn lemma_spread_is_undone_by_the_inverse(x: u64)
    ensures
        ((spread(x) as nat * GOLDEN_INVERSE as nat) % word_modulus()) == x as nat,
{
    let m = word_modulus() as int;
    let g = GOLDEN as int;
    let v = GOLDEN_INVERSE as int;
    let xi = x as int;
    assert(g * v == 198697502025013154207784857497820463105int);
    assert(198697502025013154207784857497820463105int == 10771413168148108919int * m + 1);
    assert((g * v) % m == 1);
    lemma_mul_mod_noop_left(xi * g, v, m);
    lemma_mul_is_associative(xi, g, v);
    lemma_mul_mod_noop_right(xi, g * v, m);
    lemma_small_mod(x as nat, m as nat);
}

/// Different stream keys give different words once spread.
pub proof fn lemma_spread_is_injective(a: u64, b: u64)
    requires
        a != b,
    ensures
        spread(a) != spread(b),
{
    lemma_spread_is_undone_by_the_inverse(a);
    lemma_spread_is_undone_by_the_inverse(b);
}

/// Two subsystems of one world never share a stream: different keys always
/// derive different seeds.
pub proof fn lemma_streams_are_independent(seed: u64, a: u64, b: u64)
    requires
        a != b,
    ensures
        stream_key(seed, a) != stream_key(seed, b),
{
    lemma_spread_is_injective(a, b);
    let (p, q) = (spread(a), spread(b));
    assert(p != q ==> seed ^ p != seed ^ q) by (bit_vector);
}

/// Chunk coordinates do not collide, under a swap or otherwise.
pub proof fn lemma_chunk_words_are_distinct(c: (i32, i32), d: (i32, i32))
    requires
        c != d,
    ensures
        chunk_word(c) != chunk_word(d),
{
    let (x1, y1, x2, y2) = (c.0, c.1, d.0, d.1);
    assert((((x1 as u32) as u64) << 32u64) | ((y1 as u32) as u64) == (((x2 as u32) as u64)
        << 32u64) | ((y2 as u32) as u64) ==> x1 == x2 && y1 == y2) by (bit_vector);
}

/// Two chunks of one subsystem never share a stream.
pub proof fn lemma_chunk_streams_are_independent(
    seed: u64,
    key: u64,
    c: (i32, i32),
    d: (i32, i32),
)
    requires
        c != d,
    ensures
        chunk_key(seed, key, c) != chunk_key(seed, key, d),
{
    lemma_chunk_words_are_distinct(c, d);
    lemma_spread_is_injective(chunk_word(c), chunk_word(d));
    let (s, k, p, q) = (seed, spread(key), spread(chunk_word(c)), spread(chunk_word(d)));
    assert(p != q ==> s ^ k ^ p != s ^ k ^ q) by (bit_vector);
}

} // verus!
