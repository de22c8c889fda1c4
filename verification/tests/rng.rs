use flummis::rng::stream;
use flummis::rng::{key_for, stream_for, stream_for_chunk, GOLDEN, GOLDEN_INVERSE};
use rand::{RngExt, SeedableRng};

#[test]
fn same_seed_same_sequence() {
    let a: Vec<u32> = (0..8).map(|_| stream_for(42, stream::ROADS).random::<u32>()).collect();
    let b: Vec<u32> = (0..8).map(|_| stream_for(42, stream::ROADS).random::<u32>()).collect();
    assert_eq!(a, b);
}

#[test]
fn different_streams_diverge() {
    let roads = stream_for(42, stream::ROADS).random::<u64>();
    let blocks = stream_for(42, stream::BLOCKS).random::<u64>();
    assert_ne!(roads, blocks, "streams must be independent");
}

#[test]
fn chunks_are_order_independent() {
    let first = stream_for_chunk(7, stream::BUILDINGS, (3, -2)).random::<u64>();
    let second = stream_for_chunk(7, stream::BUILDINGS, (3, -2)).random::<u64>();
    assert_eq!(first, second);
    assert_ne!(
        first,
        stream_for_chunk(7, stream::BUILDINGS, (-2, 3)).random::<u64>(),
        "chunk coords must not collide under swap"
    );
}

#[test]
fn key_for_mixes_the_key_into_the_seed() {
    assert_eq!(key_for(0, 1), GOLDEN);
    assert_eq!(key_for(5, 0), 5);
    assert_eq!(key_for(42, 3), 42 ^ 3u64.wrapping_mul(0x9E37_79B9_7F4A_7C15));
    assert_eq!(GOLDEN.wrapping_mul(GOLDEN_INVERSE), 1);
}

#[test]
fn every_stream_key_derives_its_own_seed() {
    let keys = [
        stream::ROADS,
        stream::BLOCKS,
        stream::BUILDINGS,
        stream::PROPS,
        stream::VEHICLE_SPAWNS,
        stream::PEDESTRIANS,
        stream::AUDIO,
        stream::RAIN,
        stream::WEATHER,
        stream::VEGETATION,
        stream::WEAR,
        stream::MOOD,
    ];
    let derived: Vec<u64> = keys.iter().map(|k| key_for(0xA17E_5EED, *k)).collect();
    for i in 0..derived.len() {
        for j in 0..i {
            assert_ne!(derived[i], derived[j]);
        }
    }
}

#[test]
fn a_stream_is_seeded_from_its_derived_key() {
    let mut ours = stream_for(9, stream::MOOD);
    let mut direct = rand_chacha::ChaCha8Rng::seed_from_u64(key_for(9, stream::MOOD));
    assert_eq!(ours.random::<u64>(), direct.random::<u64>());
    let mut chunk = stream_for_chunk(9, stream::PROPS, (0, 0));
    let mut plain = stream_for(9, stream::PROPS);
    assert_eq!(chunk.random::<u64>(), plain.random::<u64>(), "chunk (0, 0) packs to zero");
    let mut other = stream_for_chunk(9, stream::PROPS, (0, 1));
    let packed = 1u64.wrapping_mul(GOLDEN);
    let mut expected = rand_chacha::ChaCha8Rng::seed_from_u64(key_for(9, stream::PROPS) ^ packed);
    assert_eq!(other.random::<u64>(), expected.random::<u64>());
}

#[test]
fn chunk_coordinates_pack_column_high_and_row_low() {
    let packed = ((-2i32 as u64) << 32) | (3i32 as u32 as u64);
    let mut ours = stream_for_chunk(11, stream::WEAR, (-2, 3));
    let mut direct = rand_chacha::ChaCha8Rng::seed_from_u64(
        11 ^ stream::WEAR.wrapping_mul(GOLDEN) ^ packed.wrapping_mul(GOLDEN),
    );
    assert_eq!(ours.random::<u64>(), direct.random::<u64>());
}
