//! Fixed keys for each independent generation stream. Never reuse a value.

use vstd::prelude::*;

verus! {

pub const ROADS: u64 = 1;

pub const BLOCKS: u64 = 2;

pub const BUILDINGS: u64 = 3;

pub const PROPS: u64 = 4;

pub const VEHICLE_SPAWNS: u64 = 5;

pub const PEDESTRIANS: u64 = 6;

/// Waveform synthesis: a sound should not change between runs either.
pub const AUDIO: u64 = 7;

pub const RAIN: u64 = 8;

/// Cloud cover and wind. Sampled rather than drawn; see `key_for`.
pub const WEATHER: u64 = 9;

/// Street trees and park planting, apart from props so a tree cannot shift
/// which bin lands where.
pub const VEGETATION: u64 = 10;

/// Manholes, patches, stains and rubber.
pub const WEAR: u64 = 11;

/// Temperaments, apart from pedestrians so a shorter fuse cannot move where
/// the next pedestrian spawns.
pub const MOOD: u64 = 12;

} // verus!
