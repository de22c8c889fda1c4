//! How finely the volumetric pass samples the air.

use vstd::prelude::*;

use crate::quality::{Volumetrics, volumetrics_rank};

verus! {

/// Samples along each ray: none without the pass, 32 for sun-lit fog, and 64
/// once lamp cones are in it, because a small bright cone bands visibly
/// where a flat haze does not.
pub open spec fn ray_samples(v: Volumetrics) -> u32 {
    match v {
        Volumetrics::Off => 0,
        Volumetrics::Fog => 32,
        Volumetrics::FogAndLights => 64,
    }
}

/// How many samples along each ray.
pub fn steps(volumetrics: Volumetrics) -> (n: u32)
    ensures
        n == ray_samples(volumetrics),
{
    match volumetrics {
        Volumetrics::Off => 0,
        Volumetrics::Fog => 32,
        Volumetrics::FogAndLights => 64,
    }
}

/// A richer volumetrics setting never samples more coarsely, and switching
/// the pass off costs nothing.
pub proof fn lemma_richer_air_is_sampled_more_finely(a: Volumetrics, b: Volumetrics)
    requires
        volumetrics_rank(a) <= volumetrics_rank(b),
    ensures
        ray_samples(a) <= ray_samples(b),
        ray_samples(Volumetrics::Off) == 0,
{
}

} // verus!
