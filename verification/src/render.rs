//! How a frame is put together: which preset a run starts at.

use vstd::prelude::*;

use crate::quality::{QualityPreset, preset_named};

verus! {

/// The preset `--quality` asks for: the default when the flag is absent, the
/// named tier when it names one, and the default again for a typo, which is
/// a better answer than silently starting at the floor.
pub open spec fn preset_for_arg(raw: Option<Seq<char>>) -> QualityPreset {
    match raw {
        None => QualityPreset::High,
        Some(text) => match preset_named(text) {
            Some(p) => p,
            None => QualityPreset::High,
        },
    }
}

/// Resolves the preset a run should start at.
pub fn preset_from_arg(raw: Option<&str>) -> (preset: QualityPreset)
    ensures
        preset == preset_for_arg(
            match raw {
                Some(r) => Some(r@),
                None => None,
            },
        ),
{
    match raw {
        None => QualityPreset::default(),
        Some(text) => match QualityPreset::parse(text) {
            Some(p) => p,
            None => QualityPreset::default(),
        },
    }
}

} // verus!
