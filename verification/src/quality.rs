//! What a frame is allowed to cost.
//!
//! A [`QualityPreset`] is the single choice a player makes, and it resolves to
//! a [`GraphicsSettings`]: a flat block of concrete numbers the renderer reads.
//! The preset is a request rather than a promise: [`GraphicsSettings::downgrade`]
//! walks the settings back to what the GPU reports it can run, always towards
//! the nearest comparable picture rather than towards nothing.
//!
//! Distances are whole metres and the level-of-detail multiplier is kept in
//! hundredths, with "never drop detail" as its own value; every figure in the
//! table is exact in those units.

use vstd::prelude::*;

use crate::text::{normalize, normalized, spells};

verus! {

/// The one knob a player turns. The tiers are ordered: every rule that says
/// "at least High" is a comparison of [`rank`]s.
#[derive(Debug, Clone, Copy, PartialEq, Eq, PartialOrd, Ord, Hash, Structural)]
pub enum QualityPreset {
    /// Integrated graphics. No screen-space work beyond ambient occlusion.
    Low,
    /// The floor for the game looking like itself.
    Medium,
    /// Where the city is meant to be seen. The default.
    High,
    /// Raytraced lighting where the hardware has it, and upscaling to pay for it.
    Ultra,
    /// Not a playable tier: everything on, for stills.
    Photo,
}

/// How much of the horizon-based ambient occlusion to buy.
#[derive(Debug, Clone, Copy, PartialEq, Eq, PartialOrd, Ord, Hash, Structural)]
pub enum AoQuality {
    Low,
    Medium,
    High,
    Ultra,
}

/// How far the volumetric pass goes.
#[derive(Debug, Clone, Copy, PartialEq, Eq, PartialOrd, Ord, Hash, Structural)]
pub enum Volumetrics {
    Off,
    /// A fog volume over the city, lit by the sun only.
    Fog,
    /// Street lamps and headlights cast visible shafts too.
    FogAndLights,
}

/// Which temporal accumulator resolves the final image.
#[derive(Debug, Clone, Copy, PartialEq, Eq, Hash, Structural)]
pub enum Upscaling {
    /// No temporal pass at all.
    Off,
    /// Temporal anti-aliasing at native resolution.
    Taa,
    /// DLSS super resolution.
    Dlss,
}

/// The multiplier on every level-of-detail switching distance.
#[derive(Debug, Clone, Copy, PartialEq, Eq, Hash, Structural)]
pub enum LodScale {
    /// The multiplier in hundredths: 100 is the distance the art was made for.
    Percent(u32),
    /// Detail is never dropped, however far away.
    Unlimited,
}

/// The resolved settings. Everything in the renderer reads this and nothing else.
#[derive(Debug, Clone, Copy, PartialEq, Eq, Hash, Structural)]
pub struct GraphicsSettings {
    /// What was asked for; kept after downgrading so the UI can say so.
    pub requested: QualityPreset,
    /// Side length of the sun's shadow map, in texels.
    pub shadow_map_size: usize,
    /// How far from the camera the sun still casts, in metres.
    pub shadow_distance: u32,
    pub cascades: usize,
    /// Penumbrae that widen with distance from the caster.
    pub soft_shadows: bool,
    /// Short screen-space rays under bollards and wheels.
    pub contact_shadows: bool,
    pub ssao: Option<AoQuality>,
    /// Screen-space reflections.
    pub ssr: bool,
    pub volumetrics: Volumetrics,
    pub motion_blur: bool,
    pub depth_of_field: bool,
    /// Vignette and a trace of chromatic aberration.
    pub lens: bool,
    pub lod_scale: LodScale,
    /// Raytraced direct and indirect lighting, replacing SSAO and SSR.
    pub raytracing: bool,
    pub upscaling: Upscaling,
}

/// What the GPU turned out to support.
#[derive(Debug, Clone, Copy, PartialEq, Eq, Hash, Structural)]
pub struct Capabilities {
    /// Ray queries and the binding arrays raytraced lighting needs.
    pub raytracing: bool,
    /// NVIDIA DLSS.
    pub dlss: bool,
}

/// A tier's place on the ladder, Low first.
pub open spec fn rank(p: QualityPreset) -> int {
    match p {
        QualityPreset::Low => 0,
        QualityPreset::Medium => 1,
        QualityPreset::High => 2,
        QualityPreset::Ultra => 3,
        QualityPreset::Photo => 4,
    }
}

/// The tiers in ladder order.
pub open spec fn all_presets() -> Seq<QualityPreset> {
    seq![
        QualityPreset::Low,
        QualityPreset::Medium,
        QualityPreset::High,
        QualityPreset::Ultra,
        QualityPreset::Photo,
    ]
}

pub open spec fn volumetrics_rank(v: Volumetrics) -> int {
    match v {
        Volumetrics::Off => 0,
        Volumetrics::Fog => 1,
        Volumetrics::FogAndLights => 2,
    }
}

/// The name a preset is written as, on the command line and in the UI.
pub open spec fn preset_name(p: QualityPreset) -> Seq<char> {
    match p {
        QualityPreset::Low => seq!['l', 'o', 'w'],
        QualityPreset::Medium => seq!['m', 'e', 'd', 'i', 'u', 'm'],
        QualityPreset::High => seq!['h', 'i', 'g', 'h'],
        QualityPreset::Ultra => seq!['u', 'l', 't', 'r', 'a'],
        QualityPreset::Photo => seq!['p', 'h', 'o', 't', 'o'],
    }
}

/// The preset a typed name selects: the tier whose name equals the text once
/// it is trimmed and its ASCII letters folded to lower case.
pub open spec fn preset_named(raw: Seq<char>) -> Option<QualityPreset> {
    let n = normalized(raw);
    if n == preset_name(QualityPreset::Low) {
        Some(QualityPreset::Low)
    } else if n == preset_name(QualityPreset::Medium) {
        Some(QualityPreset::Medium)
    } else if n == preset_name(QualityPreset::High) {
        Some(QualityPreset::High)
    } else if n == preset_name(QualityPreset::Ultra) {
        Some(QualityPreset::Ultra)
    } else if n == preset_name(QualityPreset::Photo) {
        Some(QualityPreset::Photo)
    } else {
        None
    }
}

/// The table: one row per tier, and the only place these numbers live.
pub open spec fn preset_settings(p: QualityPreset) -> GraphicsSettings {
    match p {
        QualityPreset::Low => GraphicsSettings {
            requested: p,
            shadow_map_size: 2048,
            shadow_distance: 300,
            cascades: 2,
            soft_shadows: false,
            contact_shadows: false,
            ssao: Some(AoQuality::Low),
            ssr: false,
            volumetrics: Volumetrics::Off,
            motion_blur: false,
            depth_of_field: false,
            lens: false,
            lod_scale: LodScale::Percent(60),
            raytracing: false,
            upscaling: Upscaling::Off,
        },
        QualityPreset::Medium => GraphicsSettings {
            requested: p,
            shadow_map_size: 2048,
            shadow_distance: 500,
            cascades: 3,
            soft_shadows: false,
            contact_shadows: true,
            ssao: Some(AoQuality::Medium),
            ssr: false,
            volumetrics: Volumetrics::Fog,
            motion_blur: false,
            depth_of_field: false,
            lens: false,
            lod_scale: LodScale::Percent(85),
            raytracing: false,
            upscaling: Upscaling::Taa,
        },
        QualityPreset::High => GraphicsSettings {
            requested: p,
            shadow_map_size: 4096,
            shadow_distance: 900,
            cascades: 4,
            soft_shadows: true,
            contact_shadows: true,
            ssao: Some(AoQuality::High),
            ssr: true,
            volumetrics: Volumetrics::FogAndLights,
            motion_blur: true,
            depth_of_field: false,
            lens: true,
            lod_scale: LodScale::Percent(100),
            raytracing: false,
            upscaling: Upscaling::Taa,
        },
        QualityPreset::Ultra => GraphicsSettings {
            requested: p,
            shadow_map_size: 8192,
            shadow_distance: 1200,
            cascades: 4,
            soft_shadows: true,
            contact_shadows: true,
            ssao: None,
            ssr: false,
            volumetrics: Volumetrics::FogAndLights,
            motion_blur: true,
            depth_of_field: true,
            lens: true,
            lod_scale: LodScale::Percent(130),
            raytracing: true,
            upscaling: Upscaling::Dlss,
        },
        QualityPreset::Photo => GraphicsSettings {
            requested: p,
            shadow_map_size: 8192,
            shadow_distance: 2000,
            cascades: 4,
            soft_shadows: true,
            contact_shadows: true,
            ssao: None,
            ssr: false,
            volumetrics: Volumetrics::FogAndLights,
            motion_blur: false,
            depth_of_field: true,
            lens: true,
            lod_scale: LodScale::Unlimited,
            raytracing: true,
            upscaling: Upscaling::Taa,
        },
    }
}

/// The settings walked back to what `caps` can run: without ray queries the
/// lighting returns to screen-space reflections and (if there was none) High
/// ambient occlusion; without DLSS the upscaler falls back to TAA.
pub open spec fn downgraded(s: GraphicsSettings, caps: Capabilities) -> GraphicsSettings {
    let s1 = if s.raytracing && !caps.raytracing {
        GraphicsSettings {
            raytracing: false,
            ssr: true,
            ssao: if s.ssao is Some {
                s.ssao
            } else {
                Some(AoQuality::High)
            },
            ..s
        }
    } else {
        s
    };
    if s1.upscaling == Upscaling::Dlss && !caps.dlss {
        GraphicsSettings { upscaling: Upscaling::Taa, ..s1 }
    } else {
        s1
    }
}

/// Whether anything on the camera consumes motion vectors.
pub open spec fn wants_motion_vectors(s: GraphicsSettings) -> bool {
    s.motion_blur || s.upscaling == Upscaling::Taa || s.upscaling == Upscaling::Dlss
}

impl QualityPreset {
    /// Every tier, Low first.
    pub const ALL: [QualityPreset; 5] = [
        QualityPreset::Low,
        QualityPreset::Medium,
        QualityPreset::High,
        QualityPreset::Ultra,
        QualityPreset::Photo,
    ];

    pub fn name(self) -> (name: &'static str)
        ensures
            name@ == preset_name(self),
    {
        match self {
            QualityPreset::Low => {
                proof {
                    reveal_strlit("low");
                }
                "low"
            },
            QualityPreset::Medium => {
                proof {
                    reveal_strlit("medium");
                }
                "medium"
            },
            QualityPreset::High => {
                proof {
                    reveal_strlit("high");
                }
                "high"
            },
            QualityPreset::Ultra => {
                proof {
                    reveal_strlit("ultra");
                }
                "ultra"
            },
            QualityPreset::Photo => {
                proof {
                    reveal_strlit("photo");
                }
                "photo"
            },
        }
    }

    /// Case-insensitive and blind to surrounding whitespace, for `--quality`
    /// and for the dev panel.
    pub fn parse(raw: &str) -> (preset: Option<QualityPreset>)
        ensures
            preset == preset_named(raw@),
    {
        let typed = normalize(raw);
        let tiers = QualityPreset::ALL;
        assert(tiers@ =~= all_presets());
        let mut i: usize = 0;
        while i < 5
            invariant
                tiers@ == all_presets(),
                typed@ == normalized(raw@),
                i <= 5,
                forall|j: int| 0 <= j < i ==> typed@ != preset_name(#[trigger] all_presets()[j]),
            decreases 5 - i,
        {
            let tier = tiers[i];
            if spells(&typed, tier.name()) {
                return Some(tier);
            }
            i = i + 1;
        }
        proof {
            assert(typed@ != preset_name(all_presets()[0]));
            assert(typed@ != preset_name(all_presets()[1]));
            assert(typed@ != preset_name(all_presets()[2]));
            assert(typed@ != preset_name(all_presets()[3]));
            assert(typed@ != preset_name(all_presets()[4]));
        }
        None
    }

    /// The settings row for this tier.
    pub fn settings(self) -> (settings: GraphicsSettings)
        ensures
            settings == preset_settings(self),
    {
        match self {
            QualityPreset::Low => GraphicsSettings {
                requested: self,
                shadow_map_size: 2048,
                shadow_distance: 300,
                cascades: 2,
                soft_shadows: false,
                contact_shadows: false,
                ssao: Some(AoQuality::Low),
                ssr: false,
                volumetrics: Volumetrics::Off,
                motion_blur: false,
                depth_of_field: false,
                lens: false,
                lod_scale: LodScale::Percent(60),
                raytracing: false,
                // No history buffer at all: on this hardware TAA's resolve
                // costs more than the aliasing it removes.
                upscaling: Upscaling::Off,
            },
            QualityPreset::Medium => GraphicsSettings {
                requested: self,
                shadow_map_size: 2048,
                shadow_distance: 500,
                cascades: 3,
                soft_shadows: false,
                contact_shadows: true,
                ssao: Some(AoQuality::Medium),
                ssr: false,
                volumetrics: Volumetrics::Fog,
                motion_blur: false,
                depth_of_field: false,
                lens: false,
                lod_scale: LodScale::Percent(85),
                raytracing: false,
                upscaling: Upscaling::Taa,
            },
            QualityPreset::High => GraphicsSettings {
                requested: self,
                shadow_map_size: 4096,
                shadow_distance: 900,
                cascades: 4,
                soft_shadows: true,
                contact_shadows: true,
                ssao: Some(AoQuality::High),
                ssr: true,
                volumetrics: Volumetrics::FogAndLights,
                motion_blur: true,
                depth_of_field: false,
                lens: true,
                lod_scale: LodScale::Percent(100),
                raytracing: false,
                upscaling: Upscaling::Taa,
            },
            QualityPreset::Ultra => GraphicsSettings {
                requested: self,
                shadow_map_size: 8192,
                shadow_distance: 1200,
                cascades: 4,
                soft_shadows: true,
                contact_shadows: true,
                // Raytraced lighting computes its own occlusion; a second
                // screen-space estimate on top double-darkens corners.
                ssao: None,
                ssr: false,
                volumetrics: Volumetrics::FogAndLights,
                motion_blur: true,
                depth_of_field: true,
                lens: true,
                lod_scale: LodScale::Percent(130),
                raytracing: true,
                upscaling: Upscaling::Dlss,
            },
            QualityPreset::Photo => GraphicsSettings {
                requested: self,
                shadow_map_size: 8192,
                shadow_distance: 2000,
                cascades: 4,
                soft_shadows: true,
                contact_shadows: true,
                ssao: None,
                ssr: false,
                volumetrics: Volumetrics::FogAndLights,
                // A still has no shutter.
                motion_blur: false,
                depth_of_field: true,
                lens: true,
                // A still is judged at full size: nothing may drop detail.
                lod_scale: LodScale::Unlimited,
                raytracing: true,
                upscaling: Upscaling::Taa,
            },
        }
    }
}

impl Default for QualityPreset {
    fn default() -> (p: QualityPreset)
        ensures
            p == QualityPreset::High,
    {
        QualityPreset::High
    }
}

impl Default for GraphicsSettings {
    fn default() -> (s: GraphicsSettings)
        ensures
            s == preset_settings(QualityPreset::High),
    {
        QualityPreset::High.settings()
    }
}

impl Capabilities {
    /// Everything available: the baseline the preset table is written against.
    pub fn all() -> (caps: Capabilities)
        ensures
            caps.raytracing,
            caps.dlss,
    {
        Capabilities { raytracing: true, dlss: true }
    }
}

impl Default for Capabilities {
    /// Nothing reported, which is what a machine without a render device gets.
    fn default() -> (caps: Capabilities)
        ensures
            !caps.raytracing,
            !caps.dlss,
    {
        Capabilities { raytracing: false, dlss: false }
    }
}

impl GraphicsSettings {
    /// Walks the settings back to what this machine can actually run.
    pub fn downgrade(self, caps: Capabilities) -> (s: GraphicsSettings)
        ensures
            s == downgraded(self, caps),
    {
        let mut s = self;
        if s.raytracing && !caps.raytracing {
            s.raytracing = false;
            s.ssr = true;
            s.ssao =
            match s.ssao {
                Some(q) => Some(q),
                None => Some(AoQuality::High),
            };
        }
        if s.upscaling == Upscaling::Dlss && !caps.dlss {
            s.upscaling = Upscaling::Taa;
        }
        s
    }

    /// True when TAA, DLSS or motion blur needs the motion-vector prepass.
    pub fn needs_motion_vectors(&self) -> (b: bool)
        ensures
            b == wants_motion_vectors(*self),
    {
        self.motion_blur || match self.upscaling {
            Upscaling::Taa | Upscaling::Dlss => true,
            Upscaling::Off => false,
        }
    }
}

/// Going up the ladder never takes anything away: a higher tier has at least
/// the shadow map, shadow distance, cascades and volumetrics of a lower one,
/// and keeps every soft-shadow, contact-shadow and lens effect it had.
pub proof fn lemma_nothing_gets_cheaper_going_up(lower: QualityPreset, upper: QualityPreset)
    requires
        rank(lower) <= rank(upper),
    ensures
        preset_settings(upper).shadow_map_size >= preset_settings(lower).shadow_map_size,
        preset_settings(upper).shadow_distance >= preset_settings(lower).shadow_distance,
        preset_settings(upper).cascades >= preset_settings(lower).cascades,
        volumetrics_rank(preset_settings(upper).volumetrics) >= volumetrics_rank(
            preset_settings(lower).volumetrics,
        ),
        preset_settings(lower).soft_shadows ==> preset_settings(upper).soft_shadows,
        preset_settings(lower).contact_shadows ==> preset_settings(upper).contact_shadows,
        preset_settings(lower).lens ==> preset_settings(upper).lens,
{
}

/// Among the playable tiers (all but Photo) detail is held strictly further
/// out at each step up, and Photo never drops detail at all.
pub proof fn lemma_detail_reaches_further_each_playable_tier(
    lower: QualityPreset,
    upper: QualityPreset,
)
    requires
        rank(lower) < rank(upper),
        upper != QualityPreset::Photo,
    ensures
        preset_settings(lower).lod_scale is Percent,
        preset_settings(upper).lod_scale is Percent,
        preset_settings(lower).lod_scale->Percent_0 < preset_settings(upper).lod_scale->Percent_0,
        preset_settings(QualityPreset::Photo).lod_scale == LodScale::Unlimited,
{
}

/// Every tier lights its corners somehow: ambient occlusion, or raytracing.
pub proof fn lemma_every_tier_has_an_occlusion_term(p: QualityPreset)
    ensures
        preset_settings(p).ssao is Some || preset_settings(p).raytracing,
        preset_settings(p).requested == p,
{
}

/// Only Low can skip the motion-vector prepass; Photo has no shutter effects.
pub proof fn lemma_motion_vectors_follow_the_passes_that_read_them(p: QualityPreset)
    ensures
        wants_motion_vectors(preset_settings(p)) <==> p != QualityPreset::Low,
        !preset_settings(QualityPreset::Photo).motion_blur,
{
}

/// On hardware that has everything, downgrading changes nothing.
pub proof fn lemma_downgrade_on_capable_hardware_is_identity(s: GraphicsSettings)
    ensures
        downgraded(s, Capabilities { raytracing: true, dlss: true }) == s,
{
}

/// Downgrading twice against the same hardware is the same as once.
pub proof fn lemma_downgrade_is_idempotent(s: GraphicsSettings, caps: Capabilities)
    ensures
        downgraded(downgraded(s, caps), caps) == downgraded(s, caps),
{
}

/// What a downgrade guarantees: the result runs on `caps`, keeps what was
/// requested, never loses an occlusion term, replaces lost raytracing with
/// screen-space reflections and ambient occlusion, leaves a temporal pass
/// behind when DLSS is lost, and treats the two capabilities independently.
pub proof fn lemma_downgrade_falls_back_rather_than_to_nothing(
    s: GraphicsSettings,
    caps: Capabilities,
)
    ensures
        downgraded(s, caps).requested == s.requested,
        downgraded(s, caps).raytracing ==> caps.raytracing,
        downgraded(s, caps).upscaling == Upscaling::Dlss ==> caps.dlss,
        s.ssao is Some || s.raytracing ==> downgraded(s, caps).ssao is Some || downgraded(
            s,
            caps,
        ).raytracing,
        s.raytracing && !caps.raytracing ==> downgraded(s, caps).ssr && downgraded(
            s,
            caps,
        ).ssao is Some,
        s.upscaling == Upscaling::Dlss && !caps.dlss ==> downgraded(s, caps).upscaling
            == Upscaling::Taa,
        caps.raytracing ==> downgraded(s, caps).raytracing == s.raytracing,
        caps.dlss ==> downgraded(s, caps).upscaling == s.upscaling,
        wants_motion_vectors(s) ==> wants_motion_vectors(downgraded(s, caps)),
{
}

/// `ALL` lists every tier once, climbing the ladder from Low to Photo.
pub proof fn lemma_all_climbs_the_ladder(p: QualityPreset)
    ensures
        QualityPreset::ALL@ == all_presets(),
        all_presets().contains(p),
        forall|i: int, j: int| 0 <= i < j < 5 ==> rank(#[trigger] all_presets()[i]) < rank(#[trigger] all_presets()[j]),
{
    assert(QualityPreset::ALL@ =~= all_presets());
    assert(all_presets()[rank(p)] == p);
}

/// Every preset's name reads back as that preset, the names are all
/// different, and surrounding whitespace or capitals do not matter.
pub proof fn lemma_names_round_trip(p: QualityPreset, raw: Seq<char>)
    ensures
        preset_named(preset_name(p)) == Some(p),
        normalized(raw) == preset_name(p) ==> preset_named(raw) == Some(p),
        preset_named(raw) == Some(p) ==> normalized(raw) == preset_name(p),
{
    lemma_name_is_already_normal(p);
}

proof fn lemma_name_is_already_normal(p: QualityPreset)
    ensures
        normalized(preset_name(p)) == preset_name(p),
{
    let n = preset_name(p);
    reveal_with_fuel(crate::text::trim_start, 2);
    reveal_with_fuel(crate::text::trim_end, 2);
    assert(!crate::text::is_white_space(n[0]));
    assert(!crate::text::is_white_space(n.last()));
    assert(crate::text::trim_start(n) == n);
    assert(crate::text::trim_end(n) == n);
    assert(crate::text::lower_ascii(n) =~= n);
}

/// What each tier buys, as the tiers are described: Low does no screen-space
/// work beyond ambient occlusion; from High up every tier has a reflection
/// term, screen-space or raytraced, and below High none does; raytracing is
/// what Ultra and Photo add, and it replaces both screen-space reflections
/// and screen-space ambient occlusion rather than running beside them;
/// contact shadows are the floor from Medium up; depth of field is a top-tier
/// setting; and Ultra pays for its raytracing with DLSS.
pub proof fn lemma_each_tier_buys_what_it_is_described_as(p: QualityPreset)
    ensures
        preset_settings(p).contact_shadows <==> rank(p) >= rank(QualityPreset::Medium),
        preset_settings(p).depth_of_field <==> rank(p) >= rank(QualityPreset::Ultra),
        preset_settings(QualityPreset::Ultra).upscaling == Upscaling::Dlss,
        preset_settings(QualityPreset::Low).ssao is Some,
        !preset_settings(QualityPreset::Low).ssr,
        !preset_settings(QualityPreset::Low).contact_shadows,
        preset_settings(QualityPreset::Low).volumetrics == Volumetrics::Off,
        preset_settings(QualityPreset::High).ssr,
        preset_settings(QualityPreset::High).volumetrics != Volumetrics::Off,
        (preset_settings(p).ssr || preset_settings(p).raytracing) <==> rank(p) >= rank(
            QualityPreset::High,
        ),
        preset_settings(p).raytracing <==> rank(p) >= rank(QualityPreset::Ultra),
        preset_settings(p).raytracing ==> !preset_settings(p).ssr && preset_settings(p).ssao is None,
{
}

} // verus!
