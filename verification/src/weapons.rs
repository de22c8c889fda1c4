//! Hitscan weapons: which ones there are, and when a trigger fires one.

use vstd::prelude::*;

verus! {

#[derive(Debug, Clone, Copy, PartialEq, Eq, Hash, Structural)]
pub enum WeaponKind {
    Pistol,
    Smg,
}

pub open spec fn weapon_name(kind: WeaponKind) -> Seq<char> {
    match kind {
        WeaponKind::Pistol => "Pistol"@,
        WeaponKind::Smg => "SMG"@,
    }
}

/// Whether a trigger produces a shot this frame: never from an empty
/// magazine or before the weapon has cycled; otherwise an automatic fires
/// while the trigger is held and anything else once per press.
pub open spec fn fires(kind: WeaponKind, ammo: u32, cycled: bool, held: bool, pressed_now: bool) -> bool {
    ammo > 0 && cycled && if kind == WeaponKind::Smg {
        held
    } else {
        pressed_now
    }
}

impl WeaponKind {
    /// Whether holding the trigger keeps firing.
    pub fn is_automatic(self) -> (auto: bool)
        ensures
            auto == (self == WeaponKind::Smg),
    {
        match self {
            WeaponKind::Smg => true,
            WeaponKind::Pistol => false,
        }
    }

    pub fn name(self) -> (name: &'static str)
        ensures
            name@ == weapon_name(self),
    {
        match self {
            WeaponKind::Pistol => "Pistol",
            WeaponKind::Smg => "SMG",
        }
    }

    /// The trigger decision for a weapon of this kind holding `ammo` rounds;
    /// `cycled` says whether the time since the last shot has reached the
    /// kind's cooldown.
    pub fn trigger_fires(self, ammo: u32, cycled: bool, held: bool, pressed_now: bool) -> (shot: bool)
        ensures
            shot == fires(self, ammo, cycled, held, pressed_now),
    {
        if ammo == 0 || !cycled {
            return false;
        }
        if self.is_automatic() {
            held
        } else {
            pressed_now
        }
    }
}

/// A pistol fires once per press and never from a held trigger alone; an
/// SMG keeps firing while held, and only while held; nothing fires empty,
/// before it has cycled, or with the trigger left alone.
pub proof fn lemma_trigger_discipline(kind: WeaponKind, ammo: u32, cycled: bool, held: bool, pressed: bool)
    ensures
        !held && !pressed ==> !fires(kind, ammo, cycled, held, pressed),
        fires(WeaponKind::Smg, ammo, cycled, held, pressed) == (ammo > 0 && cycled && held),
        fires(WeaponKind::Pistol, ammo, cycled, held, pressed) == (ammo > 0 && cycled && pressed),
        !fires(kind, 0, cycled, held, pressed),
        !fires(kind, ammo, false, held, pressed),
        !fires(WeaponKind::Pistol, ammo, cycled, held, false),
        ammo > 0 && cycled ==> fires(WeaponKind::Smg, ammo, cycled, true, pressed),
        ammo > 0 && cycled ==> fires(WeaponKind::Pistol, ammo, cycled, held, true),
{
}

} // verus!
