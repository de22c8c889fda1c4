//! What counts as a crime, and whether anybody has to see it.

use vstd::prelude::*;

verus! {

#[derive(Debug, Clone, Copy, PartialEq, Eq, Hash, Structural)]
pub enum CrimeKind {
    /// Taking a car that is not yours.
    VehicleTheft,
    /// Discharging a weapon in public.
    Gunfire,
    /// Running someone over and driving on.
    HitAndRun,
    KilledCivilian,
    DestroyedVehicle,
    AssaultedOfficer,
    KilledOfficer,
}

/// Stealing a car on an empty street is free; shooting one is not, because
/// the noise carries. Theft and hit-and-run need a witness; everything else
/// is its own witness.
pub open spec fn is_quiet(kind: CrimeKind) -> bool {
    kind == CrimeKind::VehicleTheft || kind == CrimeKind::HitAndRun
}

impl CrimeKind {
    /// Whether somebody has to see it for it to count.
    pub fn needs_witness(self) -> (b: bool)
        ensures
            b == is_quiet(self),
    {
        match self {
            CrimeKind::VehicleTheft | CrimeKind::HitAndRun => true,
            CrimeKind::Gunfire
            | CrimeKind::KilledCivilian
            | CrimeKind::DestroyedVehicle
            | CrimeKind::AssaultedOfficer
            | CrimeKind::KilledOfficer => false,
        }
    }
}

} // verus!
