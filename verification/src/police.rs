//! How hard the police come after a wanted player, and what each unit does.
//!
//! The pursuit is a three-state machine. `Responding` drives to where the
//! player was last reported. `Chasing` runs when an officer can actually see
//! them. `Searching` sweeps the last known position after losing sight, for a
//! fixed search time, which is what gives the player the seconds they need to
//! get out of view and stay there: the pursuit does not teleport its knowledge.

use vstd::prelude::*;

verus! {

#[derive(Debug, Clone, Copy, PartialEq, Eq, Hash, Structural)]
pub enum PursuitState {
    /// Heading for the last reported position.
    Responding,
    /// Eyes on the target.
    Chasing,
    /// Lost them; sweeping where they were last seen.
    Searching,
}

/// Cruisers on the street at each wanted level.
pub open spec fn cruisers(stars: u8) -> usize {
    if stars == 0 {
        0
    } else if stars == 1 {
        1
    } else if stars == 2 {
        2
    } else if stars == 3 {
        4
    } else if stars == 4 {
        6
    } else {
        8
    }
}

/// How many cruisers each wanted level puts on the street.
pub fn units_for_stars(stars: u8) -> (units: usize)
    ensures
        units == cruisers(stars),
{
    match stars {
        0 => 0,
        1 => 1,
        2 => 2,
        3 => 4,
        4 => 6,
        _ => 8,
    }
}

/// Below two stars they shadow the player; from two up they drive to stop them.
pub fn will_ram(stars: u8) -> (ram: bool)
    ensures
        ram == (stars >= 2),
{
    stars >= 2
}

/// The response escalates with the wanted level: no stars means no police,
/// the count never shrinks as stars rise, and five stars field far more
/// cruisers than one.
pub proof fn lemma_response_escalates(lower: u8, higher: u8)
    requires
        lower <= higher,
    ensures
        cruisers(0) == 0,
        cruisers(lower) <= cruisers(higher),
        cruisers(5) > cruisers(1),
        cruisers(higher) <= 8,
{
}

/// Where a unit is heading this frame.
#[derive(Debug, Clone, Copy, PartialEq, Eq, Hash, Structural)]
pub enum PursuitGoal {
    /// The player, who is in sight.
    Target,
    /// Where the player was last known to be.
    LastKnown,
    /// Nowhere to go: the unit stops and holds the handbrake.
    Halt,
}

/// One unit's next state given whether it has the player in sight and, while
/// searching, whether the search time has run out; and whether the search
/// timer restarts at its full length. Sight always means a chase and restarts
/// the timer; losing sight turns a chase into a search, also with a fresh
/// timer; a search that runs out falls back to responding; a responding unit
/// keeps responding until it sees the player.
pub open spec fn pursuit_next(state: PursuitState, has_sight: bool, search_expired: bool) -> (PursuitState, bool) {
    if has_sight {
        (PursuitState::Chasing, true)
    } else {
        match state {
            PursuitState::Chasing => (PursuitState::Searching, true),
            PursuitState::Searching => if search_expired {
                (PursuitState::Responding, false)
            } else {
                (PursuitState::Searching, false)
            },
            PursuitState::Responding => (PursuitState::Responding, false),
        }
    }
}

/// The goal: the player while in sight, otherwise the last known position if
/// there is one, otherwise nothing.
pub open spec fn pursuit_target(has_sight: bool, knows_last_position: bool) -> PursuitGoal {
    if has_sight {
        PursuitGoal::Target
    } else if knows_last_position {
        PursuitGoal::LastKnown
    } else {
        PursuitGoal::Halt
    }
}

/// Whether a unit may drive into what is ahead of it: only with ramming
/// authorised at this wanted level, the target in sight, and within range of
/// driving at it directly.
pub open spec fn may_ram(stars: u8, has_sight: bool, within_direct_range: bool) -> bool {
    stars >= 2 && has_sight && within_direct_range
}

/// Advances one unit's pursuit state.
pub fn pursuit_step(state: PursuitState, has_sight: bool, search_expired: bool) -> (next: (PursuitState, bool))
    ensures
        next == pursuit_next(state, has_sight, search_expired),
{
    if has_sight {
        return (PursuitState::Chasing, true);
    }
    match state {
        PursuitState::Chasing => (PursuitState::Searching, true),
        PursuitState::Searching => {
            if search_expired {
                (PursuitState::Responding, false)
            } else {
                (PursuitState::Searching, false)
            }
        },
        PursuitState::Responding => (PursuitState::Responding, false),
    }
}

/// Where a unit heads this frame.
pub fn pursuit_goal(has_sight: bool, knows_last_position: bool) -> (goal: PursuitGoal)
    ensures
        goal == pursuit_target(has_sight, knows_last_position),
{
    if has_sight {
        PursuitGoal::Target
    } else if knows_last_position {
        PursuitGoal::LastKnown
    } else {
        PursuitGoal::Halt
    }
}

/// Whether a unit that finds something blocking its way drives on into it
/// rather than reversing.
pub fn rams(stars: u8, has_sight: bool, within_direct_range: bool) -> (ram: bool)
    ensures
        ram == may_ram(stars, has_sight, within_direct_range),
{
    will_ram(stars) && has_sight && within_direct_range
}

/// The path the road graph returned, without the junction the unit stands on:
/// no path gives no route, and otherwise the route is the path less its first
/// node, so a path of one node (the unit and its goal share a junction)
/// gives no route either.
pub open spec fn route_of(path: Option<Seq<usize>>) -> Seq<usize> {
    match path {
        None => Seq::empty(),
        Some(p) => if p.len() == 0 {
            p
        } else {
            p.drop_first()
        },
    }
}

/// A route from the path the road graph found between the nodes nearest the
/// unit and its goal (`None` where either has no node or no path exists),
/// excluding the junction the unit already stands on.
pub fn route_from_path(path: Option<Vec<usize>>) -> (route: Vec<usize>)
    ensures
        route@ == route_of(
            match path {
                Some(p) => Some(p@),
                None => None,
            },
        ),
{
    match path {
        None => Vec::new(),
        Some(p) => {
            if p.len() == 0 {
                p
            } else {
                let mut route: Vec<usize> = Vec::new();
                let mut i: usize = 1;
                while i < p.len()
                    invariant
                        1 <= i <= p@.len(),
                        route@ =~= p@.subrange(1, i as int),
                    decreases p@.len() - i,
                {
                    route.push(p[i]);
                    i = i + 1;
                }
                assert(route@ =~= p@.drop_first());
                route
            }
        },
    }
}

/// Sight always means a chase; without sight no unit ever starts chasing;
/// the search timer restarts exactly when the unit sees the player or has just
/// lost them; a search ends only when its time runs out, and then the unit
/// responds; without sight the goal is never the player; and no unit rams
/// what it cannot see, nor below two stars.
pub proof fn lemma_pursuit_follows_what_the_unit_can_see(
    state: PursuitState,
    has_sight: bool,
    expired: bool,
    knows: bool,
    stars: u8,
    within_direct_range: bool,
)
    ensures
        has_sight ==> pursuit_next(state, has_sight, expired).0 == PursuitState::Chasing,
        !has_sight ==> pursuit_next(state, has_sight, expired).0 != PursuitState::Chasing,
        pursuit_next(state, has_sight, expired).1 == (has_sight || state == PursuitState::Chasing),
        state == PursuitState::Searching && !has_sight ==> (pursuit_next(state, has_sight, expired).0
            == PursuitState::Responding <==> expired),
        state == PursuitState::Responding && !has_sight ==> pursuit_next(state, has_sight, expired).0
            == PursuitState::Responding,
        (pursuit_target(has_sight, knows) == PursuitGoal::Target) == has_sight,
        may_ram(stars, has_sight, within_direct_range) ==> has_sight && stars >= 2,
{
}

/// A fresh route never contains the junction the unit stands on (when the
/// path does not revisit it), is one node shorter than the path, and still
/// ends at the goal when the goal is another junction.
pub proof fn lemma_route_skips_where_we_stand(p: Seq<usize>)
    requires
        p.len() >= 1,
        p.no_duplicates(),
    ensures
        route_of(Some(p)).len() == p.len() - 1,
        !route_of(Some(p)).contains(p[0]),
        p.len() >= 2 ==> route_of(Some(p)).last() == p.last(),
{
    let r = route_of(Some(p));
    if r.contains(p[0]) {
        let k = choose|k: int| 0 <= k < r.len() && r[k] == p[0];
        assert(p[k + 1] == p[0]);
    }
}

} // verus!
