//! Missions as a state machine.
//!
//! A mission is a list of objectives worked through in order. Whether the
//! current objective's condition holds is decided against a snapshot of the
//! world; what follows from that decision is decided here, by a pure step
//! function, so every branch is reachable without driving across a city.

use vstd::prelude::*;

verus! {

/// What one step of a mission did.
#[derive(Debug, Clone, Copy, PartialEq, Eq, Hash, Structural)]
pub enum Progress {
    /// Still working on the current objective.
    Working,
    /// Objective done, moved to the next.
    Advanced,
    /// Every objective done.
    Complete,
}

/// One job: its objectives in order, and what it pays.
#[derive(Debug, Clone)]
pub struct Mission<O> {
    pub id: String,
    pub name: String,
    pub brief: String,
    pub objectives: Vec<O>,
    pub reward: u32,
}

/// A mission being played.
#[derive(Debug, Clone)]
pub struct ActiveMission<O> {
    pub mission: Mission<O>,
    /// The objective being worked on.
    pub index: usize,
    pub finished: bool,
}

/// The player's cash.
#[derive(Debug, Clone, Copy, PartialEq, Eq, Hash, Structural)]
pub struct Money(pub u32);

/// The jobs done so far, and which job in the chain comes next.
#[derive(Debug, Clone)]
pub struct Campaign {
    pub completed: Vec<String>,
    pub next: usize,
}

/// The mission's position after one step, as (index, finished, result),
/// given whether the current objective's condition holds.
pub open spec fn stepped(index: nat, count: nat, finished: bool, satisfied: bool) -> (nat, bool, Progress) {
    if finished {
        (index, true, Progress::Complete)
    } else if index >= count {
        (index, true, Progress::Complete)
    } else if !satisfied {
        (index, false, Progress::Working)
    } else if index + 1 >= count {
        (index + 1, true, Progress::Complete)
    } else {
        (index + 1, false, Progress::Advanced)
    }
}

impl<O> ActiveMission<O> {
    /// Whether the position is one a mission can be in: never past its last
    /// objective, and finished only once every objective is done.
    pub open spec fn well_formed(&self) -> bool {
        &&& self.index <= self.mission.objectives.len()
        &&& self.finished ==> self.index == self.mission.objectives.len()
    }

    pub fn new(mission: Mission<O>) -> (active: ActiveMission<O>)
        ensures
            active.mission == mission,
            active.index == 0,
            !active.finished,
            active.well_formed(),
    {
        ActiveMission { mission, index: 0, finished: false }
    }

    /// The objective being worked on, if any is left.
    pub fn current(&self) -> (objective: Option<&O>)
        ensures
            self.index < self.mission.objectives.len() ==> objective == Some(
                &self.mission.objectives@[self.index as int],
            ),
            self.index >= self.mission.objectives.len() ==> objective is None,
    {
        if self.index < self.mission.objectives.len() {
            Some(&self.mission.objectives[self.index])
        } else {
            None
        }
    }

    /// Takes one step: `satisfied` says whether the current objective's
    /// condition holds. A finished mission stays finished; an unsatisfied
    /// objective keeps the mission where it is; a satisfied one moves it on
    /// to the next objective, or finishes it after the last.
    pub fn advance(&mut self, satisfied: bool) -> (progress: Progress)
        ensures
            (final(self).index as nat, final(self).finished, progress) == stepped(
                old(self).index as nat,
                old(self).mission.objectives.len() as nat,
                old(self).finished,
                satisfied,
            ),
            final(self).mission == old(self).mission,
    {
        if self.finished {
            return Progress::Complete;
        }
        if self.index >= self.mission.objectives.len() {
            self.finished = true;
            return Progress::Complete;
        }
        if !satisfied {
            return Progress::Working;
        }
        self.index = self.index + 1;
        if self.index >= self.mission.objectives.len() {
            self.finished = true;
            Progress::Complete
        } else {
            Progress::Advanced
        }
    }
}

impl Default for Campaign {
    fn default() -> (campaign: Campaign)
        ensures
            campaign.completed@.len() == 0,
            campaign.next == 0,
    {
        Campaign { completed: Vec::new(), next: 0 }
    }
}

impl Default for Money {
    fn default() -> (money: Money)
        ensures
            money.0 == 0,
    {
        Money(0)
    }
}

impl Campaign {
    /// Pays out a finished job and records it, so the chain moves on to the
    /// next one.
    pub fn complete(&mut self, money: &mut Money, id: String, reward: u32)
        requires
            old(money).0 + reward <= u32::MAX,
            old(self).next < usize::MAX,
        ensures
            final(money).0 == old(money).0 + reward,
            final(self).completed@ == old(self).completed@.push(id),
            final(self).next == old(self).next + 1,
    {
        money.0 = money.0 + reward;
        self.completed.push(id);
        self.next = self.next + 1;
    }
}

/// Steps keep a mission well formed; objectives are done in order, one at a
/// time and only when satisfied; a finished mission stays finished; and a
/// step reports `Complete` exactly when it leaves the mission finished.
pub proof fn lemma_missions_run_in_order(index: nat, count: nat, finished: bool, satisfied: bool)
    requires
        index <= count,
        finished ==> index == count,
    ensures
        ({
            let (i, f, p) = stepped(index, count, finished, satisfied);
            &&& i <= count
            &&& f ==> i == count
            &&& i == index || (i == index + 1 && satisfied && !finished)
            &&& finished ==> f && i == index && p == Progress::Complete
            &&& (p == Progress::Complete) == f
            &&& (p == Progress::Advanced) == (i == index + 1 && !f)
            &&& !satisfied ==> i == index
        }),
{
}

/// Once every objective is done the mission finishes on the step that did
/// the last one, and a mission with no objectives finishes on its first step.
pub proof fn lemma_the_last_objective_finishes_the_mission(index: nat, count: nat)
    requires
        index < count,
    ensures
        stepped(index, count, false, true).2 == if index + 1 == count {
            Progress::Complete
        } else {
            Progress::Advanced
        },
        stepped(0, 0, false, false) == (0nat, true, Progress::Complete),
{
}

} // verus!
