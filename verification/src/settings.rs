//! The player's input actions, and the handful of them a player may rebind.

use vstd::prelude::*;

verus! {

/// Everything the player can ask for.
#[derive(Debug, Clone, Copy, PartialEq, Eq, Hash, Structural)]
pub enum Action {
    /// A two-axis movement input.
    Move,
    /// A two-axis look input.
    Look,
    Jump,
    Sprint,
    Interact,
    Taunt,
    Cheer,
    Handbrake,
    Pause,
    /// Opens the full-screen city map.
    CityMap,
    QuickSave,
    QuickLoad,
    ToggleDebugCamera,
}

/// The actions a player may put on another key. Axes and mouse buttons are
/// not among them, so the menu never has to refuse a rebind.
#[derive(Debug, Clone, Copy, PartialEq, Eq, Hash, Structural)]
pub enum RebindableAction {
    Jump,
    Sprint,
    Interact,
    Handbrake,
    Pause,
    /// Opens the full-screen city map.
    CityMap,
    QuickSave,
    QuickLoad,
    ToggleDebugCamera,
}

/// The rebindable actions in the order the controls screen lists them.
pub open spec fn all_rebindable() -> Seq<RebindableAction> {
    seq![
        RebindableAction::Jump,
        RebindableAction::Sprint,
        RebindableAction::Interact,
        RebindableAction::Handbrake,
        RebindableAction::Pause,
        RebindableAction::CityMap,
        RebindableAction::QuickSave,
        RebindableAction::QuickLoad,
        RebindableAction::ToggleDebugCamera,
    ]
}

/// What the controls screen calls each action.
pub open spec fn rebind_label(a: RebindableAction) -> Seq<char> {
    match a {
        RebindableAction::Jump => "Springen"@,
        RebindableAction::Sprint => "Sprinten"@,
        RebindableAction::Interact => "Interagieren / Einsteigen"@,
        RebindableAction::Handbrake => "Handbremse"@,
        RebindableAction::Pause => "Menü"@,
        RebindableAction::CityMap => "Karte"@,
        RebindableAction::QuickSave => "Schnellspeichern"@,
        RebindableAction::QuickLoad => "Schnellladen"@,
        RebindableAction::ToggleDebugCamera => "Freie Kamera (Debug)"@,
    }
}

/// The input action a rebindable action stands for: the one of the same name.
pub open spec fn action_of(a: RebindableAction) -> Action {
    match a {
        RebindableAction::Jump => Action::Jump,
        RebindableAction::Sprint => Action::Sprint,
        RebindableAction::Interact => Action::Interact,
        RebindableAction::Handbrake => Action::Handbrake,
        RebindableAction::Pause => Action::Pause,
        RebindableAction::CityMap => Action::CityMap,
        RebindableAction::QuickSave => Action::QuickSave,
        RebindableAction::QuickLoad => Action::QuickLoad,
        RebindableAction::ToggleDebugCamera => Action::ToggleDebugCamera,
    }
}

impl RebindableAction {
    /// Every rebindable action, in menu order.
    pub const ALL: [RebindableAction; 9] = [
        RebindableAction::Jump,
        RebindableAction::Sprint,
        RebindableAction::Interact,
        RebindableAction::Handbrake,
        RebindableAction::Pause,
        RebindableAction::CityMap,
        RebindableAction::QuickSave,
        RebindableAction::QuickLoad,
        RebindableAction::ToggleDebugCamera,
    ];

    pub fn label(self) -> (label: &'static str)
        ensures
            label@ == rebind_label(self),
    {
        match self {
            RebindableAction::Jump => "Springen",
            RebindableAction::Sprint => "Sprinten",
            RebindableAction::Interact => "Interagieren / Einsteigen",
            RebindableAction::Handbrake => "Handbremse",
            RebindableAction::Pause => "Menü",
            RebindableAction::CityMap => "Karte",
            RebindableAction::QuickSave => "Schnellspeichern",
            RebindableAction::QuickLoad => "Schnellladen",
            RebindableAction::ToggleDebugCamera => "Freie Kamera (Debug)",
        }
    }

    pub fn action(self) -> (action: Action)
        ensures
            action == action_of(self),
    {
        match self {
            RebindableAction::Jump => Action::Jump,
            RebindableAction::Sprint => Action::Sprint,
            RebindableAction::Interact => Action::Interact,
            RebindableAction::Handbrake => Action::Handbrake,
            RebindableAction::Pause => Action::Pause,
            RebindableAction::CityMap => Action::CityMap,
            RebindableAction::QuickSave => Action::QuickSave,
            RebindableAction::QuickLoad => Action::QuickLoad,
            RebindableAction::ToggleDebugCamera => Action::ToggleDebugCamera,
        }
    }
}

/// The menu lists every rebindable action exactly once, no two of them
/// drive the same input action, and none of them is an axis.
pub proof fn lemma_rebindable_actions_are_distinct(a: RebindableAction, b: RebindableAction)
    ensures
        RebindableAction::ALL@ == all_rebindable(),
        all_rebindable().contains(a),
        all_rebindable().no_duplicates(),
        a != b ==> action_of(a) != action_of(b),
        action_of(a) != Action::Move && action_of(a) != Action::Look,
{
    let s = all_rebindable();
    assert(RebindableAction::ALL@ =~= s);
    assert(s[0] == RebindableAction::Jump);
    assert(s[1] == RebindableAction::Sprint);
    assert(s[2] == RebindableAction::Interact);
    assert(s[3] == RebindableAction::Handbrake);
    assert(s[4] == RebindableAction::Pause);
    assert(s[5] == RebindableAction::CityMap);
    assert(s[6] == RebindableAction::QuickSave);
    assert(s[7] == RebindableAction::QuickLoad);
    assert(s[8] == RebindableAction::ToggleDebugCamera);
}

/// Among the keys pressed this frame while an action waits for a new key,
/// each marked by whether it is Escape: the one that is bound, the first that
/// is not Escape, since Escape stays reserved for cancelling; none where every
/// key pressed was Escape, or none was pressed.
pub fn rebind_choice(is_escape: &Vec<bool>) -> (chosen: Option<usize>)
    ensures
        match chosen {
            Some(i) => i < is_escape@.len() && !is_escape@[i as int] && forall|j: int|
                0 <= j < i ==> #[trigger] is_escape@[j],
            None => forall|j: int| 0 <= j < is_escape@.len() ==> #[trigger] is_escape@[j],
        },
{
    let mut i: usize = 0;
    while i < is_escape.len()
        invariant
            i <= is_escape@.len(),
            forall|j: int| 0 <= j < i ==> #[trigger] is_escape@[j],
        decreases is_escape@.len() - i,
    {
        if !is_escape[i] {
            return Some(i);
        }
        i = i + 1;
    }
    None
}

/// Each rebindable action drives the input action of the same name, so
/// rebinding an entry on the controls screen moves exactly that action.
pub proof fn lemma_each_rebindable_action_drives_its_namesake()
    ensures
        action_of(RebindableAction::Jump) == Action::Jump,
        action_of(RebindableAction::Sprint) == Action::Sprint,
        action_of(RebindableAction::Interact) == Action::Interact,
        action_of(RebindableAction::Handbrake) == Action::Handbrake,
        action_of(RebindableAction::Pause) == Action::Pause,
        action_of(RebindableAction::CityMap) == Action::CityMap,
        action_of(RebindableAction::QuickSave) == Action::QuickSave,
        action_of(RebindableAction::QuickLoad) == Action::QuickLoad,
        action_of(RebindableAction::ToggleDebugCamera) == Action::ToggleDebugCamera,
{
}

} // verus!
