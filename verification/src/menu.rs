//! Game states, the pause menu's screens, and what the pause key does.
//!
//! The pause key opens the menu, or navigates back out of it one level at a
//! time: out of a key capture, then out of a submenu, then out of the menu.

use vstd::prelude::*;

use crate::settings::RebindableAction;

verus! {

/// The top-level state of the application.
#[derive(Debug, Clone, Copy, PartialEq, Eq, Hash, Structural)]
pub enum AppState {
    Loading,
    Menu,
    InGame,
}

/// Whether a game in progress is running or paused.
#[derive(Debug, Clone, Copy, PartialEq, Eq, Hash, Structural)]
pub enum InGameState {
    Playing,
    Paused,
}

/// Which screen of the pause menu is showing.
#[derive(Debug, Clone, Copy, PartialEq, Eq, Hash, Structural)]
pub enum MenuScreen {
    Root,
    SaveLoad,
    Settings,
    Controls,
}

/// How the gameplay camera is driven.
#[derive(Debug, Clone, Copy, PartialEq, Eq, Hash, Structural)]
pub enum CameraMode {
    /// Orbits the player. The normal gameplay view.
    Follow,
    /// Detached free-fly, for inspecting the world.
    Free,
}

/// Everything the pause key looks at and changes.
#[derive(Debug, Clone, Copy, PartialEq, Eq, Hash, Structural)]
pub struct PauseMenu {
    pub state: InGameState,
    pub screen: MenuScreen,
    /// The action waiting for its next key, while a rebind is being captured.
    pub awaiting: Option<RebindableAction>,
}

/// The menu after the pause key, and whether the settings are to be written
/// to disk on the way out of a settings-like screen.
pub open spec fn after_pause_key(m: PauseMenu) -> (PauseMenu, bool) {
    match m.state {
        InGameState::Playing => (
            PauseMenu { state: InGameState::Paused, screen: MenuScreen::Root, awaiting: None },
            false,
        ),
        InGameState::Paused => if m.awaiting is Some {
            (PauseMenu { awaiting: None, ..m }, false)
        } else if m.screen == MenuScreen::Root {
            (PauseMenu { state: InGameState::Playing, ..m }, false)
        } else {
            (PauseMenu { screen: MenuScreen::Root, ..m }, true)
        },
    }
}

/// The camera mode the debug-camera key switches to.
pub open spec fn other_mode(m: CameraMode) -> CameraMode {
    match m {
        CameraMode::Follow => CameraMode::Free,
        CameraMode::Free => CameraMode::Follow,
    }
}

impl Default for AppState {
    fn default() -> (s: AppState)
        ensures
            s == AppState::Loading,
    {
        AppState::Loading
    }
}

impl Default for InGameState {
    fn default() -> (s: InGameState)
        ensures
            s == InGameState::Playing,
    {
        InGameState::Playing
    }
}

impl Default for MenuScreen {
    fn default() -> (s: MenuScreen)
        ensures
            s == MenuScreen::Root,
    {
        MenuScreen::Root
    }
}

impl Default for CameraMode {
    fn default() -> (m: CameraMode)
        ensures
            m == CameraMode::Follow,
    {
        CameraMode::Follow
    }
}

impl CameraMode {
    /// The other mode: what the debug-camera key switches to.
    pub fn toggled(self) -> (other: CameraMode)
        ensures
            other == other_mode(self),
    {
        match self {
            CameraMode::Follow => CameraMode::Free,
            CameraMode::Free => CameraMode::Follow,
        }
    }
}

impl PauseMenu {
    /// What the pause key does. Opening the menu always lands on its root
    /// with no capture pending; inside it, the key first cancels a pending
    /// capture, then leaves a submenu for the root (returning `true`: the
    /// settings changed there are saved), then closes the menu.
    pub fn pause_key(&mut self) -> (save_settings: bool)
        ensures
            (*final(self), save_settings) == after_pause_key(*old(self)),
    {
        match self.state {
            InGameState::Playing => {
                self.state = InGameState::Paused;
                self.screen = MenuScreen::Root;
                self.awaiting = None;
                false
            },
            InGameState::Paused => {
                if self.awaiting.is_some() {
                    self.awaiting = None;
                    false
                } else if self.screen == MenuScreen::Root {
                    self.state = InGameState::Playing;
                    false
                } else {
                    self.screen = MenuScreen::Root;
                    true
                }
            },
        }
    }
}

/// Three presses of the pause key get out of any menu state, one level at a
/// time, and the settings are saved at most once on the way; from play, one
/// press opens the menu at its root.
pub proof fn lemma_three_presses_leave_any_menu(m: PauseMenu)
    requires
        m.state == InGameState::Paused,
    ensures
        ({
            let (m1, s1) = after_pause_key(m);
            let (m2, s2) = after_pause_key(m1);
            let (m3, s3) = after_pause_key(m2);
            &&& m1.state == InGameState::Playing || m2.state == InGameState::Playing
                || m3.state == InGameState::Playing
            &&& !(s1 && s2) && !(s2 && s3) && !(s1 && s3)
            &&& s1 <==> m.screen != MenuScreen::Root && m.awaiting is None
        }),
        after_pause_key((PauseMenu { state: InGameState::Playing, ..m })).0 == (PauseMenu {
            state: InGameState::Paused,
            screen: MenuScreen::Root,
            awaiting: None,
        }),
{
}

/// Switching the camera twice puts it back.
pub proof fn lemma_camera_toggle_is_an_involution(mode: CameraMode)
    ensures
        other_mode(other_mode(mode)) == mode,
        other_mode(mode) != mode,
{
}

/// The settings are written exactly when the pause key backs out of a
/// submenu (settings, controls, save and load alike) with no key capture
/// pending, and that press always lands on the root of a menu that stays open.
pub proof fn lemma_leaving_a_submenu_saves(m: PauseMenu)
    ensures
        after_pause_key(m).1 <==> (m.state == InGameState::Paused && m.awaiting is None && m.screen
            != MenuScreen::Root),
        after_pause_key(m).1 ==> after_pause_key(m).0.screen == MenuScreen::Root
            && after_pause_key(m).0.state == InGameState::Paused,
{
}

} // verus!
