use flummis::menu::{AppState, CameraMode, InGameState, MenuScreen, PauseMenu};
use flummis::mission::{ActiveMission, Campaign, Mission, Money, Progress};
use flummis::settings::{Action, RebindableAction};

fn mission(objectives: Vec<&'static str>) -> ActiveMission<&'static str> {
    ActiveMission::new(Mission {
        id: "test".to_string(),
        name: "Test".to_string(),
        brief: "A test job".to_string(),
        objectives,
        reward: 500,
    })
}

#[test]
fn objectives_are_worked_through_in_order() {
    let mut active = mission(vec!["reach", "hold", "lose"]);
    assert_eq!(active.current(), Some(&"reach"));
    assert_eq!(active.advance(false), Progress::Working);
    assert_eq!(active.current(), Some(&"reach"));
    assert_eq!(active.advance(true), Progress::Advanced);
    assert_eq!(active.current(), Some(&"hold"));
    assert_eq!(active.advance(true), Progress::Advanced);
    assert_eq!(active.current(), Some(&"lose"));
    assert_eq!(active.advance(true), Progress::Complete);
    assert!(active.finished);
    assert_eq!(active.current(), None);
}

#[test]
fn a_finished_mission_stays_finished_whatever_happens() {
    let mut active = mission(vec!["reach"]);
    assert_eq!(active.advance(true), Progress::Complete);
    assert_eq!(active.advance(false), Progress::Complete);
    assert_eq!(active.advance(true), Progress::Complete);
    assert_eq!(active.index, 1);
}

#[test]
fn a_mission_without_objectives_completes_at_once() {
    let mut active = mission(vec![]);
    assert!(!active.finished);
    assert_eq!(active.advance(false), Progress::Complete);
    assert!(active.finished);
    assert_eq!(active.index, 0);
}

#[test]
fn completing_a_job_pays_out_and_records_it() {
    let mut money = Money::default();
    let mut campaign = Campaign::default();
    campaign.complete(&mut money, "first_job".to_string(), 500);
    assert_eq!(money.0, 500);
    assert_eq!(campaign.completed, vec!["first_job".to_string()]);
    assert_eq!(campaign.next, 1);
    campaign.complete(&mut money, "second_job".to_string(), 250);
    assert_eq!(money, Money(750));
    assert_eq!(campaign.next, 2);
}

#[test]
fn the_pause_key_opens_the_menu_at_its_root() {
    let mut menu = PauseMenu {
        state: InGameState::Playing,
        screen: MenuScreen::Controls,
        awaiting: Some(RebindableAction::Jump),
    };
    assert!(!menu.pause_key());
    assert_eq!(
        menu,
        PauseMenu { state: InGameState::Paused, screen: MenuScreen::Root, awaiting: None }
    );
    assert!(!menu.pause_key());
    assert_eq!(menu.state, InGameState::Playing);
}

#[test]
fn the_pause_key_backs_out_one_level_at_a_time() {
    let mut menu = PauseMenu {
        state: InGameState::Paused,
        screen: MenuScreen::Controls,
        awaiting: Some(RebindableAction::CityMap),
    };
    assert!(!menu.pause_key(), "cancelling a capture saves nothing");
    assert_eq!(menu.awaiting, None);
    assert_eq!(menu.screen, MenuScreen::Controls);
    assert!(menu.pause_key(), "leaving a settings screen saves it");
    assert_eq!(menu.screen, MenuScreen::Root);
    assert_eq!(menu.state, InGameState::Paused);
    assert!(!menu.pause_key());
    assert_eq!(menu.state, InGameState::Playing);
}

#[test]
fn states_start_where_the_game_does() {
    assert_eq!(AppState::default(), AppState::Loading);
    assert_eq!(InGameState::default(), InGameState::Playing);
    assert_eq!(MenuScreen::default(), MenuScreen::Root);
    assert_eq!(CameraMode::default(), CameraMode::Follow);
    assert_eq!(CameraMode::Follow.toggled(), CameraMode::Free);
    assert_eq!(CameraMode::Free.toggled().toggled(), CameraMode::Free);
}

#[test]
fn every_rebindable_action_has_a_label_and_its_own_action() {
    let all = RebindableAction::ALL;
    assert_eq!(all.len(), 9);
    assert_eq!(RebindableAction::Pause.label(), "Menü");
    assert_eq!(RebindableAction::Interact.label(), "Interagieren / Einsteigen");
    assert_eq!(RebindableAction::ToggleDebugCamera.action(), Action::ToggleDebugCamera);
    assert_eq!(RebindableAction::CityMap.action(), Action::CityMap);
    for (i, a) in all.iter().enumerate() {
        assert!(!a.label().is_empty());
        for b in &all[..i] {
            assert_ne!(a.action(), b.action());
        }
        assert_ne!(a.action(), Action::Move);
        assert_ne!(a.action(), Action::Look);
    }
}

/// Whether a player standing at `player` is within `radius` of `target`, on
/// the ground plane.
fn reached(player: (f32, f32), target: (f32, f32), radius: f32) -> bool {
    let (dx, dz) = (player.0 - target.0, player.1 - target.1);
    (dx * dx + dz * dz).sqrt() <= radius
}

#[test]
fn objectives_run_in_order() {
    // Reach the origin on foot, then lose the police.
    let mut active = mission(vec!["reach", "lose the police"]);

    let player = (0.0, 0.0);
    let mut stars: u8 = 3;
    assert_eq!(active.advance(reached(player, (0.0, 0.0), 5.0)), Progress::Advanced);
    assert_eq!(active.index, 1);
    assert!(!active.finished, "second objective still outstanding");

    assert_eq!(active.advance(stars == 0), Progress::Working, "still wanted");
    stars = 0;
    assert_eq!(active.advance(stars == 0), Progress::Complete);
}

#[test]
fn a_finished_mission_stays_finished() {
    let mut active = mission(vec!["lose the police"]);
    let stars: u8 = 0;
    assert_eq!(active.advance(stars == 0), Progress::Complete);
    assert_eq!(active.advance(stars == 0), Progress::Complete);
    assert_eq!(active.index, 1, "must not run off the end of the list");
}
