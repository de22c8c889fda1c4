use flummis::assets::{has, join, pick_root};
use flummis::audition::wav;
use flummis::capture::{audition_directory, has_flag, is_capture_mode, position_of, screenshot_path, value_of};
use flummis::crime::CrimeKind;
use flummis::post::post_stack;
use flummis::settings::rebind_choice;
use flummis::police::{pursuit_goal, pursuit_step, rams, route_from_path, units_for_stars, will_ram, PursuitGoal, PursuitState};
use flummis::weapons::WeaponKind;

fn args(list: &[&str]) -> Vec<String> {
    list.iter().map(|a| a.to_string()).collect()
}

/// The asset root as the game resolves it, from the candidates a test can
/// name: the working directory, which for a test run is the crate's manifest
/// directory, and the directory above it.
fn asset_root() -> String {
    let candidates: Vec<Option<String>> = vec![Some(".".to_string()), Some("..".to_string())];
    let dirs: Vec<String> = candidates.into_iter().flatten().map(|base| join(&base, "assets")).collect();
    let exists: Vec<bool> = dirs.iter().map(|dir| std::path::Path::new(dir).is_dir()).collect();
    pick_root(&dirs, &exists)
}

#[test]
fn a_missing_file_is_reported_missing() {
    assert!(!has(&asset_root(), "materials/NotAMaterial/nope.jpg"));
}

#[test]
fn joining_follows_path_rules() {
    assert_eq!(join("base", "assets"), "base/assets");
    assert_eq!(join("base/", "assets"), "base/assets");
    assert_eq!(join("", "assets"), "assets");
    assert_eq!(join("base", "/abs/assets"), "/abs/assets");
    let ours = join("/srv/game", "assets");
    let std_join = std::path::Path::new("/srv/game").join("assets");
    assert_eq!(ours, std_join.to_str().unwrap());
}

#[test]
fn the_first_existing_candidate_wins_and_the_last_is_the_fallback() {
    let dirs = args(&["a/assets", "b/assets", "c/assets"]);
    assert_eq!(pick_root(&dirs, &vec![false, true, true]), "b/assets");
    assert_eq!(pick_root(&dirs, &vec![true, true, false]), "a/assets");
    assert_eq!(pick_root(&dirs, &vec![false, false, false]), "c/assets");
    assert_eq!(pick_root(&Vec::new(), &Vec::new()), "assets");
}

#[test]
fn a_file_that_exists_is_found_and_a_directory_is_not_a_file() {
    assert!(has("/", "etc/passwd"));
    assert!(has("/etc", "passwd"));
    assert!(!has("/", "etc"));
    assert!(!has("/definitely/not/a/directory", "Cargo.toml"));
}

#[test]
fn loud_crimes_need_no_witness() {
    assert!(!CrimeKind::Gunfire.needs_witness());
    assert!(!CrimeKind::KilledOfficer.needs_witness());
    assert!(CrimeKind::VehicleTheft.needs_witness());
}

#[test]
fn only_theft_and_hit_and_run_need_witnesses() {
    let quiet = [CrimeKind::VehicleTheft, CrimeKind::HitAndRun];
    let loud = [
        CrimeKind::Gunfire,
        CrimeKind::KilledCivilian,
        CrimeKind::DestroyedVehicle,
        CrimeKind::AssaultedOfficer,
        CrimeKind::KilledOfficer,
    ];
    assert!(quiet.iter().all(|c| c.needs_witness()));
    assert!(loud.iter().all(|c| !c.needs_witness()));
}

#[test]
fn response_escalates_with_the_star_level() {
    let counts: Vec<usize> = (0..=5).map(units_for_stars).collect();
    assert_eq!(counts[0], 0, "no stars, no police");
    for pair in counts.windows(2) {
        assert!(pair[1] >= pair[0], "response must never shrink as stars rise: {counts:?}");
    }
    assert!(counts[5] > counts[1], "five stars must dwarf one");
}

#[test]
fn one_star_is_survivable_and_higher_is_not() {
    assert!(!will_ram(1), "a single unit should shadow, not ram");
    assert!(will_ram(2));
    assert!(will_ram(5));
}

#[test]
fn cruiser_counts_per_star() {
    let counts: Vec<usize> = (0..=7).map(units_for_stars).collect();
    assert_eq!(counts, vec![0, 1, 2, 4, 6, 8, 8, 8]);
    assert!(!will_ram(0));
    assert!(will_ram(255));
}

#[test]
fn weapons_are_named_and_only_the_smg_is_automatic() {
    assert_eq!(WeaponKind::Pistol.name(), "Pistol");
    assert_eq!(WeaponKind::Smg.name(), "SMG");
    assert!(WeaponKind::Smg.is_automatic());
    assert!(!WeaponKind::Pistol.is_automatic());
}

#[test]
fn a_trigger_fires_by_press_or_by_hold_but_never_empty_or_uncycled() {
    assert!(WeaponKind::Pistol.trigger_fires(12, true, true, true));
    assert!(!WeaponKind::Pistol.trigger_fires(12, true, true, false), "holding must not auto-fire a pistol");
    assert!(WeaponKind::Smg.trigger_fires(30, true, true, false), "held should keep firing");
    assert!(!WeaponKind::Smg.trigger_fires(30, true, false, true));
    assert!(!WeaponKind::Smg.trigger_fires(30, false, true, true), "the cooldown is respected");
    assert!(!WeaponKind::Pistol.trigger_fires(0, true, true, true), "an empty weapon does nothing");
}

#[test]
fn a_wav_header_describes_the_samples_behind_it() {
    let file = wav(&[0, 16383, -16383, 32767]);
    assert_eq!(&file[0..4], b"RIFF");
    assert_eq!(&file[8..12], b"WAVE");
    assert_eq!(&file[12..16], b"fmt ");
    assert_eq!(&file[36..40], b"data");
    assert_eq!(file.len(), 44 + 4 * 2, "four samples, two bytes each");
    assert_eq!(u32::from_le_bytes(file[4..8].try_into().unwrap()) as usize, file.len() - 8);
    assert_eq!(u32::from_le_bytes(file[40..44].try_into().unwrap()), 8);
    assert_eq!(u32::from_le_bytes(file[24..28].try_into().unwrap()), 44_100);
    assert_eq!(u32::from_le_bytes(file[28..32].try_into().unwrap()), 88_200);
    assert_eq!(u16::from_le_bytes(file[22..24].try_into().unwrap()), 1, "mono");
    assert_eq!(u16::from_le_bytes(file[34..36].try_into().unwrap()), 16, "bits");
    assert_eq!(i16::from_le_bytes(file[46..48].try_into().unwrap()), 16383);
    assert_eq!(i16::from_le_bytes(file[48..50].try_into().unwrap()), -16383);
    assert_eq!(i16::from_le_bytes(file[50..52].try_into().unwrap()), i16::MAX);
}

#[test]
fn an_empty_sound_is_a_bare_header() {
    let file = wav(&[]);
    assert_eq!(file.len(), 44);
    assert_eq!(u32::from_le_bytes(file[4..8].try_into().unwrap()), 36);
    assert_eq!(u32::from_le_bytes(file[40..44].try_into().unwrap()), 0);
    let extremes = wav(&[i16::MIN, -1]);
    assert_eq!(&extremes[44..48], &[0x00, 0x80, 0xFF, 0xFF]);
}

#[test]
fn flags_are_found_by_their_first_occurrence() {
    let line = args(&["game", "--screenshot", "shots/city.png", "--frames", "120", "--frames", "3", "--fps-log"]);
    assert_eq!(position_of(&line, "--frames"), Some(3));
    assert_eq!(value_of(&line, "--frames"), Some("120".to_string()));
    assert!(has_flag(&line, "--fps-log"));
    assert!(!has_flag(&line, "--drive"));
    assert_eq!(value_of(&line, "--fps-log"), None, "a flag at the end has no value");
    assert_eq!(value_of(&line, "--quality"), None);
    assert!(is_capture_mode(&line));
    assert_eq!(screenshot_path(&line), Some("shots/city.png".to_string()));
}

#[test]
fn a_normal_run_is_not_a_capture() {
    let line = args(&["game"]);
    assert!(!is_capture_mode(&line));
    assert_eq!(screenshot_path(&line), None);
    assert_eq!(screenshot_path(&args(&["game", "--screenshot"])), None);
    assert_eq!(audition_directory(&line), None);
}

#[test]
fn an_audition_defaults_its_directory() {
    assert_eq!(audition_directory(&args(&["game", "--audition"])), Some("shots/audio".to_string()));
    assert_eq!(audition_directory(&args(&["game", "--audition", "out"])), Some("out".to_string()));
}

#[test]
fn sight_drives_the_pursuit_through_its_three_states() {
    let (state, restart) = pursuit_step(PursuitState::Responding, true, false);
    assert_eq!((state, restart), (PursuitState::Chasing, true));
    let (state, restart) = pursuit_step(state, false, false);
    assert_eq!((state, restart), (PursuitState::Searching, true), "losing sight starts a sweep");
    let (state, restart) = pursuit_step(state, false, false);
    assert_eq!((state, restart), (PursuitState::Searching, false));
    let (state, restart) = pursuit_step(state, false, true);
    assert_eq!((state, restart), (PursuitState::Responding, false), "the sweep gives up");
    assert_eq!(pursuit_step(state, false, true), (PursuitState::Responding, false));
    assert_eq!(pursuit_step(PursuitState::Searching, true, true), (PursuitState::Chasing, true));
}

#[test]
fn a_unit_heads_for_what_it_knows() {
    assert_eq!(pursuit_goal(true, false), PursuitGoal::Target);
    assert_eq!(pursuit_goal(false, true), PursuitGoal::LastKnown);
    assert_eq!(pursuit_goal(false, false), PursuitGoal::Halt);
    assert!(rams(2, true, true));
    assert!(!rams(1, true, true), "one star shadows");
    assert!(!rams(5, false, true));
    assert!(!rams(5, true, false));
}

#[test]
fn a_fresh_route_drops_the_junction_underfoot() {
    assert_eq!(route_from_path(None), Vec::<usize>::new());
    assert_eq!(route_from_path(Some(vec![])), Vec::<usize>::new());
    assert_eq!(route_from_path(Some(vec![7])), Vec::<usize>::new(), "already at the goal's junction");
    assert_eq!(route_from_path(Some(vec![7, 3, 9])), vec![3, 9]);
}

/// Seconds between shots of each kind.
fn cooldown(kind: WeaponKind) -> f32 {
    match kind {
        WeaponKind::Pistol => 0.32,
        WeaponKind::Smg => 0.085,
    }
}

/// A weapon holding `ammo` rounds, `since_shot` seconds after its last shot.
fn wants_to_fire(kind: WeaponKind, ammo: u32, since_shot: f32, held: bool, pressed_now: bool) -> bool {
    kind.trigger_fires(ammo, since_shot >= cooldown(kind), held, pressed_now)
}

#[test]
fn a_pistol_fires_once_per_press() {
    let kind = WeaponKind::Pistol;
    assert!(wants_to_fire(kind, 12, cooldown(kind), true, true), "the press should fire");
    assert!(!wants_to_fire(kind, 12, 0.0, true, false), "holding must not auto-fire a pistol");
}

#[test]
fn an_smg_keeps_firing_while_held() {
    let kind = WeaponKind::Smg;
    assert!(wants_to_fire(kind, 30, cooldown(kind), true, true));
    assert!(wants_to_fire(kind, 30, cooldown(kind), true, false), "held should keep firing");
}

#[test]
fn the_cooldown_is_respected() {
    let kind = WeaponKind::Smg;
    assert!(!wants_to_fire(kind, 30, cooldown(kind) * 0.5, true, true));
}

#[test]
fn an_empty_weapon_does_nothing() {
    let kind = WeaponKind::Pistol;
    assert!(!wants_to_fire(kind, 0, cooldown(kind), true, true));
}

#[test]
fn a_rebind_takes_the_first_key_that_is_not_escape() {
    assert_eq!(rebind_choice(&vec![false, false]), Some(0));
    assert_eq!(rebind_choice(&vec![true, false, false]), Some(1), "Escape stays reserved for cancelling");
    assert_eq!(rebind_choice(&vec![true, true]), None);
    assert_eq!(rebind_choice(&Vec::new()), None, "nothing pressed binds nothing");
}

#[test]
fn the_post_stack_is_attached_once_per_tier() {
    let ultra = (true, true, true);
    let high = (false, false, true);
    // No cameras yet: the set is offered but nothing counts as applied.
    assert_eq!(post_stack(None, ultra, false), (Some(ultra), None));
    // The first frame with cameras attaches it.
    assert_eq!(post_stack(None, ultra, true), (Some(ultra), Some(ultra)));
    // After that it is left alone.
    assert_eq!(post_stack(Some(ultra), ultra, true), (None, Some(ultra)));
    // A new tier is attached again.
    assert_eq!(post_stack(Some(ultra), high, true), (Some(high), Some(high)));
    // Cameras gone: offered again, the record stays as it was.
    assert_eq!(post_stack(Some(ultra), ultra, false), (Some(ultra), Some(ultra)));
}
