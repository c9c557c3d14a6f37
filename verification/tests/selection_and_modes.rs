use fancontrol::active_mode::{
    active_control_mode, active_control_mode_for_all_fans, active_control_mode_for_fan,
    shows_control_attempt_progress, FanRpmFacts,
};
use fancontrol::mode::{hardware_controls, Fan, FanControlMode};
use fancontrol::presets::{control_preset_rpms, PRESET_STEP_RPM};
use fancontrol::selection::{contains_fan_id, index_of_fan, normalize_selection, ALL_FANS_SELECTION_ID};

fn fan(id: i32, mode: u8) -> Fan<()> {
    Fan { id, mode, display_name: format!("Fan {}", id), rpm: () }
}

fn facts(at_max: bool, at_min: bool, at_preset: bool, lead: bool) -> FanRpmFacts {
    FanRpmFacts {
        target_at_max: at_max,
        target_at_min: at_min,
        target_at_preset: at_preset,
        target_matches_lead: lead,
    }
}

#[test]
fn mode_names_follow_codes() {
    assert_eq!(fan(0, 0).mode_name(), "Auto");
    assert_eq!(fan(0, 1).mode_name(), "Manual");
    assert_eq!(fan(0, 3).mode_name(), "System");
    assert_eq!(fan(0, 2).mode_name(), "Unknown");
    assert_eq!(fan(0, 255).mode_name(), "Unknown");
}

#[test]
fn hardware_control_codes() {
    assert!(hardware_controls(0));
    assert!(hardware_controls(3));
    assert!(!hardware_controls(1));
    assert!(!hardware_controls(2));
}

#[test]
fn selection_without_fans_is_all_fans() {
    let fans: Vec<Fan<()>> = Vec::new();
    assert_eq!(normalize_selection(&fans, 4), ALL_FANS_SELECTION_ID);
    assert_eq!(normalize_selection(&fans, ALL_FANS_SELECTION_ID), ALL_FANS_SELECTION_ID);
}

#[test]
fn selection_keeps_present_fan_and_all_fans() {
    let fans = vec![fan(7, 0), fan(9, 0)];
    assert_eq!(normalize_selection(&fans, 9), 9);
    assert_eq!(normalize_selection(&fans, ALL_FANS_SELECTION_ID), ALL_FANS_SELECTION_ID);
}

#[test]
fn selection_falls_back_to_first_fan() {
    let fans = vec![fan(7, 0), fan(9, 0)];
    assert_eq!(normalize_selection(&fans, 3), 7);
    // normalizing again changes nothing
    assert_eq!(normalize_selection(&fans, normalize_selection(&fans, 3)), 7);
}

#[test]
fn first_fan_with_id_is_found() {
    let fans = vec![fan(7, 0), fan(9, 1), fan(9, 3)];
    assert_eq!(index_of_fan(&fans, 9), Some(1));
    assert_eq!(index_of_fan(&fans, 7), Some(0));
    assert_eq!(index_of_fan(&fans, 8), None);
    assert!(contains_fan_id(&fans, 9));
    assert!(!contains_fan_id(&fans, -1));
}

#[test]
fn presets_span_whole_steps() {
    let presets = control_preset_rpms(3, 10);
    assert_eq!(presets, vec![1500, 2000, 2500, 3000, 3500, 4000, 4500, 5000]);
    for p in &presets {
        assert_eq!(p % PRESET_STEP_RPM, 0);
    }
}

#[test]
fn presets_empty_when_range_is_empty() {
    assert_eq!(control_preset_rpms(5, 4), Vec::<i32>::new());
}

#[test]
fn presets_single_step_and_negative_steps() {
    assert_eq!(control_preset_rpms(2, 2), vec![1000]);
    assert_eq!(control_preset_rpms(-1, 1), vec![-500, 0, 500]);
}

#[test]
fn single_fan_modes_in_order() {
    let none = facts(false, false, false, true);
    assert_eq!(active_control_mode_for_fan(0, none, false), Some(FanControlMode::Auto));
    assert_eq!(active_control_mode_for_fan(3, none, false), Some(FanControlMode::Auto));
    assert_eq!(active_control_mode_for_fan(0, none, true), None);
    assert_eq!(
        active_control_mode_for_fan(1, facts(true, true, true, true), false),
        Some(FanControlMode::Max)
    );
    assert_eq!(
        active_control_mode_for_fan(1, facts(false, true, true, true), false),
        Some(FanControlMode::Min)
    );
    assert_eq!(
        active_control_mode_for_fan(1, facts(false, false, true, true), false),
        Some(FanControlMode::Preset)
    );
    assert_eq!(active_control_mode_for_fan(1, none, false), None);
}

#[test]
fn all_fans_modes() {
    let codes = vec![0u8, 3u8];
    let plain = vec![facts(false, false, false, true), facts(false, false, false, true)];
    assert_eq!(active_control_mode_for_all_fans(&codes, &plain, false), Some(FanControlMode::Auto));
    assert_eq!(active_control_mode_for_all_fans(&codes, &plain, true), None);

    let manual = vec![1u8, 1u8];
    let at_max = vec![facts(true, false, false, true), facts(true, false, false, true)];
    assert_eq!(active_control_mode_for_all_fans(&manual, &at_max, false), Some(FanControlMode::Max));
    let at_min = vec![facts(false, true, false, true), facts(false, true, false, true)];
    assert_eq!(active_control_mode_for_all_fans(&manual, &at_min, false), Some(FanControlMode::Min));
    let preset = vec![facts(false, false, true, true), facts(true, false, false, true)];
    assert_eq!(active_control_mode_for_all_fans(&manual, &preset, false), Some(FanControlMode::Preset));
    let apart = vec![facts(false, false, true, true), facts(false, false, true, false)];
    assert_eq!(active_control_mode_for_all_fans(&manual, &apart, false), None);
    let no_preset = vec![facts(false, false, false, true), facts(false, false, false, true)];
    assert_eq!(active_control_mode_for_all_fans(&manual, &no_preset, false), None);
}

#[test]
fn combined_mode_needs_agreement() {
    let codes = vec![1u8];
    assert_eq!(
        active_control_mode(&codes, &vec![facts(false, true, false, true)], false, false),
        Some(FanControlMode::Min)
    );
    let two = vec![1u8, 1u8];
    assert_eq!(
        active_control_mode(
            &two,
            &vec![facts(true, false, false, true), facts(false, true, false, true)],
            false,
            false
        ),
        None
    );
    assert_eq!(
        active_control_mode(
            &two,
            &vec![facts(true, false, false, true), facts(false, false, false, true)],
            false,
            false
        ),
        None
    );
    assert_eq!(active_control_mode(&Vec::new(), &Vec::new(), false, true), None);
}

#[test]
fn progress_shown_until_target_mode_reached() {
    assert!(!shows_control_attempt_progress(false, Some(FanControlMode::Max), None));
    assert!(shows_control_attempt_progress(true, Some(FanControlMode::Max), None));
    assert!(shows_control_attempt_progress(true, Some(FanControlMode::Max), Some(FanControlMode::Min)));
    assert!(!shows_control_attempt_progress(true, Some(FanControlMode::Max), Some(FanControlMode::Max)));
    assert!(shows_control_attempt_progress(true, None, Some(FanControlMode::Max)));
}
