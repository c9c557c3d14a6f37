use fancontrol::active_mode::FanRpmFacts;
use fancontrol::mode::{Fan, FanControlMode};
use fancontrol::model::{AppModel, ERROR_DISPLAY_MS};
use fancontrol::selection::ALL_FANS_SELECTION_ID;
use fancontrol::signals::{SignalTally, MANUAL_RETRY_ATTEMPTS};

type Model = AppModel<(), String>;

fn fan(id: i32, mode: u8) -> Fan<()> {
    Fan { id, mode, display_name: format!("Fan {}", id), rpm: () }
}

fn plain_facts(n: usize) -> Vec<FanRpmFacts> {
    vec![
        FanRpmFacts {
            target_at_max: false,
            target_at_min: false,
            target_at_preset: false,
            target_matches_lead: true,
        };
        n
    ]
}

fn model_with_fans(fans: Vec<Fan<()>>) -> Model {
    let mut m = Model::new("Simulation".to_string(), "CPU".to_string(), None);
    assert!(m.apply_fans_read(Ok(fans), 0));
    m.apply_sensors_read(Ok(vec!["cpu".to_string()]), 0);
    m
}

fn snapshot(m: &mut Model, now: u64) -> fancontrol::model::ControlSnapshot {
    let n = m.control_target_indices().len();
    m.snapshot(now, &plain_facts(n))
}

#[test]
fn new_model_shows_nothing() {
    let mut m = Model::new("Simulation".to_string(), "CPU".to_string(), Some("notice".to_string()));
    let s = snapshot(&mut m, 0);
    assert_eq!(s.selected_fan_id, 0);
    assert_eq!(s.all_fans_id, ALL_FANS_SELECTION_ID);
    assert!(!s.controls_all_fans);
    assert_eq!(s.error_text, None);
    assert_eq!(s.processor_name, "CPU");
    assert_eq!(s.provider_name, "Simulation");
    assert_eq!(s.active_control_mode, None);
    assert!(m.fans().is_empty());
}

#[test]
fn initialization_happens_once_and_shows_notice() {
    let mut m = Model::new("Simulation".to_string(), "CPU".to_string(), Some("notice".to_string()));
    assert!(m.start_initialization());
    assert!(m.apply_fans_read(Ok(vec![fan(0, 0)]), 10));
    m.apply_sensors_read(Ok(Vec::new()), 10);
    m.finish_initialization(10);
    assert_eq!(snapshot(&mut m, 11).error_text, Some("notice".to_string()));
    assert!(!m.start_initialization());
    m.dismiss_error();
    m.finish_initialization(20);
    assert_eq!(snapshot(&mut m, 21).error_text, None);
}

#[test]
fn refresh_normalizes_selection() {
    let mut m = model_with_fans(vec![fan(4, 0), fan(5, 0)]);
    // selection 0 is not a fan: falls back to the first fan
    let s = snapshot(&mut m, 0);
    assert_eq!(s.selected_fan_id, 4);
    assert_eq!(s.selected_fan_index, Some(0));
    m.set_selected_fan(5);
    assert_eq!(snapshot(&mut m, 0).selected_fan_index, Some(1));
    m.set_selected_fan(ALL_FANS_SELECTION_ID);
    let s = snapshot(&mut m, 0);
    assert!(s.controls_all_fans);
    assert_eq!(s.selected_fan_index, None);
    assert_eq!(m.control_target_indices(), vec![0, 1]);
    assert_eq!(m.control_target_ids(), vec![4, 5]);
}

#[test]
fn empty_fan_list_selects_all_fans() {
    let mut m = model_with_fans(Vec::new());
    assert_eq!(snapshot(&mut m, 0).selected_fan_id, ALL_FANS_SELECTION_ID);
    m.set_selected_fan(3);
    assert_eq!(snapshot(&mut m, 0).selected_fan_id, ALL_FANS_SELECTION_ID);
    assert!(m.bound_control_applies());
}

#[test]
fn failed_fan_read_keeps_fans_and_drops_sensors() {
    let mut m = model_with_fans(vec![fan(1, 0)]);
    assert_eq!(m.temperature_sensors().len(), 1);
    assert!(!m.apply_fans_read(Err("read failed".to_string()), 100));
    assert_eq!(m.fans().len(), 1);
    assert!(m.temperature_sensors().is_empty());
    assert_eq!(snapshot(&mut m, 100).error_text, Some("read failed".to_string()));
}

#[test]
fn failed_sensor_read_drops_sensors() {
    let mut m = model_with_fans(vec![fan(1, 0)]);
    assert!(m.apply_fans_read(Ok(vec![fan(1, 0), fan(2, 0)]), 5));
    m.apply_sensors_read(Err("sensors failed".to_string()), 5);
    assert!(m.temperature_sensors().is_empty());
    assert_eq!(m.fans().len(), 2);
    assert_eq!(snapshot(&mut m, 5).error_text, Some("sensors failed".to_string()));
}

#[test]
fn error_expires_after_display_time() {
    let mut m = model_with_fans(vec![fan(1, 0)]);
    m.record_keep_alive(Err("boom".to_string()), 1000);
    assert_eq!(snapshot(&mut m, 1000 + ERROR_DISPLAY_MS - 1).error_text, Some("boom".to_string()));
    assert_eq!(snapshot(&mut m, 1000 + ERROR_DISPLAY_MS).error_text, None);
}

#[test]
fn repeated_error_is_not_extended() {
    let mut m = model_with_fans(vec![fan(1, 0)]);
    m.record_keep_alive(Err("boom".to_string()), 1000);
    m.record_keep_alive(Err("boom".to_string()), 3000);
    // still expires at the first expiry
    assert_eq!(snapshot(&mut m, 1000 + ERROR_DISPLAY_MS).error_text, None);
    // a different message replaces it
    m.record_keep_alive(Err("one".to_string()), 10_000);
    m.record_keep_alive(Err("two".to_string()), 11_000);
    assert_eq!(snapshot(&mut m, 15_500).error_text, Some("two".to_string()));
    m.record_keep_alive(Ok(()), 15_600);
    assert_eq!(snapshot(&mut m, 15_600).error_text, Some("two".to_string()));
}

#[test]
fn dismissed_error_is_gone() {
    let mut m = model_with_fans(vec![fan(1, 0)]);
    m.record_keep_alive(Err("boom".to_string()), 1000);
    m.dismiss_error();
    assert_eq!(snapshot(&mut m, 1001).error_text, None);
}

#[test]
fn tick_reports_held_override() {
    let mut m = model_with_fans(vec![fan(1, 1)]);
    assert!(!m.begin_tick(0));
    let mut run = m.begin_manual_control(FanControlMode::Max, 0).expect("a fan is controlled");
    run.record_signal(Ok(()));
    while run.rounds_remain() {
        run.complete_round();
    }
    assert!(m.finish_manual_control(run, 10));
    assert!(m.begin_tick(20));
}

#[test]
fn manual_control_runs_fifteen_rounds_and_holds_override() {
    let mut m = model_with_fans(vec![fan(1, 1), fan(2, 1)]);
    m.set_selected_fan(ALL_FANS_SELECTION_ID);
    let mut run = m.begin_manual_control(FanControlMode::Preset, 0).expect("fans are controlled");
    let s = snapshot(&mut m, 0);
    assert!(s.is_sending_control_attempts);
    assert_eq!(s.control_attempt_target_mode, Some(FanControlMode::Preset));
    assert!(s.shows_control_attempt_progress);
    let mut rounds = 0;
    let mut pauses = 0;
    while run.rounds_remain() {
        assert!(m.manual_round_may_start(&run));
        run.record_signal(Ok(()));
        run.record_signal(Err("busy".to_string()));
        if run.complete_round() {
            pauses += 1;
        }
        rounds += 1;
    }
    assert_eq!(rounds, MANUAL_RETRY_ATTEMPTS);
    assert_eq!(pauses, MANUAL_RETRY_ATTEMPTS - 1);
    assert_eq!(run.tally.successful_signals, MANUAL_RETRY_ATTEMPTS);
    assert!(m.finish_manual_control(run, 20_000));
    let s = snapshot(&mut m, 20_000);
    assert!(!s.is_sending_control_attempts);
    assert_eq!(s.control_attempt_target_mode, None);
    assert_eq!(s.error_text, None);
    assert!(m.begin_tick(20_001));
}

#[test]
fn refused_manual_control_shows_last_error() {
    let mut m = model_with_fans(vec![fan(1, 1)]);
    let mut run = m.begin_manual_control(FanControlMode::Min, 0).expect("a fan is controlled");
    run.record_signal(Err("first".to_string()));
    run.record_signal(Err("second".to_string()));
    run.complete_round();
    assert!(!m.finish_manual_control(run, 100));
    let s = snapshot(&mut m, 100);
    assert_eq!(s.error_text, Some("second".to_string()));
    assert!(!s.is_sending_control_attempts);
    assert!(!m.begin_tick(100));
}

#[test]
fn superseded_manual_control_stops() {
    let mut m = model_with_fans(vec![fan(1, 1)]);
    let run = m.begin_manual_control(FanControlMode::Min, 0).expect("a fan is controlled");
    let token = run.token;
    assert!(m.is_control_action_current(token));
    // a newer action starts
    let ids = m.begin_auto_control(1);
    assert_eq!(ids, vec![1]);
    assert!(!m.is_control_action_current(token));
    assert!(!m.manual_round_may_start(&run));
    assert!(!m.finish_manual_control(run, 2));
    assert!(!snapshot(&mut m, 2).is_sending_control_attempts);
}

#[test]
fn manual_control_without_target_does_nothing_more() {
    let mut m = model_with_fans(Vec::new());
    assert!(m.begin_manual_control(FanControlMode::Max, 0).is_none());
    assert!(!snapshot(&mut m, 0).is_sending_control_attempts);
}

#[test]
fn auto_control_outcomes() {
    let mut m = model_with_fans(vec![fan(1, 1)]);
    let ids = m.begin_auto_control(0);
    assert_eq!(ids, vec![1]);
    let mut tally = SignalTally::new();
    tally.record(Err("refused".to_string()));
    assert!(!m.finish_auto_control(tally, 0));
    assert_eq!(snapshot(&mut m, 1).error_text, Some("refused".to_string()));

    let mut run = m.begin_manual_control(FanControlMode::Max, 2).expect("a fan is controlled");
    run.record_signal(Ok(()));
    run.complete_round();
    assert!(m.finish_manual_control(run, 3));
    assert!(m.begin_tick(4));
    m.begin_auto_control(5);
    let mut tally = SignalTally::new();
    tally.record(Ok(()));
    assert!(m.finish_auto_control(tally, 5));
    assert!(!m.begin_tick(6));
}

#[test]
fn bound_control_needs_a_target() {
    let mut m = model_with_fans(vec![fan(1, 1)]);
    assert!(m.bound_control_applies());
    m.set_selected_fan(ALL_FANS_SELECTION_ID);
    assert!(m.bound_control_applies());
}

#[test]
fn snapshot_reports_active_mode() {
    let mut m = model_with_fans(vec![fan(1, 0)]);
    assert_eq!(snapshot(&mut m, 0).active_control_mode, Some(FanControlMode::Auto));

    let mut m = model_with_fans(vec![fan(1, 1)]);
    assert_eq!(snapshot(&mut m, 0).active_control_mode, None);
    let at_max = vec![FanRpmFacts {
        target_at_max: true,
        target_at_min: false,
        target_at_preset: false,
        target_matches_lead: true,
    }];
    let mut run = m.begin_manual_control(FanControlMode::Max, 0).unwrap();
    run.record_signal(Ok(()));
    run.complete_round();
    // still sending: progress shown until the fan reaches the target mode
    assert!(m.snapshot(0, &plain_facts(1)).shows_control_attempt_progress);
    assert!(!m.snapshot(0, &at_max).shows_control_attempt_progress);
    assert!(m.finish_manual_control(run, 1));
    let s = m.snapshot(1, &at_max);
    assert_eq!(s.active_control_mode, Some(FanControlMode::Max));
    assert!(!s.shows_control_attempt_progress);
}

#[test]
fn debug_text_lists_sensors() {
    let m = model_with_fans(Vec::new());
    assert_eq!(m.debug_text(&Vec::new()), "CPU\n");
    let lines = vec!["cpu: 46.0".to_string(), "gpu: 50.0".to_string()];
    assert_eq!(m.debug_text(&lines), "CPU\n\ncpu: 46.0\ngpu: 50.0");
}

#[test]
fn new_action_token_supersedes_older() {
    let mut m = model_with_fans(vec![fan(1, 1)]);
    let first = m.start_control_action();
    let second = m.start_control_action();
    assert_eq!(second, first + 1);
    assert!(m.is_control_action_current(second));
    assert!(!m.is_control_action_current(first));
    let s = snapshot(&mut m, 0);
    assert!(!s.is_sending_control_attempts);
    assert_eq!(s.control_attempt_target_mode, None);
    assert!(!s.shows_control_attempt_progress);
}
