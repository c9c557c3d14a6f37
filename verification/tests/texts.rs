use fancontrol::signals::{ManualRun, SignalTally};
use fancontrol::startup::{run_value_delete_outcome, run_value_write_outcome};
use fancontrol::text::{
    contains_text, control_failure_message, decimal_text, fan_display_name, fan_not_found_message,
    join_lines, powershell_failure_message, processor_name_from, sensor_display_name,
    simulation_notice,
};

#[test]
fn processor_name_is_trimmed_brand() {
    assert_eq!(processor_name_from(Some("  Intel Core i7  "), "x86_64"), "Intel Core i7");
}

#[test]
fn processor_name_falls_back_to_architecture() {
    assert_eq!(processor_name_from(Some("   "), "x86_64"), "Unknown processor (x86_64)");
    assert_eq!(processor_name_from(None, "aarch64"), "Unknown processor (aarch64)");
}

#[test]
fn decimal_text_of_numbers() {
    assert_eq!(decimal_text(0), "0");
    assert_eq!(decimal_text(7), "7");
    assert_eq!(decimal_text(12345), "12345");
    assert_eq!(decimal_text(-5), "-5");
    assert_eq!(decimal_text(i32::MIN), i32::MIN.to_string());
    assert_eq!(decimal_text(i32::MAX), i32::MAX.to_string());
}

#[test]
fn substring_search() {
    assert!(contains_text("CPU Fan #1", "Fan"));
    assert!(!contains_text("CPU fan", "Fan"));
    assert!(contains_text("abc", ""));
    assert!(!contains_text("ab", "abc"));
    assert!(contains_text("aab", "ab"));
}

#[test]
fn fan_names() {
    assert_eq!(fan_display_name(2, "CPU Fan", "/lpc/0/fan/0"), "CPU Fan");
    assert_eq!(fan_display_name(2, "Chassis", "/lpc/0/fan/1"), "Chassis (/lpc/0/fan/1)");
    assert_eq!(fan_display_name(3, "  ", "/lpc/0/fan/3"), "Fan 3");
}

#[test]
fn sensor_names() {
    assert_eq!(sensor_display_name("CPU Package", "/cpu/0/temp/0"), "CPU Package");
    assert_eq!(sensor_display_name(" ", "/cpu/0/temp/0"), "/cpu/0/temp/0");
}

#[test]
fn powershell_messages() {
    assert_eq!(powershell_failure_message("  access denied \n", "out"), "access denied");
    assert_eq!(powershell_failure_message(" ", "  partial  "), "partial");
    assert_eq!(powershell_failure_message("", " "), "PowerShell command failed without output");
}

#[test]
fn fixed_messages() {
    assert_eq!(
        control_failure_message("denied"),
        "Failed to set fan control via LibreHardwareMonitor\ndenied\nIf this persists, verify your board exposes writable fan controls"
    );
    assert_eq!(
        simulation_notice("no WMI"),
        "LibreHardwareMonitor WMI not available, using simulation mode\nno WMI"
    );
    assert_eq!(fan_not_found_message(4), "Fan 4 not found");
    assert_eq!(fan_not_found_message(-1), "Fan -1 not found");
}

#[test]
fn lines_are_joined() {
    assert_eq!(join_lines(&Vec::new()), "");
    assert_eq!(join_lines(&vec!["a".to_string()]), "a");
    assert_eq!(join_lines(&vec!["a".to_string(), "".to_string(), "b".to_string()]), "a\n\nb");
}

#[test]
fn registry_write_outcome() {
    assert_eq!(run_value_write_outcome(true, "ignored"), Ok(()));
    assert_eq!(run_value_write_outcome(false, " ERROR: Access is denied.\r\n"), Err("ERROR: Access is denied.".to_string()));
}

#[test]
fn registry_delete_outcome() {
    assert_eq!(run_value_delete_outcome(true, ""), Ok(()));
    assert_eq!(
        run_value_delete_outcome(
            false,
            "ERROR: The system was UNABLE TO FIND the specified registry key or value.\n"
        ),
        Ok(())
    );
    assert_eq!(
        run_value_delete_outcome(false, " ERROR: Access is denied. "),
        Err("ERROR: Access is denied.".to_string())
    );
}

#[test]
fn tally_counts_answers() {
    let mut tally = SignalTally::new();
    tally.record(Ok(()));
    tally.record(Err("a".to_string()));
    tally.record(Ok(()));
    tally.record(Err("b".to_string()));
    assert_eq!(tally.successful_signals, 2);
    assert_eq!(tally.last_error, Some("b".to_string()));
}

#[test]
fn manual_run_pauses_between_rounds() {
    let mut run = ManualRun::new(9);
    let mut pauses = Vec::new();
    while run.rounds_remain() {
        pauses.push(run.complete_round());
    }
    assert_eq!(pauses.len(), 15);
    assert!(pauses[..14].iter().all(|p| *p));
    assert!(!pauses[14]);
    assert_eq!(run.token, 9);
}

#[test]
fn unicode_white_space_is_trimmed() {
    assert_eq!(processor_name_from(Some("\u{3000}\tIntel Core\u{a0}\u{2029}"), "x86_64"), "Intel Core");
    assert_eq!(processor_name_from(Some("\u{85}\u{2000}\u{200a}"), "arm"), "Unknown processor (arm)");
}
