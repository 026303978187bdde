use realesrgan_gui::log::{LogBuffer, LOG_CAPACITY};
use realesrgan_gui::numerals::decimal_string;
use realesrgan_gui::panel::StatusPanel;
use realesrgan_gui::pool::{CheckerResult, ExitReport};

fn lines(log: &LogBuffer) -> Vec<String> {
    (0..log.len()).map(|i| log.line(i).clone()).collect()
}

#[test]
fn log_keeps_last_lines_of_three_hundred() {
    let mut log = LogBuffer::new();
    for i in 0..300 {
        log.push(format!("line {}", i));
    }
    assert_eq!(LOG_CAPACITY, 256);
    assert_eq!(log.len(), 256);
    let expected: Vec<String> = (44..300).map(|i| format!("line {}", i)).collect();
    assert_eq!(lines(&log), expected);
}

#[test]
fn log_below_capacity_keeps_everything() {
    let mut log = LogBuffer::new();
    assert_eq!(log.len(), 0);
    log.push("a".to_string());
    log.push("b".to_string());
    assert_eq!(lines(&log), vec!["a".to_string(), "b".to_string()]);
}

#[test]
fn log_at_capacity_drops_oldest_first() {
    let mut log = LogBuffer::new();
    for i in 0..256 {
        log.push(i.to_string());
    }
    assert_eq!(log.len(), 256);
    assert_eq!(log.line(0), "0");
    log.push("new".to_string());
    assert_eq!(log.len(), 256);
    assert_eq!(log.line(0), "1");
    assert_eq!(log.line(255), "new");
}

#[test]
fn decimal_text() {
    assert_eq!(decimal_string(0), "0");
    assert_eq!(decimal_string(7), "7");
    assert_eq!(decimal_string(10), "10");
    assert_eq!(decimal_string(4096), "4096");
    assert_eq!(decimal_string(u32::MAX), "4294967295");
}

#[test]
fn panel_starts_idle() {
    let panel = StatusPanel::new();
    assert!(!panel.processing());
    assert_eq!(panel.log().len(), 0);
    assert_eq!(panel.start_button_text(), "Click Here to Start");
}

#[test]
fn panel_logs_child_output() {
    let mut panel = StatusPanel::new();
    let alert = panel.apply_checker_updates(CheckerResult::ChildLog(1234, "12.50%".to_string()));
    assert_eq!(alert, None);
    assert_eq!(lines(panel.log()), vec!["pid #1234: 12.50%".to_string()]);
}

#[test]
fn panel_logs_completion() {
    let mut panel = StatusPanel::new();
    let alert = panel.apply_checker_updates(CheckerResult::ChildExited(
        99,
        ExitReport { success: true, code: Some(0) },
    ));
    assert_eq!(alert, None);
    assert_eq!(lines(panel.log()), vec!["pid #99: complete!".to_string()]);
    assert_eq!(panel.start_button_text(), "Click Here to Start");
}

#[test]
fn panel_shows_failed_exit_code() {
    let mut panel = StatusPanel::new();
    panel.apply_checker_updates(CheckerResult::ChildExited(
        5,
        ExitReport { success: false, code: Some(3) },
    ));
    assert_eq!(panel.start_button_text(), "Click Here to Start (realesrgan returned 3)");
    assert_eq!(lines(panel.log()), vec!["pid #5: realesrgan returned 3".to_string()]);
}

#[test]
fn panel_shows_minus_one_without_exit_code() {
    let mut panel = StatusPanel::new();
    panel.apply_checker_updates(CheckerResult::ChildExited(
        6,
        ExitReport { success: false, code: None },
    ));
    assert_eq!(panel.start_button_text(), "Click Here to Start (realesrgan returned -1)");
}

#[test]
fn panel_shows_negative_exit_code() {
    let mut panel = StatusPanel::new();
    panel.apply_checker_updates(CheckerResult::ChildExited(
        6,
        ExitReport { success: false, code: Some(i32::MIN) },
    ));
    assert_eq!(
        panel.start_button_text(),
        "Click Here to Start (realesrgan returned -2147483648)"
    );
}

#[test]
fn panel_alerts_and_logs_failed_check() {
    let mut panel = StatusPanel::new();
    let alert = panel.apply_checker_updates(CheckerResult::ChildErrored(8, "EINTR".to_string()));
    assert_eq!(
        alert,
        Some("Unexpected error occurred while running RealESRGAN: EINTR".to_string())
    );
    assert_eq!(lines(panel.log()), vec!["pid #8 ERROR: EINTR".to_string()]);
}

#[test]
fn panel_alerts_failed_spawn_without_logging() {
    let mut panel = StatusPanel::new();
    let alert = panel.apply_checker_updates(CheckerResult::SpawnError("not found".to_string()));
    assert_eq!(alert, Some("Unable to spawn a realesrgan instance:\nnot found".to_string()));
    assert_eq!(panel.log().len(), 0);
}

#[test]
fn panel_end_stops_processing() {
    let mut panel = StatusPanel::new();
    panel.set_processing(true);
    assert!(panel.processing());
    let alert = panel.apply_checker_updates(CheckerResult::Ended);
    assert_eq!(alert, None);
    assert!(!panel.processing());
    assert_eq!(panel.log().len(), 0);
}

#[test]
fn start_button_error_and_reset() {
    let mut panel = StatusPanel::new();
    panel.show_error_on_start_button("No such file");
    assert_eq!(panel.start_button_text(), "Click Here to Start (No such file)");
    panel.reset_start_button();
    assert_eq!(panel.start_button_text(), "Click Here to Start");
}
