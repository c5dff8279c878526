use cdw::dispatch::{output_lines, plan_dispatch, signal_line, DispatchOutcome};

#[test]
fn default_mode_prefixes_bel() {
    let lines = output_lines(false, false, "C:\\Users\\x");
    assert_eq!(lines.len(), 1);
    let first = lines[0].as_bytes();
    assert_eq!(first[0], 7u8);
    assert_eq!(&first[1..], "/mnt/c/Users/x".as_bytes());
}

#[test]
fn convert_mode_has_no_control_prefix() {
    let lines = output_lines(true, false, "C:\\Users\\x");
    assert_eq!(lines.len(), 1);
    assert_eq!(lines[0], "/mnt/c/Users/x");
    assert!(lines[0].as_bytes()[0] >= 32);
}

#[test]
fn verbose_lines_follow_the_signal_line() {
    let lines = output_lines(false, true, "D:\\data");
    assert_eq!(lines.len(), 3);
    assert_eq!(lines[0], "\u{7}/mnt/d/data");
    assert_eq!(lines[1], "Windows path: D:\\data");
    assert_eq!(lines[2], "WSL path: /mnt/d/data");
}

#[test]
fn verbose_convert_keeps_first_line_plain() {
    let lines = output_lines(true, true, "D:\\data");
    assert_eq!(lines.len(), 3);
    assert_eq!(lines[0], "/mnt/d/data");
}

#[test]
fn plan_dispatch_picks_outcome_by_flag() {
    let cd = plan_dispatch(false, String::from("/mnt/c/x"));
    assert!(matches!(cd, DispatchOutcome::ChangeDirectory(_)));
    assert_eq!(signal_line(&cd), "\u{7}/mnt/c/x");
    let show = plan_dispatch(true, String::from("/mnt/c/x"));
    assert!(matches!(show, DispatchOutcome::PrintValue(_)));
    assert_eq!(signal_line(&show), "/mnt/c/x");
}

#[test]
fn passthrough_input_is_framed_too() {
    let lines = output_lines(false, false, "relative/path");
    assert_eq!(lines[0], "\u{7}relative/path");
}
