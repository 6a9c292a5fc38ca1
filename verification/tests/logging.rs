use tgcalls::enums::ntg_log_level_enum;
use tgcalls::logging::{completion_error_line, level_label, log_line, logger_needed, should_log, LabelStyle};

const LEVELS: [ntg_log_level_enum; 5] = [
    ntg_log_level_enum::NTG_LOG_DEBUG,
    ntg_log_level_enum::NTG_LOG_INFO,
    ntg_log_level_enum::NTG_LOG_WARNING,
    ntg_log_level_enum::NTG_LOG_ERROR,
    ntg_log_level_enum::NTG_LOG_UNKNOWN,
];

#[test]
fn zero_mask_shows_nothing() {
    for level in LEVELS {
        assert!(!should_log(0, level));
    }
    assert!(!logger_needed(0));
}

#[test]
fn full_mask_shows_everything() {
    for level in LEVELS {
        assert!(should_log(-1, level));
    }
    assert!(logger_needed(-1));
}

#[test]
fn mask_selects_levels() {
    let mask = 8 | 4;
    assert!(should_log(mask, ntg_log_level_enum::NTG_LOG_ERROR));
    assert!(should_log(mask, ntg_log_level_enum::NTG_LOG_WARNING));
    assert!(!should_log(mask, ntg_log_level_enum::NTG_LOG_INFO));
    assert!(!should_log(mask, ntg_log_level_enum::NTG_LOG_DEBUG));
    assert!(should_log(mask, ntg_log_level_enum::NTG_LOG_UNKNOWN));
    assert!(should_log(16, ntg_log_level_enum::NTG_LOG_UNKNOWN));
    assert!(!should_log(16, ntg_log_level_enum::NTG_LOG_ERROR));
}

#[test]
fn labels() {
    assert_eq!(level_label(ntg_log_level_enum::NTG_LOG_ERROR), ("ERROR", LabelStyle::RedBold));
    assert_eq!(level_label(ntg_log_level_enum::NTG_LOG_WARNING), ("WARN", LabelStyle::YellowBold));
    assert_eq!(level_label(ntg_log_level_enum::NTG_LOG_INFO), ("INFO", LabelStyle::Green));
    assert_eq!(level_label(ntg_log_level_enum::NTG_LOG_DEBUG), ("DEBUG", LabelStyle::Blue));
    assert_eq!(level_label(ntg_log_level_enum::NTG_LOG_UNKNOWN), ("UNKNOWN", LabelStyle::Purple));
}

#[test]
fn log_line_text() {
    assert_eq!(log_line("INFO", "call.cpp", 120, "joined"), "[TgCalls INFO] call.cpp:120 | joined\n");
    assert_eq!(log_line("ERROR", "unknown", 0, "No message"), "[TgCalls ERROR] unknown:0 | No message\n");
}

#[test]
fn completion_error_report() {
    assert_eq!(completion_error_line("ERROR", "x", 0), None);
    assert_eq!(
        completion_error_line("ERROR", "<NONE>", -104),
        Some("[NtgCalls ERROR] <NONE> : -104\n".to_string())
    );
}
