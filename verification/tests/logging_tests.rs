use obs_capture::logging::{
    console_log_line, file_log_line, level_label, LogLevel, LOG_DEBUG, LOG_ERROR, LOG_INFO,
    LOG_WARNING,
};
use obs_capture::scene_item::{item_ops, ItemOp, ItemOptions};

#[test]
fn level_labels() {
    assert_eq!(level_label(LOG_ERROR), "ERROR");
    assert_eq!(level_label(LOG_WARNING), "WARNING");
    assert_eq!(level_label(LOG_INFO), "INFO");
    assert_eq!(level_label(LOG_DEBUG), "DEBUG");
    assert_eq!(level_label(100), "ERROR");
    assert_eq!(level_label(0), "UNKNOWN");
    assert_eq!(level_label(-1), "UNKNOWN");
}

#[test]
fn console_lines() {
    assert_eq!(console_log_line(LOG_INFO, "obs started"), "[INFO] obs started");
    assert_eq!(console_log_line(7, ""), "[UNKNOWN] ");
}

#[test]
fn file_logger_drops_debug_messages() {
    assert_eq!(file_log_line(LogLevel::Debug, "noise"), None);
    assert_eq!(file_log_line(LogLevel::Info, "hello"), Some("hello\n".to_string()));
    assert_eq!(file_log_line(LogLevel::Error, ""), Some("\n".to_string()));
    assert_eq!(file_log_line(LogLevel::Warning, "w"), Some("w\n".to_string()));
}

#[test]
fn scene_item_without_item_does_nothing() {
    let opts = ItemOptions { transform: true, crop: true, blend_method: true, blend_mode: true, visible: true };
    assert!(item_ops(false, opts).is_empty());
}

#[test]
fn scene_item_applies_supplied_properties_then_visibility() {
    let opts = ItemOptions { transform: false, crop: true, blend_method: false, blend_mode: true, visible: false };
    let ops = item_ops(true, opts);
    assert!(ops == vec![ItemOp::SetCrop, ItemOp::SetBlendMode, ItemOp::SetVisible(false), ItemOp::RecordItem]);
    let plain = ItemOptions { transform: false, crop: false, blend_method: false, blend_mode: false, visible: true };
    assert!(item_ops(true, plain) == vec![ItemOp::SetVisible(true), ItemOp::RecordItem]);
    let all = ItemOptions { transform: true, crop: true, blend_method: true, blend_mode: true, visible: true };
    assert!(item_ops(true, all) == vec![ItemOp::SetTransform, ItemOp::SetCrop, ItemOp::SetBlendMethod, ItemOp::SetBlendMode, ItemOp::SetVisible(true), ItemOp::RecordItem]);
}
