use obs_capture::settings::{ObsSettings, SettingValue};

fn int_of(s: &ObsSettings, key: &str) -> Option<i64> {
    match s.get(key) {
        Some(SettingValue::Int(i)) => Some(*i),
        _ => None,
    }
}

fn text_of(s: &ObsSettings, key: &str) -> Option<String> {
    match s.get(key) {
        Some(SettingValue::Text(t)) => Some(t.clone()),
        _ => None,
    }
}

#[test]
fn new_settings_are_empty() {
    let s = ObsSettings::new();
    assert_eq!(s.len(), 0);
    assert!(s.get("bitrate").is_none());
}

#[test]
fn get_after_set_returns_written_value() {
    let mut s = ObsSettings::new();
    s.set_int("bitrate", 160);
    assert_eq!(int_of(&s, "bitrate"), Some(160));
    s.set_string("profile", "high");
    assert_eq!(text_of(&s, "profile"), Some("high".to_string()));
    s.set_bool("cursor", true);
    assert!(matches!(s.get("cursor"), Some(SettingValue::Bool(true))));
    s.set_exe_path("path", "recording.mp4");
    assert!(matches!(s.get("path"), Some(SettingValue::ExePath(p)) if p == "recording.mp4"));
}

#[test]
fn last_write_wins_and_key_keeps_its_place() {
    let mut s = ObsSettings::new();
    s.set_int("bf", 0);
    s.set_int("bitrate", 1000);
    s.set_int("bf", 2);
    assert_eq!(s.len(), 2);
    assert_eq!(int_of(&s, "bf"), Some(2));
    assert_eq!(int_of(&s, "bitrate"), Some(1000));
    let (k0, v0) = s.entry(0);
    assert_eq!(k0, "bf");
    assert!(matches!(v0, SettingValue::Int(2)));
    let (k1, _) = s.entry(1);
    assert_eq!(k1, "bitrate");
}

#[test]
fn writing_one_key_leaves_others() {
    let mut s = ObsSettings::new();
    s.set_string("monitor_id", "display");
    s.set_bool("force_sdr", false);
    s.set_int("method", 2);
    assert_eq!(text_of(&s, "monitor_id"), Some("display".to_string()));
    assert!(matches!(s.get("force_sdr"), Some(SettingValue::Bool(false))));
    s.set_string("monitor_id", "other");
    assert_eq!(int_of(&s, "method"), Some(2));
    assert!(matches!(s.get("force_sdr"), Some(SettingValue::Bool(false))));
    assert_eq!(text_of(&s, "monitor_id"), Some("other".to_string()));
    assert_eq!(s.len(), 3);
}

#[test]
fn value_kinds_replace_each_other() {
    let mut s = ObsSettings::new();
    s.set_int("crf", 20);
    s.set_string("crf", "20");
    assert_eq!(int_of(&s, "crf"), None);
    assert_eq!(text_of(&s, "crf"), Some("20".to_string()));
    let d = s.get("crf").unwrap().duplicate();
    assert!(matches!(d, SettingValue::Text(t) if t == "20"));
}
