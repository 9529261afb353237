use quelana::settings::{settings_or_default, AppSettings};

#[test]
fn defaults_keep_auto_answer_disabled() {
    let settings = AppSettings::default();
    assert!(!settings.auto_answer_mode);
    assert!(settings.keep_on_top);
    assert!(settings.hide_during_screen_share);
}

#[test]
fn stored_settings_win_over_defaults() {
    let stored = AppSettings { auto_answer_mode: true, keep_on_top: false, hide_during_screen_share: false };
    assert_eq!(settings_or_default(Some(stored)), stored);
    assert_eq!(settings_or_default(None), AppSettings::default());
}
