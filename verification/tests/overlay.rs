use quelana::hotkey::{HotkeyState, Key, KeyEvent};
use quelana::overlay::{
    background_rgb, detect_active_meeting_window, listening_dots, meeting_title, names_meeting, record_button_label,
    ActiveTab, OverlayApp, RecordingState, UiMessage,
};
use quelana::settings::AppSettings;

fn app(auto: bool) -> OverlayApp {
    let settings = AppSettings { auto_answer_mode: auto, keep_on_top: true, hide_during_screen_share: true };
    OverlayApp::new(settings, "http://u".to_string(), "k".to_string(), 400, 1_000, None)
}

#[test]
fn new_overlay_starts_ready() {
    let a = app(false);
    assert_eq!(a.status, "Ready to help in your meeting.");
    assert_eq!(a.startup_until, Some(3_000));
    assert!(a.startup_visible);
    assert_eq!(a.recording_state, RecordingState::Idle);
    assert_eq!(a.tab, ActiveTab::Overlay);
    assert!(!a.pending_reply);
    assert_eq!(a.animation_frame, 0);
}

#[test]
fn blank_question_asks_for_one() {
    let mut a = app(false);
    a.question = "   ".to_string();
    assert_eq!(a.submit_question(), None);
    assert_eq!(a.status, "Type a question first.");
}

#[test]
fn same_question_is_sent_once() {
    let mut a = app(false);
    a.question = "  What is the budget?  ".to_string();
    a.response = "old".to_string();
    assert_eq!(a.submit_question().as_deref(), Some("What is the budget?"));
    assert_eq!(a.status, "Asking Gemini…");
    assert_eq!(a.response, "");
    assert!(a.pending_reply);
    a.status = "changed".to_string();
    assert_eq!(a.submit_question(), None);
    assert_eq!(a.status, "changed");
    a.question = "Another?".to_string();
    assert_eq!(a.submit_question().as_deref(), Some("Another?"));
}

#[test]
fn replies_and_errors_reach_the_overlay() {
    let mut a = app(false);
    a.handle_pending_reply(vec![UiMessage::Reply("ignored".to_string())]);
    assert_eq!(a.response, "");
    a.question = "Q".to_string();
    a.submit_question();
    a.recording_state = RecordingState::Processing;
    a.handle_pending_reply(vec![
        UiMessage::SttUpdate("heard".to_string()),
        UiMessage::Reply("Say yes.".to_string()),
    ]);
    assert_eq!(a.response, "Say yes.");
    assert_eq!(a.status, "Answer ready.");
    assert_eq!(a.question, "heard");
    assert_eq!(a.stt_text, "heard");
    assert_eq!(a.recording_state, RecordingState::Idle);
    a.handle_pending_reply(vec![UiMessage::Error("API returned 500".to_string())]);
    assert_eq!(a.response, "");
    assert_eq!(a.status, "API returned 500");
}

#[test]
fn auto_answer_waits_800_ms() {
    let mut a = app(true);
    a.question = "Ready?".to_string();
    let o = a.begin_frame(1_000);
    assert!(o.question_to_send.is_none());
    assert_eq!(a.auto_submit_deadline, Some(1_800));
    let o = a.begin_frame(1_799);
    assert!(o.question_to_send.is_none());
    let o = a.begin_frame(1_800);
    assert_eq!(o.question_to_send.as_deref(), Some("Ready?"));
    assert_eq!(a.auto_submit_deadline, None);
    let o = a.begin_frame(1_900);
    assert!(o.question_to_send.is_none());
    assert_eq!(a.auto_submit_deadline, Some(2_700));
    let o = a.begin_frame(2_700);
    assert!(o.question_to_send.is_none());
}

#[test]
fn auto_answer_off_or_blank_clears_the_wait() {
    let mut a = app(false);
    a.question = "x".to_string();
    a.auto_submit_deadline = Some(5);
    a.begin_frame(10);
    assert_eq!(a.auto_submit_deadline, None);
    let mut b = app(true);
    b.auto_submit_deadline = Some(5);
    b.begin_frame(10);
    assert_eq!(b.auto_submit_deadline, None);
}

#[test]
fn frames_count_and_check_meetings_every_thirty() {
    let mut a = app(false);
    for i in 1..=60u32 {
        let o = a.begin_frame(0);
        assert_eq!(a.animation_frame, i);
        assert_eq!(o.check_meeting, i % 30 == 0);
    }
    a.animation_frame = u32::MAX;
    a.begin_frame(0);
    assert_eq!(a.animation_frame, 0);
}

#[test]
fn startup_notice_hides_after_two_seconds() {
    let mut a = app(false);
    a.begin_frame(2_999);
    assert!(a.startup_visible);
    a.begin_frame(3_000);
    assert!(!a.startup_visible);
}

#[test]
fn voice_button_cycles_and_ask_is_blocked_while_processing() {
    let mut a = app(false);
    a.press_record_button();
    assert_eq!(a.recording_state, RecordingState::Recording);
    a.press_record_button();
    assert_eq!(a.recording_state, RecordingState::Processing);
    a.press_record_button();
    assert_eq!(a.recording_state, RecordingState::Processing);
    a.question = "q".to_string();
    assert_eq!(a.press_ask_button(), None);
    a.recording_state = RecordingState::Recording;
    assert_eq!(a.press_ask_button().as_deref(), Some("q"));
}

#[test]
fn tabs_and_settings_errors() {
    let mut a = app(false);
    a.open_settings();
    assert_eq!(a.tab, ActiveTab::Settings);
    a.back_to_overlay();
    assert_eq!(a.tab, ActiveTab::Overlay);
    a.settings_save_failed("disk full");
    assert_eq!(a.status, "Settings save failed: disk full");
    assert_eq!(a.status_line(), "Status: Settings save failed: disk full");
}

#[test]
fn labels_and_colours() {
    assert_eq!(record_button_label(RecordingState::Idle), "🎤 Start Voice Input");
    assert_eq!(record_button_label(RecordingState::Recording), "⏹️ Stop Recording");
    assert_eq!(record_button_label(RecordingState::Processing), "⏳ Processing...");
    assert_eq!(listening_dots(0), "●");
    assert_eq!(listening_dots(15), "● ●");
    assert_eq!(listening_dots(29), "● ● ●");
    assert_eq!(listening_dots(30), "●");
    assert_eq!(background_rgb(RecordingState::Recording), (255, 100, 100));
    assert_eq!(background_rgb(RecordingState::Idle), (20, 25, 40));
}

#[test]
fn meeting_windows_are_recognised() {
    assert!(meeting_title("Weekly sync - ZOOM"));
    assert!(meeting_title("Meet - abc-defg-hij"));
    assert!(meeting_title("General | Microsoft Teams"));
    assert!(!meeting_title("Inbox - Mail"));
    let titles = vec!["".to_string(), "Editor".to_string(), "Slack | huddle".to_string(), "Zoom".to_string()];
    assert_eq!(detect_active_meeting_window(&titles).as_deref(), Some("Slack | huddle"));
    assert_eq!(detect_active_meeting_window(&vec!["Editor".to_string()]), None);
    let mut a = app(false);
    assert_eq!(a.meeting_label(), "⚠️ No meeting detected - assist anyway?");
    a.refresh_meeting(&titles);
    assert_eq!(a.meeting_label(), "✓ Active meeting: Slack | huddle");
}

#[test]
fn hotkey_fires_on_ctrl_shift_r_only() {
    let mut h = HotkeyState::new();
    assert!(!h.on_event(KeyEvent::KeyPress(Key::KeyR)));
    assert!(!h.on_event(KeyEvent::KeyPress(Key::ControlLeft)));
    assert!(!h.on_event(KeyEvent::KeyPress(Key::KeyR)));
    assert!(!h.on_event(KeyEvent::KeyPress(Key::ShiftRight)));
    assert!(h.on_event(KeyEvent::KeyPress(Key::KeyR)));
    assert!(!h.on_event(KeyEvent::Other));
    assert!(h.on_event(KeyEvent::KeyPress(Key::KeyR)));
    assert!(!h.on_event(KeyEvent::KeyRelease(Key::ControlRight)));
    assert!(!h.ctrl_pressed);
    assert!(!h.on_event(KeyEvent::KeyPress(Key::KeyR)));
    assert!(!h.on_event(KeyEvent::KeyRelease(Key::ShiftLeft)));
    assert!(!h.shift_pressed);
}

#[test]
fn meeting_keywords_on_lower_case_text() {
    let lower = |s: &str| s.chars().collect::<Vec<char>>();
    assert!(names_meeting(&lower("big blue button - room 4")));
    assert!(names_meeting(&lower("appear.in/standup")));
    assert!(names_meeting(&lower("webex")));
    assert!(!names_meeting(&lower("Zoom")));
    assert!(!names_meeting(&lower("terminal")));
}

#[test]
fn transcription_updates_do_not_end_recording() {
    let mut a = app(false);
    a.question = "Q".to_string();
    a.submit_question();
    a.press_record_button();
    a.handle_pending_reply(vec![UiMessage::SttUpdate("partial".to_string())]);
    assert_eq!(a.recording_state, RecordingState::Recording);
    a.press_record_button();
    a.begin_frame(5_000);
    assert_eq!(a.recording_state, RecordingState::Processing);
    a.handle_pending_reply(vec![UiMessage::Error("failed".to_string())]);
    assert_eq!(a.recording_state, RecordingState::Idle);
}

#[test]
fn meeting_window_does_not_change_what_is_sent() {
    let mut with = app(true);
    let mut without = app(true);
    with.refresh_meeting(&vec!["Zoom Meeting".to_string()]);
    for a in [&mut with, &mut without] {
        a.question = "Should we ship?".to_string();
    }
    for now in [1_000u64, 1_500, 1_800, 1_900] {
        let x = with.begin_frame(now);
        let y = without.begin_frame(now);
        assert_eq!(x.question_to_send, y.question_to_send);
        assert_eq!(x.check_meeting, y.check_meeting);
    }
    assert_eq!(with.last_submitted_question, without.last_submitted_question);
    assert_eq!(with.status, without.status);
    assert_eq!(with.press_ask_button(), without.press_ask_button());
    assert_eq!(with.active_meeting.as_deref(), Some("Zoom Meeting"));
    assert_eq!(without.active_meeting, None);
}
