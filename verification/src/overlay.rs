//! The overlay window's state and the decisions taken on each frame and input.
//!
//! Drawing, timers, threads and the network stay with the caller: it reports
//! the current time in milliseconds of a monotonic clock, passes the messages
//! that arrived from the request thread, and performs what a decision returns
//! (a question to send, a meeting check to run).

use vstd::prelude::*;

use crate::settings::AppSettings;
use crate::text::{chars_of, contains_text, has_substring, trim, trimmed};

verus! {

/// How long the start-up notice stays visible, in milliseconds.
pub const STARTUP_NOTICE_MS: u64 = 2000;

/// How long a question must stay unchanged before auto-answer sends it, in milliseconds.
pub const AUTO_SUBMIT_DELAY_MS: u64 = 800;

/// Every this many frames the open windows are checked for a meeting again.
pub const MEETING_CHECK_FRAMES: u32 = 30;

/// A message from the thread that talks to the endpoint.
#[derive(Debug)]
pub enum UiMessage {
    Reply(String),
    Error(String),
    SttUpdate(String),
}

/// The tab shown in the overlay.
#[derive(Clone, Copy, Debug, PartialEq, Eq, Structural)]
pub enum ActiveTab {
    Overlay,
    Settings,
}

/// Where voice input stands.
#[derive(Clone, Copy, Debug, PartialEq, Eq, Structural)]
pub enum RecordingState {
    Idle,
    Recording,
    Processing,
}

/// The overlay's state. Times are milliseconds of the caller's monotonic
/// clock; `pending_reply` says whether a reply channel to a request thread is open.
pub struct OverlayApp {
    pub settings: AppSettings,
    pub question: String,
    pub response: String,
    pub status: String,
    pub stt_text: String,
    pub recording_state: RecordingState,
    pub tab: ActiveTab,
    pub pending_reply: bool,
    pub auto_submit_deadline: Option<u64>,
    pub last_submitted_question: String,
    pub startup_visible: bool,
    pub startup_until: Option<u64>,
    pub api_url: String,
    pub api_key: String,
    pub max_output_tokens: usize,
    pub active_meeting: Option<String>,
    pub animation_frame: u32,
}

/// What an [`OverlayApp`] holds, with its text as character sequences.
pub struct OverlayView {
    pub settings: AppSettings,
    pub question: Seq<char>,
    pub response: Seq<char>,
    pub status: Seq<char>,
    pub stt_text: Seq<char>,
    pub recording_state: RecordingState,
    pub tab: ActiveTab,
    pub pending_reply: bool,
    pub auto_submit_deadline: Option<u64>,
    pub last_submitted_question: Seq<char>,
    pub startup_visible: bool,
    pub startup_until: Option<u64>,
    pub api_url: Seq<char>,
    pub api_key: Seq<char>,
    pub max_output_tokens: usize,
    pub active_meeting: Option<Seq<char>>,
    pub animation_frame: u32,
}

pub open spec fn opt_text(o: Option<String>) -> Option<Seq<char>> {
    match o {
        Some(t) => Some(t@),
        None => None,
    }
}

impl View for OverlayApp {
    type V = OverlayView;

    open spec fn view(&self) -> OverlayView {
        OverlayView {
            settings: self.settings,
            question: self.question@,
            response: self.response@,
            status: self.status@,
            stt_text: self.stt_text@,
            recording_state: self.recording_state,
            tab: self.tab,
            pending_reply: self.pending_reply,
            auto_submit_deadline: self.auto_submit_deadline,
            last_submitted_question: self.last_submitted_question@,
            startup_visible: self.startup_visible,
            startup_until: self.startup_until,
            api_url: self.api_url@,
            api_key: self.api_key@,
            max_output_tokens: self.max_output_tokens,
            active_meeting: opt_text(self.active_meeting),
            animation_frame: self.animation_frame,
        }
    }
}

/// The state of a freshly opened overlay.
pub open spec fn initial_view(
    settings: AppSettings,
    api_url: Seq<char>,
    api_key: Seq<char>,
    max_output_tokens: usize,
    now_ms: u64,
    active_meeting: Option<Seq<char>>,
) -> OverlayView {
    OverlayView {
        settings,
        question: Seq::empty(),
        response: Seq::empty(),
        status: "Ready to help in your meeting."@,
        stt_text: Seq::empty(),
        recording_state: RecordingState::Idle,
        tab: ActiveTab::Overlay,
        pending_reply: false,
        auto_submit_deadline: None,
        last_submitted_question: Seq::empty(),
        startup_visible: true,
        startup_until: Some((now_ms + 2000) as u64),
        api_url,
        api_key,
        max_output_tokens,
        active_meeting,
        animation_frame: 0,
    }
}

/// Submitting the question: a blank question only sets a hint; the question
/// last sent is not sent again; any other question, trimmed, is sent and
/// becomes the question last sent, with the previous answer cleared.
pub open spec fn submit_step(s: OverlayView) -> (OverlayView, Option<Seq<char>>) {
    let q = trimmed(s.question);
    if q.len() == 0 {
        (OverlayView { status: "Type a question first."@, ..s }, None)
    } else if q == s.last_submitted_question {
        (s, None)
    } else {
        (
            OverlayView {
                last_submitted_question: q,
                status: "Asking Gemini…"@,
                response: Seq::empty(),
                pending_reply: true,
                ..s
            },
            Some(q),
        )
    }
}

/// The effect of one message from the request thread.
pub open spec fn after_message(s: OverlayView, m: UiMessage) -> OverlayView {
    match m {
        UiMessage::Reply(r) => OverlayView {
            response: r@,
            status: "Answer ready."@,
            recording_state: RecordingState::Idle,
            ..s
        },
        UiMessage::Error(e) => OverlayView {
            response: Seq::empty(),
            status: e@,
            recording_state: RecordingState::Idle,
            ..s
        },
        UiMessage::SttUpdate(t) => OverlayView { stt_text: t@, question: t@, ..s },
    }
}

/// The effect of the messages `ms`, taken in order.
pub open spec fn after_messages(s: OverlayView, ms: Seq<UiMessage>) -> OverlayView
    decreases ms.len(),
{
    if ms.len() == 0 {
        s
    } else {
        after_message(after_messages(s, ms.drop_last()), ms.last())
    }
}

/// The frame counter after one more frame, wrapping at `u32::MAX`.
pub open spec fn next_frame(f: u32) -> u32 {
    if f == u32::MAX {
        0
    } else {
        (f + 1) as u32
    }
}

/// Whether the start-up notice's time has run out at `now`.
pub open spec fn startup_expired(s: OverlayView, now: u64) -> bool {
    match s.startup_until {
        Some(u) => now >= u,
        None => true,
    }
}

/// The start of a frame at `now`: the frame counter advances and asks for a
/// meeting check every 30 frames; the start-up notice shows until its time
/// runs out; with auto-answer on and a question typed, the question is sent
/// once it has waited 800 ms, and the wait restarts whenever the question is
/// blank or auto-answer is off. Returns the new state, whether to check for a
/// meeting, and the question to send.
pub open spec fn frame_step(s: OverlayView, now: u64) -> (OverlayView, bool, Option<Seq<char>>) {
    let f = next_frame(s.animation_frame);
    let check = f % 30 == 0;
    let s1 = OverlayView { animation_frame: f, startup_visible: !startup_expired(s, now), ..s };
    if s.settings.auto_answer_mode && trimmed(s.question).len() > 0 {
        match s.auto_submit_deadline {
            Some(d) => if now >= d {
                let (s2, q) = submit_step(s1);
                (OverlayView { auto_submit_deadline: None, ..s2 }, check, q)
            } else {
                (s1, check, None)
            },
            None => (
                OverlayView { auto_submit_deadline: Some((now + 800) as u64), ..s1 },
                check,
                None,
            ),
        }
    } else {
        (OverlayView { auto_submit_deadline: None, ..s1 }, check, None)
    }
}

/// The voice button: idle starts recording, recording moves to processing,
/// and the button does nothing while processing.
pub open spec fn record_button_step(r: RecordingState) -> RecordingState {
    match r {
        RecordingState::Idle => RecordingState::Recording,
        RecordingState::Recording => RecordingState::Processing,
        RecordingState::Processing => RecordingState::Processing,
    }
}

/// What the start of a frame asks of the caller.
pub struct FrameOutcome {
    /// Check the open windows for a meeting again.
    pub check_meeting: bool,
    /// Send this question to the endpoint.
    pub question_to_send: Option<String>,
}

} // verus!

verus! {

impl OverlayApp {
    /// A freshly opened overlay at time `now_ms`, with the meeting window
    /// found when it opened.
    pub fn new(
        settings: AppSettings,
        api_url: String,
        api_key: String,
        max_output_tokens: usize,
        now_ms: u64,
        active_meeting: Option<String>,
    ) -> (app: Self)
        requires
            now_ms <= u64::MAX - STARTUP_NOTICE_MS,
        ensures
            app@ == initial_view(
                settings,
                api_url@,
                api_key@,
                max_output_tokens,
                now_ms,
                opt_text(active_meeting),
            ),
    {
        OverlayApp {
            settings: settings.clone(),
            question: String::new(),
            response: String::new(),
            status: "Ready to help in your meeting.".to_owned(),
            stt_text: String::new(),
            recording_state: RecordingState::Idle,
            tab: ActiveTab::Overlay,
            pending_reply: false,
            auto_submit_deadline: None,
            last_submitted_question: String::new(),
            startup_visible: true,
            startup_until: Some(now_ms + STARTUP_NOTICE_MS),
            api_url,
            api_key,
            max_output_tokens,
            active_meeting,
            animation_frame: 0,
        }
    }

    /// Submits the typed question (see [`submit_step`]); returns the question
    /// to send to the endpoint, if any.
    pub fn submit_question(&mut self) -> (sent: Option<String>)
        ensures
            final(self)@ == submit_step(old(self)@).0,
            opt_text(sent) == submit_step(old(self)@).1,
    {
        let trimmed_question = trim(self.question.as_str());
        if trimmed_question.as_str().is_empty() {
            self.status = "Type a question first.".to_owned();
            return None;
        }
        if trimmed_question == self.last_submitted_question {
            return None;
        }
        self.last_submitted_question = trimmed_question.clone();
        self.status = "Asking Gemini…".to_owned();
        self.response = String::new();
        self.pending_reply = true;
        Some(trimmed_question)
    }

    /// Takes in one message from the request thread (see [`after_message`]).
    pub fn apply_message(&mut self, m: &UiMessage)
        ensures
            final(self)@ == after_message(old(self)@, *m),
    {
        match m {
            UiMessage::Reply(reply) => {
                self.response = reply.clone();
                self.status = "Answer ready.".to_owned();
                self.recording_state = RecordingState::Idle;
            },
            UiMessage::Error(error) => {
                self.response = String::new();
                self.status = error.clone();
                self.recording_state = RecordingState::Idle;
            },
            UiMessage::SttUpdate(text) => {
                self.stt_text = text.clone();
                self.question = text.clone();
            },
        }
    }

    /// Takes in the messages that arrived from the request thread, in order;
    /// with no reply channel open there is nothing to take in.
    pub fn handle_pending_reply(&mut self, messages: Vec<UiMessage>)
        ensures
            old(self).pending_reply ==> final(self)@ == after_messages(old(self)@, messages@),
            !old(self).pending_reply ==> final(self)@ == old(self)@,
    {
        if !self.pending_reply {
            return;
        }
        let ghost start = self@;
        let n = messages.len();
        let mut i: usize = 0;
        assert(messages@.take(0) == Seq::<UiMessage>::empty());
        while i < n
            invariant
                i <= n == messages.len(),
                self@ == after_messages(start, messages@.take(i as int)),
            decreases n - i,
        {
            assert(messages@.take(i + 1).drop_last() == messages@.take(i as int));
            self.apply_message(&messages[i]);
            i = i + 1;
        }
        assert(messages@.take(n as int) == messages@);
    }

    /// The start of a frame at `now_ms` (see [`frame_step`]).
    pub fn begin_frame(&mut self, now_ms: u64) -> (out: FrameOutcome)
        requires
            now_ms <= u64::MAX - AUTO_SUBMIT_DELAY_MS,
        ensures
            final(self)@ == frame_step(old(self)@, now_ms).0,
            out.check_meeting == frame_step(old(self)@, now_ms).1,
            opt_text(out.question_to_send) == frame_step(old(self)@, now_ms).2,
    {
        self.animation_frame = if self.animation_frame == u32::MAX {
            0
        } else {
            self.animation_frame + 1
        };
        let check_meeting = self.animation_frame % MEETING_CHECK_FRAMES == 0;
        let expired = match self.startup_until {
            Some(until) => now_ms >= until,
            None => true,
        };
        if !expired {
            self.startup_visible = true;
        } else if self.startup_visible {
            self.startup_visible = false;
        }
        let mut question_to_send = None;
        let blank = trim(self.question.as_str()).as_str().is_empty();
        if self.settings.auto_answer_mode && !blank {
            match self.auto_submit_deadline {
                Some(deadline) => {
                    if now_ms >= deadline {
                        question_to_send = self.submit_question();
                        self.auto_submit_deadline = None;
                    }
                },
                None => {
                    self.auto_submit_deadline = Some(now_ms + AUTO_SUBMIT_DELAY_MS);
                },
            }
        } else {
            self.auto_submit_deadline = None;
        }
        FrameOutcome { check_meeting, question_to_send }
    }

    /// The voice button was clicked (see [`record_button_step`]).
    pub fn press_record_button(&mut self)
        ensures
            final(self)@ == (OverlayView {
                recording_state: record_button_step(old(self).recording_state),
                ..old(self)@
            }),
    {
        if self.recording_state != RecordingState::Processing {
            if self.recording_state == RecordingState::Idle {
                self.recording_state = RecordingState::Recording;
            } else {
                self.recording_state = RecordingState::Processing;
            }
        }
    }

    /// The ask button was clicked: the question is submitted unless voice
    /// input is being processed.
    pub fn press_ask_button(&mut self) -> (sent: Option<String>)
        ensures
            old(self).recording_state == RecordingState::Processing ==> final(self)@ == old(self)@
                && sent is None,
            old(self).recording_state != RecordingState::Processing ==> final(self)@ == submit_step(
                old(self)@,
            ).0 && opt_text(sent) == submit_step(old(self)@).1,
    {
        if self.recording_state != RecordingState::Processing {
            self.submit_question()
        } else {
            None
        }
    }

    /// Switches to the settings tab.
    pub fn open_settings(&mut self)
        ensures
            final(self)@ == (OverlayView { tab: ActiveTab::Settings, ..old(self)@ }),
    {
        self.tab = ActiveTab::Settings;
    }

    /// Switches back to the overlay tab.
    pub fn back_to_overlay(&mut self)
        ensures
            final(self)@ == (OverlayView { tab: ActiveTab::Overlay, ..old(self)@ }),
    {
        self.tab = ActiveTab::Overlay;
    }

    /// Saving the settings failed with `error`; the status says so.
    pub fn settings_save_failed(&mut self, error: &str)
        ensures
            final(self)@ == (OverlayView {
                status: "Settings save failed: "@ + error@,
                ..old(self)@
            }),
    {
        let mut status = "Settings save failed: ".to_owned();
        status.append(error);
        self.status = status;
    }

    /// The status line shown under the buttons.
    pub fn status_line(&self) -> (r: String)
        ensures
            r@ == "Status: "@ + self.status@,
    {
        let mut r = "Status: ".to_owned();
        r.append(self.status.as_str());
        r
    }
}

/// The label of the voice button.
pub fn record_button_label(state: RecordingState) -> (r: &'static str)
    ensures
        r@ == match state {
            RecordingState::Idle => "🎤 Start Voice Input"@,
            RecordingState::Recording => "⏹️ Stop Recording"@,
            RecordingState::Processing => "⏳ Processing..."@,
        },
{
    match state {
        RecordingState::Idle => "🎤 Start Voice Input",
        RecordingState::Recording => "⏹️ Stop Recording",
        RecordingState::Processing => "⏳ Processing...",
    }
}

/// The listening indicator, cycling through one, two and three dots every ten frames.
pub fn listening_dots(frame: u32) -> (r: &'static str)
    ensures
        r@ == if (frame / 10) % 3 == 0 {
            "●"@
        } else if (frame / 10) % 3 == 1 {
            "● ●"@
        } else {
            "● ● ●"@
        },
{
    let phase = (frame / 10) % 3;
    if phase == 0 {
        "●"
    } else if phase == 1 {
        "● ●"
    } else {
        "● ● ●"
    }
}

/// The window's background colour: red while recording, dark blue otherwise.
pub fn background_rgb(state: RecordingState) -> (c: (u8, u8, u8))
    ensures
        c == if state == RecordingState::Recording {
            (255u8, 100u8, 100u8)
        } else {
            (20u8, 25u8, 40u8)
        },
{
    if state == RecordingState::Recording {
        (255, 100, 100)
    } else {
        (20, 25, 40)
    }
}

} // verus!

verus! {

/// The lower-case form of `s` that `str::to_lowercase` gives.
pub uninterp spec fn lowercase(s: Seq<char>) -> Seq<char>;

/// `str::to_lowercase`: the contract claims only that the result is the
/// lower-case mapping of `s`, a function of `s` alone (Unicode's case mapping
/// is left unstated).
#[verifier::external_body]
fn to_lowercase(s: &str) -> (r: String)
    ensures
        r@ == lowercase(s@),
{
    s.to_lowercase()
}

/// Whether lower-case text mentions a meeting application.
pub open spec fn mentions_meeting(t: Seq<char>) -> bool {
    ||| has_substring(t, "google meet"@)
    ||| has_substring(t, "meet.google.com"@)
    ||| has_substring(t, "teams"@)
    ||| has_substring(t, "microsoft teams"@)
    ||| has_substring(t, "zoom"@)
    ||| has_substring(t, "discord"@)
    ||| has_substring(t, "webex"@)
    ||| has_substring(t, "skype"@)
    ||| has_substring(t, "jitsi"@)
    ||| has_substring(t, "big blue button"@)
    ||| has_substring(t, "whereby"@)
    ||| has_substring(t, "appear.in"@)
    ||| has_substring(t, "slack"@)
    ||| has_substring(t, "meet"@)
}

/// Whether a window title, lower-cased, names a meeting application.
pub open spec fn is_meeting_title(title: Seq<char>) -> bool {
    mentions_meeting(lowercase(title))
}

fn title_has(t: &Vec<char>, keyword: &str) -> (r: bool)
    ensures
        r == has_substring(t@, keyword@),
{
    let k = chars_of(keyword);
    contains_text(t, &k)
}

/// Whether the lower-case text `lower` mentions a meeting application
/// (see [`mentions_meeting`]).
pub fn names_meeting(lower: &Vec<char>) -> (r: bool)
    ensures
        r == mentions_meeting(lower@),
{
    let t = lower;
    title_has(t, "google meet") || title_has(t, "meet.google.com") || title_has(t, "teams")
        || title_has(t, "microsoft teams") || title_has(t, "zoom") || title_has(t, "discord")
        || title_has(t, "webex") || title_has(t, "skype") || title_has(t, "jitsi") || title_has(
        t,
        "big blue button",
    ) || title_has(t, "whereby") || title_has(t, "appear.in") || title_has(t, "slack")
        || title_has(t, "meet")
}

/// Whether `title` names a meeting application (see [`is_meeting_title`]).
pub fn meeting_title(title: &str) -> (r: bool)
    ensures
        r == is_meeting_title(title@),
{
    let lower = to_lowercase(title);
    let t = chars_of(lower.as_str());
    names_meeting(&t)
}

/// The first of `titles` that is not empty and names a meeting.
pub open spec fn first_meeting(titles: Seq<Seq<char>>) -> Option<Seq<char>>
    decreases titles.len(),
{
    if titles.len() == 0 {
        None
    } else if titles[0].len() > 0 && is_meeting_title(titles[0]) {
        Some(titles[0])
    } else {
        first_meeting(titles.drop_first())
    }
}

pub open spec fn texts(v: Seq<String>) -> Seq<Seq<char>> {
    v.map_values(|t: String| t@)
}

/// The meeting window among the visible windows' titles, taken in the order
/// the windows are enumerated: the first non-empty title that names a meeting.
pub fn detect_active_meeting_window(visible_titles: &Vec<String>) -> (r: Option<String>)
    ensures
        opt_text(r) == first_meeting(texts(visible_titles@)),
{
    let n = visible_titles.len();
    let mut i: usize = 0;
    assert(texts(visible_titles@).skip(0) == texts(visible_titles@));
    while i < n
        invariant
            i <= n == visible_titles.len(),
            first_meeting(texts(visible_titles@)) == first_meeting(
                texts(visible_titles@).skip(i as int),
            ),
        decreases n - i,
    {
        let title = &visible_titles[i];
        let ghost rest = texts(visible_titles@).skip(i as int);
        assert(rest[0] == title@);
        if !title.as_str().is_empty() && meeting_title(title.as_str()) {
            return Some(title.clone());
        }
        assert(rest.drop_first() == texts(visible_titles@).skip(i + 1));
        i = i + 1;
    }
    assert(texts(visible_titles@).skip(n as int) == Seq::<Seq<char>>::empty());
    None
}

impl OverlayApp {
    /// Checks the visible windows for a meeting again.
    pub fn refresh_meeting(&mut self, visible_titles: &Vec<String>)
        ensures
            final(self)@ == (OverlayView {
                active_meeting: first_meeting(texts(visible_titles@)),
                ..old(self)@
            }),
    {
        self.active_meeting = detect_active_meeting_window(visible_titles);
    }

    /// The meeting indicator's text.
    pub fn meeting_label(&self) -> (r: String)
        ensures
            r@ == match self.active_meeting {
                Some(m) => "✓ Active meeting: "@ + m@,
                None => "⚠️ No meeting detected - assist anyway?"@,
            },
    {
        match &self.active_meeting {
            Some(m) => {
                let mut r = "✓ Active meeting: ".to_owned();
                r.append(m.as_str());
                r
            },
            None => "⚠️ No meeting detected - assist anyway?".to_owned(),
        }
    }
}

} // verus!
verus! {

/// Submitting again right after a question was sent sends nothing and
/// changes nothing: the same question is never sent twice in a row.
pub proof fn lemma_resubmit_sends_nothing(s: OverlayView)
    ensures
        submit_step(s).1 is Some ==> submit_step(submit_step(s).0) == (submit_step(s).0, None::<
            Seq<char>,
        >),
{
}

/// A blank question is never sent; the status asks for a question instead.
pub proof fn lemma_blank_question_not_sent(s: OverlayView)
    requires
        trimmed(s.question).len() == 0,
    ensures
        submit_step(s).1 is None,
        submit_step(s).0.status == "Type a question first."@,
{
}

/// A reply that arrives for a question just sent becomes the shown answer,
/// with the status "Answer ready." and voice input back to idle.
pub proof fn lemma_reply_answers_question(s: OverlayView, reply: String)
    requires
        submit_step(s).1 is Some,
    ensures
        ({
            let after = after_messages(submit_step(s).0, seq![UiMessage::Reply(reply)]);
            &&& after.response == reply@
            &&& after.status == "Answer ready."@
            &&& after.recording_state == RecordingState::Idle
            &&& after.last_submitted_question == submit_step(s).1->0
            &&& after.pending_reply
        }),
{
    let ms = seq![UiMessage::Reply(reply)];
    assert(ms.drop_last() == Seq::<UiMessage>::empty());
    assert(ms.last() == UiMessage::Reply(reply));
    assert(after_messages(submit_step(s).0, ms.drop_last()) == submit_step(s).0);
}

/// Once the last message taken in is a reply or an error, voice input is idle.
pub proof fn lemma_answer_ends_recording(s: OverlayView, ms: Seq<UiMessage>)
    requires
        ms.len() > 0,
        !(ms.last() is SttUpdate),
    ensures
        after_messages(s, ms).recording_state == RecordingState::Idle,
{
}

/// Auto-answer sends a question only when it is on and the question's
/// waiting time, set on an earlier frame, has run out.
pub proof fn lemma_auto_submit_waits(s: OverlayView, now: u64)
    requires
        frame_step(s, now).2 is Some,
    ensures
        s.settings.auto_answer_mode,
        s.auto_submit_deadline is Some,
        now >= s.auto_submit_deadline->0,
{
}

/// The first frame that sees a typed question with auto-answer on sends
/// nothing and sets the waiting time to end 800 ms later.
pub proof fn lemma_auto_submit_schedules(s: OverlayView, now: u64)
    requires
        s.settings.auto_answer_mode,
        trimmed(s.question).len() > 0,
        s.auto_submit_deadline is None,
        now <= u64::MAX - 800,
    ensures
        frame_step(s, now).2 is None,
        frame_step(s, now).0.auto_submit_deadline == Some((now + 800) as u64),
{
}

/// Two clicks on the voice button take idle input to processing, where
/// further clicks change nothing.
pub proof fn lemma_record_button_cycle()
    ensures
        record_button_step(RecordingState::Idle) == RecordingState::Recording,
        record_button_step(record_button_step(RecordingState::Idle)) == RecordingState::Processing,
        record_button_step(RecordingState::Processing) == RecordingState::Processing,
{
}

/// Voice input goes back to idle only through a reply or an error message:
/// submitting, starting a frame and the voice button never make it idle, and
/// after a run of messages that ends idle from a non-idle state, one of them
/// was a reply or an error.
pub proof fn lemma_idle_only_after_answer(s: OverlayView, now: u64, ms: Seq<UiMessage>)
    ensures
        submit_step(s).0.recording_state == s.recording_state,
        frame_step(s, now).0.recording_state == s.recording_state,
        forall|r: RecordingState| record_button_step(r) != RecordingState::Idle,
        forall|m: UiMessage|
            s.recording_state != RecordingState::Idle && #[trigger] after_message(
                s,
                m,
            ).recording_state == RecordingState::Idle ==> !(m is SttUpdate),
        s.recording_state != RecordingState::Idle && after_messages(s, ms).recording_state
            == RecordingState::Idle ==> exists|i: int| 0 <= i < ms.len() && !(#[trigger] ms[i] is SttUpdate),
    decreases ms.len(),
{
    if ms.len() > 0 {
        lemma_idle_only_after_answer(s, now, ms.drop_last());
        if s.recording_state != RecordingState::Idle && after_messages(s, ms).recording_state
            == RecordingState::Idle {
            if ms.last() is SttUpdate {
                let k = choose|i: int| 0 <= i < ms.drop_last().len() && !(#[trigger] ms.drop_last()[i] is SttUpdate);
                assert(ms[k] == ms.drop_last()[k]);
            } else {
                assert(ms[ms.len() - 1] == ms.last());
            }
        }
    }
}

/// Two states that differ only in the meeting window found.
pub open spec fn same_but_meeting(a: OverlayView, b: OverlayView) -> bool {
    a == OverlayView { active_meeting: a.active_meeting, ..b }
}

/// Window titles never reach a request: from states that differ only in the
/// meeting window found, submitting, starting a frame and taking in a message
/// send the same question and lead to states that again differ only there.
pub proof fn lemma_meeting_does_not_reach_requests(
    a: OverlayView,
    b: OverlayView,
    now: u64,
    m: UiMessage,
)
    requires
        same_but_meeting(a, b),
    ensures
        submit_step(a).1 == submit_step(b).1,
        same_but_meeting(submit_step(a).0, submit_step(b).0),
        frame_step(a, now).1 == frame_step(b, now).1,
        frame_step(a, now).2 == frame_step(b, now).2,
        same_but_meeting(frame_step(a, now).0, frame_step(b, now).0),
        same_but_meeting(after_message(a, m), after_message(b, m)),
        same_but_meeting(
            OverlayView { recording_state: record_button_step(a.recording_state), ..a },
            OverlayView { recording_state: record_button_step(b.recording_state), ..b },
        ),
{
}

/// Each meeting application the overlay knows makes a lower-case title a
/// meeting title when its name occurs in it, and only these do.
pub proof fn lemma_meeting_keywords(t: Seq<char>)
    ensures
        has_substring(t, "google meet"@) ==> mentions_meeting(t),
        has_substring(t, "meet.google.com"@) ==> mentions_meeting(t),
        has_substring(t, "teams"@) ==> mentions_meeting(t),
        has_substring(t, "microsoft teams"@) ==> mentions_meeting(t),
        has_substring(t, "zoom"@) ==> mentions_meeting(t),
        has_substring(t, "discord"@) ==> mentions_meeting(t),
        has_substring(t, "webex"@) ==> mentions_meeting(t),
        has_substring(t, "skype"@) ==> mentions_meeting(t),
        has_substring(t, "jitsi"@) ==> mentions_meeting(t),
        has_substring(t, "big blue button"@) ==> mentions_meeting(t),
        has_substring(t, "whereby"@) ==> mentions_meeting(t),
        has_substring(t, "appear.in"@) ==> mentions_meeting(t),
        has_substring(t, "slack"@) ==> mentions_meeting(t),
        has_substring(t, "meet"@) ==> mentions_meeting(t),
        mentions_meeting(t) ==> has_substring(t, "teams"@) || has_substring(t, "zoom"@)
            || has_substring(t, "discord"@) || has_substring(t, "webex"@) || has_substring(
            t,
            "skype"@,
        ) || has_substring(t, "jitsi"@) || has_substring(t, "big blue button"@) || has_substring(
            t,
            "whereby"@,
        ) || has_substring(t, "appear.in"@) || has_substring(t, "slack"@) || has_substring(
            t,
            "meet"@,
        ) || has_substring(t, "google meet"@) || has_substring(t, "meet.google.com"@)
            || has_substring(t, "microsoft teams"@),
{
}

/// A window title is a meeting title exactly when its lower-case form
/// mentions a meeting application.
pub proof fn lemma_meeting_title_is_case_blind(title: Seq<char>)
    ensures
        is_meeting_title(title) <==> mentions_meeting(lowercase(title)),
{
}

/// A question that is not blank and differs from the one last sent is sent,
/// trimmed, becomes the question last sent, clears the previous answer and
/// sets the status "Asking Gemini…"; nothing else changes.
pub proof fn lemma_new_question_is_sent(s: OverlayView)
    requires
        trimmed(s.question).len() > 0,
        trimmed(s.question) != s.last_submitted_question,
    ensures
        submit_step(s).1 == Some(trimmed(s.question)),
        submit_step(s).0.last_submitted_question == trimmed(s.question),
        submit_step(s).0.response == Seq::<char>::empty(),
        submit_step(s).0.status == "Asking Gemini…"@,
        submit_step(s).0.pending_reply,
        submit_step(s).0.question == s.question,
        submit_step(s).0.recording_state == s.recording_state,
        submit_step(s).0.settings == s.settings,
{
}

/// Whatever the state, a question is sent exactly when the trimmed question is
/// neither blank nor the one last sent, and what is sent is the trimmed question.
pub proof fn lemma_sent_exactly_when_new(s: OverlayView)
    ensures
        submit_step(s).1 is Some <==> (trimmed(s.question).len() > 0 && trimmed(s.question)
            != s.last_submitted_question),
        submit_step(s).1 is Some ==> submit_step(s).1 == Some(trimmed(s.question)),
{
}

/// Each frame adds one to the frame counter, modulo 2^32, and asks for a
/// meeting check exactly when the new count is a multiple of 30; the start-up
/// notice shows exactly while its end time has not been reached.
pub proof fn lemma_frame_counter_and_notice(s: OverlayView, now: u64)
    ensures
        frame_step(s, now).0.animation_frame as int == (s.animation_frame as int + 1) % 0x1_0000_0000,
        frame_step(s, now).1 <==> ((s.animation_frame as int + 1) % 0x1_0000_0000) % 30 == 0,
        frame_step(s, now).0.startup_visible <==> (s.startup_until is Some && now
            < s.startup_until->0),
{
}

/// An error message clears the answer, shows the error as the status and ends
/// voice input; a transcription update becomes both the transcription and the
/// question, and leaves the answer, the status and voice input as they were.
pub proof fn lemma_error_and_transcription_messages(s: OverlayView, text: String)
    ensures
        after_message(s, UiMessage::Error(text)).response == Seq::<char>::empty(),
        after_message(s, UiMessage::Error(text)).status == text@,
        after_message(s, UiMessage::Error(text)).recording_state == RecordingState::Idle,
        after_message(s, UiMessage::Error(text)).question == s.question,
        after_message(s, UiMessage::SttUpdate(text)).question == text@,
        after_message(s, UiMessage::SttUpdate(text)).stt_text == text@,
        after_message(s, UiMessage::SttUpdate(text)).response == s.response,
        after_message(s, UiMessage::SttUpdate(text)).status == s.status,
        after_message(s, UiMessage::SttUpdate(text)).recording_state == s.recording_state,
        after_message(s, UiMessage::Reply(text)).response == text@,
        after_message(s, UiMessage::Reply(text)).status == "Answer ready."@,
        after_message(s, UiMessage::Reply(text)).question == s.question,
{
}

/// The meeting found among window titles is one of them, is not empty, names
/// a meeting, and no earlier title does; nothing is found exactly when no
/// title does.
pub proof fn lemma_first_meeting_is_first_match(titles: Seq<Seq<char>>)
    ensures
        first_meeting(titles) matches Some(t) ==> exists|i: int|
            0 <= i < titles.len() && titles[i] == t && t.len() > 0 && is_meeting_title(t) && forall|
                j: int,
            | 0 <= j < i ==> !(titles[j].len() > 0 && is_meeting_title(titles[j])),
        first_meeting(titles) is None <==> forall|i: int|
            0 <= i < titles.len() ==> !(titles[i].len() > 0 && is_meeting_title(titles[i])),
    decreases titles.len(),
{
    if titles.len() > 0 {
        let rest = titles.drop_first();
        lemma_first_meeting_is_first_match(rest);
        if !(titles[0].len() > 0 && is_meeting_title(titles[0])) {
            if first_meeting(titles) is Some {
                let t = first_meeting(titles)->0;
                let i = choose|i: int|
                    0 <= i < rest.len() && rest[i] == t && t.len() > 0 && is_meeting_title(t)
                        && forall|j: int|
                        0 <= j < i ==> !(rest[j].len() > 0 && is_meeting_title(rest[j]));
                assert(titles[i + 1] == rest[i]);
                assert forall|j: int| 0 <= j < i + 1 implies !(titles[j].len() > 0
                    && is_meeting_title(titles[j])) by {
                    if j > 0 {
                        assert(titles[j] == rest[j - 1]);
                    }
                }
            }
            if forall|i: int| 0 <= i < rest.len() ==> !(rest[i].len() > 0 && is_meeting_title(rest[i])) {
                assert forall|i: int| 0 <= i < titles.len() implies !(titles[i].len() > 0
                    && is_meeting_title(titles[i])) by {
                    if i > 0 {
                        assert(titles[i] == rest[i - 1]);
                    }
                }
            }
            if forall|i: int|
                0 <= i < titles.len() ==> !(titles[i].len() > 0 && is_meeting_title(titles[i])) {
                assert forall|i: int| 0 <= i < rest.len() implies !(rest[i].len() > 0
                    && is_meeting_title(rest[i])) by {
                    assert(titles[i + 1] == rest[i]);
                }
            }
        }
    }
}

} // verus!
