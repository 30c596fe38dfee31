//! The daemon control core: the canonical state machine that serializes all
//! command sources onto one microphone. Every handler is a decision
//! function: it moves the state and returns the actions — capture control,
//! collaborator calls, notifications — for the surrounding event loop to
//! perform; outcomes come back in as further events. Exactly one handler
//! runs per event, which is what keeps at most one recording session alive
//! at any time.

use vstd::prelude::*;
use vstd::string::StringExecFns;

use crate::config::{Config, WhisperMode};
use crate::messages::GuiMsg;
use crate::transcribe::{model_name_error, validate_model_name};
use crate::error::TjvoxError;
use crate::history::HistoryEntry;
use crate::messages::RecordingState;
use crate::ptt::PttEvent;
use crate::replacements::{ReplacementEngine, apply_rules_spec, filler_stripped, strip_filler_word};
use crate::socket::SocketCommand;
use crate::strutil::{
    char_prefix, chars_of, collapse_spaces, collapse_spaces_spec, prefix_spec, string_from_chars,
    trim_chars, trim_spec,
};

verus! {

#[derive(Debug, Clone, Copy, PartialEq, Eq, Structural)]
pub enum DaemonState {
    Idle,
    Recording,
    Transcribing,
    Typing,
}

impl DaemonState {
    pub open spec fn name_spec(&self) -> Seq<char> {
        match self {
            DaemonState::Idle => "idle"@,
            DaemonState::Recording => "recording"@,
            DaemonState::Transcribing => "transcribing"@,
            DaemonState::Typing => "typing"@,
        }
    }

    /// The state's name, as the socket protocol reports it.
    pub fn name(&self) -> (r: &'static str)
        ensures
            r@ == self.name_spec(),
    {
        match self {
            DaemonState::Idle => "idle",
            DaemonState::Recording => "recording",
            DaemonState::Transcribing => "transcribing",
            DaemonState::Typing => "typing",
        }
    }

    /// The state as broadcast to presentation listeners.
    pub fn recording_state(&self) -> (r: RecordingState)
        ensures
            r == self.recording_state_spec(),
    {
        match self {
            DaemonState::Idle => RecordingState::Idle,
            DaemonState::Recording => RecordingState::Recording,
            DaemonState::Transcribing => RecordingState::Transcribing,
            DaemonState::Typing => RecordingState::Typing,
        }
    }

    pub open spec fn recording_state_spec(&self) -> RecordingState {
        match self {
            DaemonState::Idle => RecordingState::Idle,
            DaemonState::Recording => RecordingState::Recording,
            DaemonState::Transcribing => RecordingState::Transcribing,
            DaemonState::Typing => RecordingState::Typing,
        }
    }
}

/// One side effect for the surrounding event loop to perform after a
/// handler has run, in the order given.
#[derive(Debug, Clone)]
pub enum Action {
    /// Open the audio graph and start the capture thread for this session.
    StartCapture { session_id: u64 },
    /// Stop the capture thread, finalize the sink, and transcribe; the
    /// outcome comes back through `handle_transcription_result`.
    StopCapture,
    /// Remove the session's capture target file.
    CleanupSession,
    /// Hand the text to the grammar-correction collaborator; the outcome
    /// comes back through `handle_correction_result`.
    RequestCorrection(String),
    /// Hand the text to the injection collaborator; the outcome comes back
    /// through `handle_injection_done`.
    Inject(String),
    /// Persist one entry with the history collaborator.
    SaveHistory(HistoryEntry),
    /// Show a notification: title, message.
    Notify(String, String),
    /// Show an error notification: title, message.
    NotifyError(String, String),
    /// Broadcast the state to presentation listeners.
    BroadcastState(RecordingState),
    BroadcastWhisperMode(WhisperMode),
    BroadcastModelChanged(String),
    BroadcastModelLoading,
    /// Load the transcription model; the outcome comes back through
    /// `handle_model_load_result`.
    LoadModel,
    UnloadModel,
    RemovePidFile,
}

pub struct Daemon {
    pub config: Config,
    pub state: DaemonState,
    pub whisper_mode: WhisperMode,
    /// The one live recording session, by its identifier; `None` exactly in
    /// `Idle`.
    pub session: Option<u64>,
    /// The next session identifier to hand out; identifiers are never
    /// reused.
    pub next_session_id: u64,
    /// Every identifier ever handed out.
    pub used_session_ids: Ghost<Set<u64>>,
    pub replacement_engine: Option<ReplacementEngine>,
    pub llm_available: bool,
    pub history_available: bool,
    pub model_loaded: bool,
    /// Text in flight: the raw transcript while a correction is pending,
    /// the processed text while injection is pending.
    pub pending_text: Option<String>,
    pub pending_duration_ms: u64,
    pub should_quit: bool,
}

/// The settings a state transition leaves alone.
pub open spec fn same_settings(a: Daemon, b: Daemon) -> bool {
    &&& a.config == b.config
    &&& a.whisper_mode == b.whisper_mode
    &&& a.replacement_engine == b.replacement_engine
    &&& a.llm_available == b.llm_available
    &&& a.history_available == b.history_available
    &&& a.model_loaded == b.model_loaded
    &&& a.should_quit == b.should_quit
}

/// The actions that open a recording session.
pub open spec fn is_start_actions(a: Seq<Action>, sid: u64) -> bool {
    &&& a.len() == 3
    &&& a[0] == Action::BroadcastState(RecordingState::Recording)
    &&& a[1] == (Action::StartCapture { session_id: sid })
    &&& (a[2] matches Action::Notify(t, m) && t@ == "TJvox"@ && m@ == "Recording..."@)
}

/// The actions that close a recording session into transcription.
pub open spec fn is_stop_actions(a: Seq<Action>) -> bool {
    &&& a.len() == 3
    &&& a[0] == Action::BroadcastState(RecordingState::Transcribing)
    &&& (a[1] matches Action::Notify(t, m) && t@ == "TJvox"@ && m@ == "Transcribing..."@)
    &&& a[2] == Action::StopCapture
}

/// The actions that surface a failure and force the daemon back to `Idle`,
/// cleaning up any partial session.
pub open spec fn is_failure_actions(a: Seq<Action>, msg: Seq<char>) -> bool {
    &&& a.len() == 3
    &&& (a[0] matches Action::NotifyError(t, m) && t@ == "TJvox"@ && m@ == msg)
    &&& a[1] == Action::CleanupSession
    &&& a[2] == Action::BroadcastState(RecordingState::Idle)
}

/// The `Idle` to `Recording` transition: a fresh session, everything else
/// untouched.
pub open spec fn start_transition(pre: Daemon, post: Daemon) -> bool {
    &&& post.state == DaemonState::Recording
    &&& post.session == Some(pre.next_session_id)
    &&& post.next_session_id == pre.next_session_id + 1
    &&& post.used_session_ids@ == pre.used_session_ids@.insert(pre.next_session_id)
    &&& post.pending_text is None
    &&& post.pending_duration_ms == pre.pending_duration_ms
    &&& same_settings(pre, post)
}

/// The `Recording` to `Transcribing` transition: the session is kept for
/// cleanup, everything else untouched.
pub open spec fn stop_transition(pre: Daemon, post: Daemon) -> bool {
    &&& post.state == DaemonState::Transcribing
    &&& post.session == pre.session
    &&& post.next_session_id == pre.next_session_id
    &&& post.used_session_ids@ == pre.used_session_ids@
    &&& post.pending_text is None
    &&& post.pending_duration_ms == pre.pending_duration_ms
    &&& same_settings(pre, post)
}

/// Any transition back to `Idle` that drops the session and the in-flight
/// text.
pub open spec fn to_idle_transition(pre: Daemon, post: Daemon) -> bool {
    &&& post.state == DaemonState::Idle
    &&& post.session is None
    &&& post.next_session_id == pre.next_session_id
    &&& post.used_session_ids@ == pre.used_session_ids@
    &&& post.pending_text is None
    &&& same_settings(pre, post)
}

impl Daemon {
    /// At most one session lives at a time: one exactly outside `Idle`,
    /// none in it; every identifier ever used is below the next one, so a
    /// fresh identifier never collides; text is in flight only while
    /// transcribing or typing, and always while typing.
    pub open spec fn wf(&self) -> bool {
        &&& (self.session is Some <==> self.state != DaemonState::Idle)
        &&& (self.pending_text is Some ==> self.state == DaemonState::Transcribing || self.state
            == DaemonState::Typing)
        &&& (self.state == DaemonState::Typing ==> self.pending_text is Some)
        &&& (forall|id: u64| self.used_session_ids@.contains(id) ==> id < self.next_session_id)
        &&& (self.session matches Some(id) ==> self.used_session_ids@.contains(id))
    }

    /// A fresh daemon in `Idle`. The replacement engine and the
    /// availability flags reflect what the surrounding program managed to
    /// set up.
    pub fn new(
        config: Config,
        replacement_engine: Option<ReplacementEngine>,
        llm_available: bool,
        history_available: bool,
    ) -> (r: Daemon)
        ensures
            r.wf(),
            r.state == DaemonState::Idle,
            r.whisper_mode == config.whisper.mode,
            r.session is None,
            r.next_session_id == 0,
            r.used_session_ids@ == Set::<u64>::empty(),
            r.config == config,
            r.replacement_engine == replacement_engine,
            r.llm_available == llm_available,
            r.history_available == history_available,
            r.model_loaded == false,
            r.pending_text is None,
            r.pending_duration_ms == 0,
            r.should_quit == false,
    {
        let whisper_mode = config.whisper.mode;
        Daemon {
            config,
            state: DaemonState::Idle,
            whisper_mode,
            session: None,
            next_session_id: 0,
            used_session_ids: Ghost(Set::empty()),
            replacement_engine,
            llm_available,
            history_available,
            model_loaded: false,
            pending_text: None,
            pending_duration_ms: 0,
            should_quit: false,
        }
    }

    /// What the daemon does right after it comes up: announce itself,
    /// pre-warm the model when running hot, and tell listeners its state,
    /// mode and model.
    pub fn startup_actions(&self) -> (r: Vec<Action>)
        ensures
            r@.len() == (if self.whisper_mode == WhisperMode::Hot {
                5int
            } else {
                4int
            }),
            (r@[0] matches Action::Notify(t, m) && t@ == "TJvox"@ && m@
                == "Daemon started. Send SIGUSR1 to toggle."@),
            self.whisper_mode == WhisperMode::Hot ==> r@[1] == Action::LoadModel,
            r@[r@.len() - 3] == Action::BroadcastState(self.state.recording_state_spec()),
            r@[r@.len() - 2] == Action::BroadcastWhisperMode(self.whisper_mode),
            (r@[r@.len() - 1] matches Action::BroadcastModelChanged(m) && m@
                == self.config.transcription.model@),
    {
        let mut r: Vec<Action> = Vec::new();
        r.push(Action::Notify(
            String::from_str("TJvox"),
            String::from_str("Daemon started. Send SIGUSR1 to toggle."),
        ));
        if self.whisper_mode == WhisperMode::Hot {
            r.push(Action::LoadModel);
        }
        r.push(Action::BroadcastState(self.state.recording_state()));
        r.push(Action::BroadcastWhisperMode(self.whisper_mode));
        r.push(Action::BroadcastModelChanged(self.config.transcription.model.clone()));
        r
    }

    /// Opens a fresh recording session: `Idle` to `Recording`, with an
    /// identifier never handed out before.
    pub fn start_recording(&mut self) -> (r: Vec<Action>)
        requires
            old(self).wf(),
            old(self).state == DaemonState::Idle,
            old(self).next_session_id < u64::MAX,
        ensures
            final(self).wf(),
            start_transition(*old(self), *final(self)),
            is_start_actions(r@, old(self).next_session_id),
            !old(self).used_session_ids@.contains(old(self).next_session_id),
    {
        let sid = self.next_session_id;
        self.state = DaemonState::Recording;
        self.session = Some(sid);
        self.next_session_id = sid + 1;
        proof {
            self.used_session_ids@ = self.used_session_ids@.insert(sid);
        }
        self.pending_text = None;
        let mut r: Vec<Action> = Vec::new();
        r.push(Action::BroadcastState(RecordingState::Recording));
        r.push(Action::StartCapture { session_id: sid });
        r.push(Action::Notify(String::from_str("TJvox"), String::from_str("Recording...")));
        r
    }

    /// Closes the live session into transcription: `Recording` to
    /// `Transcribing`. The transcript comes back through
    /// `handle_transcription_result`.
    pub fn stop_and_transcribe(&mut self) -> (r: Vec<Action>)
        requires
            old(self).wf(),
            old(self).state == DaemonState::Recording,
        ensures
            final(self).wf(),
            stop_transition(*old(self), *final(self)),
            is_stop_actions(r@),
    {
        self.state = DaemonState::Transcribing;
        self.pending_text = None;
        let mut r: Vec<Action> = Vec::new();
        r.push(Action::BroadcastState(RecordingState::Transcribing));
        r.push(Action::Notify(String::from_str("TJvox"), String::from_str("Transcribing...")));
        r.push(Action::StopCapture);
        r
    }

    /// A toggle starts a session from `Idle`, stops one from `Recording`
    /// into `Transcribing` — never back to `Recording` directly — and is
    /// ignored in every other state.
    pub fn handle_toggle(&mut self) -> (r: Vec<Action>)
        requires
            old(self).wf(),
            old(self).next_session_id < u64::MAX,
        ensures
            final(self).wf(),
            old(self).state == DaemonState::Idle ==> start_transition(*old(self), *final(self))
                && is_start_actions(r@, old(self).next_session_id),
            old(self).state == DaemonState::Recording ==> stop_transition(
                *old(self),
                *final(self),
            ) && is_stop_actions(r@),
            old(self).state == DaemonState::Transcribing || old(self).state == DaemonState::Typing
                ==> *final(self) == *old(self) && r@.len() == 0,
    {
        match self.state {
            DaemonState::Idle => self.start_recording(),
            DaemonState::Recording => self.stop_and_transcribe(),
            _ => Vec::new(),
        }
    }

    /// Push-to-talk start: only meaningful in `Idle`; while a session is
    /// already live, nothing changes and no new session comes to be.
    pub fn handle_push_start(&mut self) -> (r: Vec<Action>)
        requires
            old(self).wf(),
            old(self).next_session_id < u64::MAX,
        ensures
            final(self).wf(),
            old(self).state == DaemonState::Idle ==> start_transition(*old(self), *final(self))
                && is_start_actions(r@, old(self).next_session_id),
            old(self).state != DaemonState::Idle ==> *final(self) == *old(self) && r@.len() == 0,
    {
        match self.state {
            DaemonState::Idle => self.start_recording(),
            _ => Vec::new(),
        }
    }

    /// Push-to-talk stop: only meaningful in `Recording`; in `Idle` and
    /// everywhere else, nothing changes.
    pub fn handle_push_stop(&mut self) -> (r: Vec<Action>)
        requires
            old(self).wf(),
        ensures
            final(self).wf(),
            old(self).state == DaemonState::Recording ==> stop_transition(
                *old(self),
                *final(self),
            ) && is_stop_actions(r@),
            old(self).state != DaemonState::Recording ==> *final(self) == *old(self) && r@.len()
                == 0,
    {
        match self.state {
            DaemonState::Recording => self.stop_and_transcribe(),
            _ => Vec::new(),
        }
    }

    /// The capture engine could not be started: surface the error, clean up
    /// the partial session, and return to `Idle`, ready to retry. Reported
    /// failures outside `Recording` change nothing.
    pub fn handle_capture_failed(&mut self, error: &TjvoxError) -> (r: Vec<Action>)
        requires
            old(self).wf(),
        ensures
            final(self).wf(),
            old(self).state == DaemonState::Recording ==> to_idle_transition(
                *old(self),
                *final(self),
            ) && is_failure_actions(r@, error.message_spec()),
            old(self).state != DaemonState::Recording ==> *final(self) == *old(self) && r@.len()
                == 0,
    {
        match self.state {
            DaemonState::Recording => {
                self.state = DaemonState::Idle;
                self.session = None;
                self.pending_text = None;
                let mut r: Vec<Action> = Vec::new();
                r.push(Action::NotifyError(String::from_str("TJvox"), error.message()));
                r.push(Action::CleanupSession);
                r.push(Action::BroadcastState(RecordingState::Idle));
                r
            },
            _ => Vec::new(),
        }
    }
}

/// The filler words blotted out of transcripts, in the order tried.
pub open spec fn fillers() -> Seq<Seq<char>> {
    seq!["uh"@, "um"@, "hmm"@, "like"@, "you know"@]
}

/// The text after the fillers from position `i` on have been stripped.
pub open spec fn strip_fillers_from(t: Seq<char>, i: int) -> Seq<char>
    decreases 5 - i,
{
    if i < 0 || i >= 5 {
        t
    } else {
        strip_fillers_from(filler_stripped(t, fillers()[i]), i + 1)
    }
}

/// The whole transcript post-processing: the replacement rules first, then
/// — when configured — filler removal with whitespace collapsing and
/// trimming, then the optional trailing space on non-empty text.
pub open spec fn post_process_spec(d: Daemon, t: Seq<char>) -> Seq<char> {
    let t1 = match d.replacement_engine {
        Some(e) => apply_rules_spec(e.rules.deep_view(), t),
        None => t,
    };
    let t2 = if d.config.transcription.remove_filler_words {
        trim_spec(collapse_spaces_spec(strip_fillers_from(t1, 0)))
    } else {
        t1
    };
    if d.config.output.append_trailing_space && t2.len() > 0 {
        t2.push(' ')
    } else {
        t2
    }
}

/// A notification with the daemon's title.
pub open spec fn is_notify(x: Action, m: Seq<char>) -> bool {
    x matches Action::Notify(t, mm) && t@ == "TJvox"@ && mm@ == m
}

/// The actions that close an empty-transcript session: tell the user, clean
/// up, unload the model when running cold, and report `Idle`. No injection
/// and no history entry.
pub open spec fn is_empty_finish_actions(a: Seq<Action>, cold: bool) -> bool {
    if cold {
        &&& a.len() == 5
        &&& is_notify(a[0], "No speech detected"@)
        &&& a[1] == Action::CleanupSession
        &&& a[2] == Action::UnloadModel
        &&& a[3] == Action::BroadcastState(RecordingState::Idle)
        &&& is_notify(a[4], "Ready"@)
    } else {
        &&& a.len() == 4
        &&& is_notify(a[0], "No speech detected"@)
        &&& a[1] == Action::CleanupSession
        &&& a[2] == Action::BroadcastState(RecordingState::Idle)
        &&& is_notify(a[3], "Ready"@)
    }
}

/// The `Transcribing` to `Idle` transition for an empty transcript: the
/// session ends without injection or history; a cold daemon lets go of the
/// model.
pub open spec fn empty_finish(pre: Daemon, post: Daemon, a: Seq<Action>) -> bool {
    &&& post.state == DaemonState::Idle
    &&& post.session is None
    &&& post.pending_text is None
    &&& post.next_session_id == pre.next_session_id
    &&& post.used_session_ids@ == pre.used_session_ids@
    &&& post.config == pre.config
    &&& post.whisper_mode == pre.whisper_mode
    &&& post.replacement_engine == pre.replacement_engine
    &&& post.llm_available == pre.llm_available
    &&& post.history_available == pre.history_available
    &&& post.should_quit == pre.should_quit
    &&& post.model_loaded == (pre.model_loaded && pre.whisper_mode != WhisperMode::Cold)
    &&& is_empty_finish_actions(a, pre.whisper_mode == WhisperMode::Cold)
    &&& forall|i: int| 0 <= i < a.len() ==> !(#[trigger] a[i] is Inject) && !(a[i] is SaveHistory)
}

/// The `Transcribing` to `Typing` transition: the processed text goes to
/// the injection collaborator and is kept for the history entry.
pub open spec fn typing_transition(
    pre: Daemon,
    post: Daemon,
    a: Seq<Action>,
    processed: Seq<char>,
) -> bool {
    &&& post.state == DaemonState::Typing
    &&& post.session == pre.session
    &&& post.next_session_id == pre.next_session_id
    &&& post.used_session_ids@ == pre.used_session_ids@
    &&& (post.pending_text matches Some(p) && p@ == processed)
    &&& post.pending_duration_ms == pre.pending_duration_ms
    &&& same_settings(pre, post)
    &&& a.len() == 2
    &&& a[0] == Action::BroadcastState(RecordingState::Typing)
    &&& (a[1] matches Action::Inject(t) && t@ == processed)
}

/// The actions that close a typed-out session: the "Typed:" notice with at
/// most the first fifty characters, the history entry when the store is
/// there, cleanup, the cold-mode unload, and the return to `Idle`.
pub open spec fn is_injected_actions(a: Seq<Action>, pre: Daemon) -> bool {
    let text = pre.pending_text.unwrap()@;
    let hist: int = if pre.history_available {
        1
    } else {
        0
    };
    let cold: int = if pre.whisper_mode == WhisperMode::Cold {
        1
    } else {
        0
    };
    &&& a.len() == 4 + hist + cold
    &&& (a[0] matches Action::Notify(t, m) && t@ == "TJvox"@ && m@ == "Typed: "@ + prefix_spec(
        text,
        50,
    ))
    &&& (pre.history_available ==> (a[1] matches Action::SaveHistory(e) && e.id == 0
        && e.timestamp@ == Seq::<char>::empty() && e.duration_ms == pre.pending_duration_ms
        && e.text@ == text && e.model@ == pre.config.transcription.model@ && e.language@ == (
    match pre.config.transcription.language {
        Some(l) => l@,
        None => Seq::<char>::empty(),
    })))
    &&& a[1 + hist] == Action::CleanupSession
    &&& (pre.whisper_mode == WhisperMode::Cold ==> a[2 + hist] == Action::UnloadModel)
    &&& a[2 + hist + cold] == Action::BroadcastState(RecordingState::Idle)
    &&& is_notify(a[3 + hist + cold], "Ready"@)
}

/// The `Typing` to `Idle` transition after a successful injection.
pub open spec fn injected_transition(pre: Daemon, post: Daemon, a: Seq<Action>) -> bool {
    &&& post.state == DaemonState::Idle
    &&& post.session is None
    &&& post.pending_text is None
    &&& post.next_session_id == pre.next_session_id
    &&& post.used_session_ids@ == pre.used_session_ids@
    &&& post.config == pre.config
    &&& post.whisper_mode == pre.whisper_mode
    &&& post.replacement_engine == pre.replacement_engine
    &&& post.llm_available == pre.llm_available
    &&& post.history_available == pre.history_available
    &&& post.should_quit == pre.should_quit
    &&& post.model_loaded == (pre.model_loaded && pre.whisper_mode != WhisperMode::Cold)
    &&& is_injected_actions(a, pre)
}

impl Daemon {
    /// Runs the transcript through the post-processing pipeline:
    /// replacement rules, then — when configured — whole-word filler
    /// removal with whitespace collapsing and trimming, then the optional
    /// trailing space. Empty text passes through empty.
    pub fn post_process(&self, text: &str) -> (r: String)
        ensures
            r@ == post_process_spec(*self, text@),
            text@.len() == 0 ==> r@.len() == 0,
    {
        let mut cur: String = match &self.replacement_engine {
            Some(e) => e.apply(text),
            None => text.to_owned(),
        };
        let ghost t1 = cur@;
        if self.config.transcription.remove_filler_words {
            let words: Vec<&str> = vec!["uh", "um", "hmm", "like", "you know"];
            proof {
                assert(words@[0]@ == fillers()[0]);
                assert(words@[1]@ == fillers()[1]);
                assert(words@[2]@ == fillers()[2]);
                assert(words@[3]@ == fillers()[3]);
                assert(words@[4]@ == fillers()[4]);
            }
            for i in 0..5usize
                invariant
                    words@.len() == 5,
                    forall|j: int| 0 <= j < 5 ==> #[trigger] words@[j]@ == fillers()[j],
                    strip_fillers_from(cur@, i as int) == strip_fillers_from(t1, 0),
                    t1.len() == 0 ==> cur@ == t1,
            {
                let next = strip_filler_word(cur.as_str(), words[i]);
                cur = next;
            }
            let v = chars_of(cur.as_str());
            let collapsed = collapse_spaces(&v);
            let trimmed = trim_chars(&collapsed);
            cur = string_from_chars(&trimmed);
            proof {
                if t1.len() == 0 {
                    assert(collapse_spaces_spec(Seq::<char>::empty()) =~= Seq::<char>::empty());
                    assert(trim_spec(Seq::<char>::empty()) =~= Seq::<char>::empty());
                }
            }
        }
        if self.config.output.append_trailing_space && cur.as_str().unicode_len() > 0 {
            let with_space = cur.concat(" ");
            proof {
                reveal_strlit(" ");
                assert(with_space@ =~= cur@.push(' '));
            }
            cur = with_space;
        }
        cur
    }

    /// Decides what becomes of a finished, corrected transcript: an empty
    /// one ends the session quietly; anything else goes to the injection
    /// collaborator.
    fn finish_text(&mut self, base: String) -> (r: Vec<Action>)
        requires
            old(self).wf(),
            old(self).state == DaemonState::Transcribing,
        ensures
            final(self).wf(),
            trim_spec(post_process_spec(*old(self), base@)).len() == 0 ==> empty_finish(
                *old(self),
                *final(self),
                r@,
            ),
            trim_spec(post_process_spec(*old(self), base@)).len() > 0 ==> typing_transition(
                *old(self),
                *final(self),
                r@,
                post_process_spec(*old(self), base@),
            ),
    {
        let processed = self.post_process(base.as_str());
        let pv = chars_of(processed.as_str());
        let tv = trim_chars(&pv);
        if tv.len() == 0 {
            self.state = DaemonState::Idle;
            self.session = None;
            self.pending_text = None;
            if self.whisper_mode == WhisperMode::Cold {
                self.model_loaded = false;
            }
            let mut r: Vec<Action> = Vec::new();
            r.push(Action::Notify(
                String::from_str("TJvox"),
                String::from_str("No speech detected"),
            ));
            r.push(Action::CleanupSession);
            if self.whisper_mode == WhisperMode::Cold {
                r.push(Action::UnloadModel);
            }
            r.push(Action::BroadcastState(RecordingState::Idle));
            r.push(Action::Notify(String::from_str("TJvox"), String::from_str("Ready")));
            r
        } else {
            self.state = DaemonState::Typing;
            self.pending_text = Some(processed.clone());
            let mut r: Vec<Action> = Vec::new();
            r.push(Action::BroadcastState(RecordingState::Typing));
            r.push(Action::Inject(processed));
            r
        }
    }

    /// Takes the transcription collaborator's outcome. A failure surfaces
    /// and the daemon returns to `Idle`; an empty transcript ends the
    /// session with no injection and no history entry; text goes on to the
    /// grammar-correction collaborator when one is attached, else straight
    /// to injection. Outcomes reported outside `Transcribing` change
    /// nothing.
    pub fn handle_transcription_result(
        &mut self,
        result: Result<String, TjvoxError>,
        duration_ms: u64,
    ) -> (r: Vec<Action>)
        requires
            old(self).wf(),
        ensures
            final(self).wf(),
            old(self).state != DaemonState::Transcribing ==> *final(self) == *old(self) && r@.len()
                == 0,
            old(self).state == DaemonState::Transcribing ==> match result {
                Err(e) => to_idle_transition(*old(self), *final(self)) && is_failure_actions(
                    r@,
                    e.message_spec(),
                ),
                Ok(raw) => {
                    let pre = Daemon { pending_duration_ms: duration_ms, ..*old(self) };
                    if old(self).llm_available {
                        &&& final(self).state == DaemonState::Transcribing
                        &&& (final(self).pending_text matches Some(p) && p@ == raw@)
                        &&& final(self).pending_duration_ms == duration_ms
                        &&& final(self).session == old(self).session
                        &&& same_settings(*old(self), *final(self))
                        &&& r@.len() == 1
                        &&& (r@[0] matches Action::RequestCorrection(t) && t@ == raw@)
                    } else {
                        if trim_spec(post_process_spec(pre, raw@)).len() == 0 {
                            empty_finish(pre, *final(self), r@)
                        } else {
                            typing_transition(pre, *final(self), r@, post_process_spec(pre, raw@))
                        }
                    }
                },
            },
    {
        if !matches!(self.state, DaemonState::Transcribing) {
            return Vec::new();
        }
        match result {
            Err(e) => {
                self.state = DaemonState::Idle;
                self.session = None;
                self.pending_text = None;
                let mut r: Vec<Action> = Vec::new();
                r.push(Action::NotifyError(String::from_str("TJvox"), e.message()));
                r.push(Action::CleanupSession);
                r.push(Action::BroadcastState(RecordingState::Idle));
                r
            },
            Ok(raw) => {
                self.pending_duration_ms = duration_ms;
                if self.llm_available {
                    self.pending_text = Some(raw.clone());
                    let mut r: Vec<Action> = Vec::new();
                    r.push(Action::RequestCorrection(raw));
                    r
                } else {
                    self.finish_text(raw)
                }
            },
        }
    }

    /// Takes the grammar-correction collaborator's outcome. Its failure is
    /// non-fatal: the uncorrected transcript goes on instead. Outcomes
    /// reported without a pending correction change nothing.
    pub fn handle_correction_result(&mut self, result: Result<String, TjvoxError>) -> (r: Vec<
        Action,
    >)
        requires
            old(self).wf(),
        ensures
            final(self).wf(),
            !(old(self).state == DaemonState::Transcribing && old(self).pending_text is Some)
                ==> *final(self) == *old(self) && r@.len() == 0,
            old(self).state == DaemonState::Transcribing ==> (old(self).pending_text matches Some(
                raw,
            ) ==> {
                let base = match result {
                    Ok(c) => c@,
                    Err(_) => raw@,
                };
                let pre = Daemon { pending_text: None, ..*old(self) };
                if trim_spec(post_process_spec(pre, base)).len() == 0 {
                    empty_finish(pre, *final(self), r@)
                } else {
                    typing_transition(pre, *final(self), r@, post_process_spec(pre, base))
                }
            }),
    {
        if !matches!(self.state, DaemonState::Transcribing) {
            return Vec::new();
        }
        let raw = match &self.pending_text {
            Some(s) => s.clone(),
            None => {
                return Vec::new();
            },
        };
        self.pending_text = None;
        let base = match result {
            Ok(c) => c,
            Err(_) => raw,
        };
        self.finish_text(base)
    }

    /// Takes the injection collaborator's outcome: on success the text is
    /// announced, saved to history when a store is attached, and the
    /// session closes; on failure the error surfaces and the session is
    /// cleaned up. Outcomes reported outside `Typing` change nothing.
    pub fn handle_injection_done(&mut self, result: Result<(), TjvoxError>) -> (r: Vec<Action>)
        requires
            old(self).wf(),
        ensures
            final(self).wf(),
            old(self).state != DaemonState::Typing ==> *final(self) == *old(self) && r@.len() == 0,
            old(self).state == DaemonState::Typing ==> match result {
                Ok(_) => injected_transition(*old(self), *final(self), r@),
                Err(e) => to_idle_transition(*old(self), *final(self)) && is_failure_actions(
                    r@,
                    e.message_spec(),
                ),
            },
    {
        if !matches!(self.state, DaemonState::Typing) {
            return Vec::new();
        }
        let text = match &self.pending_text {
            Some(s) => s.clone(),
            None => {
                return Vec::new();
            },
        };
        match result {
            Ok(_) => {
                self.state = DaemonState::Idle;
                self.session = None;
                self.pending_text = None;
                if self.whisper_mode == WhisperMode::Cold {
                    self.model_loaded = false;
                }
                let mut r: Vec<Action> = Vec::new();
                let prefix = char_prefix(text.as_str(), 50);
                r.push(Action::Notify(
                    String::from_str("TJvox"),
                    String::from_str("Typed: ").concat(prefix.as_str()),
                ));
                if self.history_available {
                    let language = match &self.config.transcription.language {
                        Some(l) => l.clone(),
                        None => String::new(),
                    };
                    r.push(Action::SaveHistory(HistoryEntry {
                        id: 0,
                        timestamp: String::new(),
                        duration_ms: self.pending_duration_ms,
                        text: text.clone(),
                        model: self.config.transcription.model.clone(),
                        language,
                    }));
                }
                r.push(Action::CleanupSession);
                if self.whisper_mode == WhisperMode::Cold {
                    r.push(Action::UnloadModel);
                }
                r.push(Action::BroadcastState(RecordingState::Idle));
                r.push(Action::Notify(String::from_str("TJvox"), String::from_str("Ready")));
                r
            },
            Err(e) => {
                self.state = DaemonState::Idle;
                self.session = None;
                self.pending_text = None;
                let mut r: Vec<Action> = Vec::new();
                r.push(Action::NotifyError(String::from_str("TJvox"), e.message()));
                r.push(Action::CleanupSession);
                r.push(Action::BroadcastState(RecordingState::Idle));
                r
            },
        }
    }

    /// One socket command: handled like its signal twin, answered with one
    /// `ok:` line naming the state the daemon is then in. `status` asks and
    /// changes nothing; `quit` asks the loop to wind down once the daemon
    /// is next idle.
    pub fn handle_socket_command(&mut self, cmd: &SocketCommand) -> (r: (String, Vec<Action>))
        requires
            old(self).wf(),
            old(self).next_session_id < u64::MAX,
        ensures
            final(self).wf(),
            cmd == SocketCommand::Status ==> *final(self) == *old(self) && r.1@.len() == 0,
            cmd == SocketCommand::Quit ==> final(self).should_quit == true
                && final(self).state == old(self).state
                && final(self).session == old(self).session
                && final(self).pending_text == old(self).pending_text
                && r.1@.len() == 0 && r.0@ == "ok: quitting"@,
            cmd != SocketCommand::Quit ==> r.0@ == "ok: "@ + final(self).state.name_spec(),
            cmd == SocketCommand::Toggle && old(self).state == DaemonState::Idle
                ==> start_transition(*old(self), *final(self)) && is_start_actions(
                r.1@,
                old(self).next_session_id,
            ),
            cmd == SocketCommand::Toggle && old(self).state == DaemonState::Recording
                ==> stop_transition(*old(self), *final(self)) && is_stop_actions(r.1@),
            cmd == SocketCommand::Toggle && (old(self).state == DaemonState::Transcribing || old(
                self,
            ).state == DaemonState::Typing) ==> *final(self) == *old(self) && r.1@.len() == 0,
            cmd == SocketCommand::PushStart && old(self).state == DaemonState::Idle
                ==> start_transition(*old(self), *final(self)) && is_start_actions(
                r.1@,
                old(self).next_session_id,
            ),
            cmd == SocketCommand::PushStart && old(self).state != DaemonState::Idle
                ==> *final(self) == *old(self) && r.1@.len() == 0,
            cmd == SocketCommand::PushStop && old(self).state == DaemonState::Recording
                ==> stop_transition(*old(self), *final(self)) && is_stop_actions(r.1@),
            cmd == SocketCommand::PushStop && old(self).state != DaemonState::Recording
                ==> *final(self) == *old(self) && r.1@.len() == 0,
    {
        match cmd {
            SocketCommand::Toggle => {
                let actions = self.handle_toggle();
                (String::from_str("ok: ").concat(self.state.name()), actions)
            },
            SocketCommand::PushStart => {
                let actions = self.handle_push_start();
                (String::from_str("ok: ").concat(self.state.name()), actions)
            },
            SocketCommand::PushStop => {
                let actions = self.handle_push_stop();
                (String::from_str("ok: ").concat(self.state.name()), actions)
            },
            SocketCommand::Status => (
                String::from_str("ok: ").concat(self.state.name()),
                Vec::new(),
            ),
            SocketCommand::Quit => {
                self.should_quit = true;
                (String::from_str("ok: quitting"), Vec::new())
            },
        }
    }

    /// The actions of a whisper-mode switch: going hot loads the model if
    /// it is not resident; going cold lets go of it, but only while idle;
    /// listeners hear of the new mode either way.
    pub open spec fn mode_switch_actions(pre: Daemon, mode: WhisperMode, a: Seq<Action>) -> bool {
        if mode == WhisperMode::Hot && !pre.model_loaded {
            &&& a.len() == 3
            &&& a[0] == Action::BroadcastModelLoading
            &&& a[1] == Action::LoadModel
            &&& a[2] == Action::BroadcastWhisperMode(WhisperMode::Hot)
        } else if mode == WhisperMode::Cold && pre.state == DaemonState::Idle {
            &&& a.len() == 2
            &&& a[0] == Action::UnloadModel
            &&& a[1] == Action::BroadcastWhisperMode(WhisperMode::Cold)
        } else {
            &&& a.len() == 1
            &&& a[0] == Action::BroadcastWhisperMode(mode)
        }
    }

    /// Switches between keeping the model resident (hot) and loading it on
    /// demand (cold). A cold switch during a session defers the unload to
    /// the session's end.
    pub fn set_whisper_mode(&mut self, mode: WhisperMode) -> (r: Vec<Action>)
        requires
            old(self).wf(),
        ensures
            final(self).wf(),
            final(self).whisper_mode == mode,
            final(self).model_loaded == (if mode == WhisperMode::Cold && old(self).state
                == DaemonState::Idle {
                false
            } else {
                old(self).model_loaded
            }),
            final(self).state == old(self).state,
            final(self).session == old(self).session,
            final(self).pending_text == old(self).pending_text,
            final(self).next_session_id == old(self).next_session_id,
            final(self).used_session_ids@ == old(self).used_session_ids@,
            final(self).config == old(self).config,
            final(self).replacement_engine == old(self).replacement_engine,
            final(self).llm_available == old(self).llm_available,
            final(self).history_available == old(self).history_available,
            final(self).should_quit == old(self).should_quit,
            Self::mode_switch_actions(*old(self), mode, r@),
    {
        self.whisper_mode = mode;
        let mut r: Vec<Action> = Vec::new();
        match mode {
            WhisperMode::Hot => {
                if !self.model_loaded {
                    r.push(Action::BroadcastModelLoading);
                    r.push(Action::LoadModel);
                }
            },
            WhisperMode::Cold => {
                if matches!(self.state, DaemonState::Idle) {
                    self.model_loaded = false;
                    r.push(Action::UnloadModel);
                }
            },
        }
        r.push(Action::BroadcastWhisperMode(mode));
        r
    }

    /// The actions of a model switch: listeners see the load begin, the old
    /// model is let go, a hot daemon loads the new one — unless the name is
    /// rejected, which surfaces as an error — and listeners hear the new
    /// name.
    pub open spec fn model_switch_actions(pre: Daemon, model: Seq<char>, a: Seq<Action>) -> bool {
        let valid = model_name_error(model) is None;
        let hot: int = if valid && pre.whisper_mode == WhisperMode::Hot {
            1
        } else {
            0
        };
        let invalid: int = if valid {
            0
        } else {
            1
        };
        &&& a.len() == 3 + hot + invalid
        &&& a[0] == Action::BroadcastModelLoading
        &&& a[1] == Action::UnloadModel
        &&& (valid && pre.whisper_mode == WhisperMode::Hot ==> a[2] == Action::LoadModel)
        &&& (!valid ==> (a[2] matches Action::NotifyError(t, m) && t@ == "TJvox"@ && m@
            == "Configuration error: "@ + model_name_error(model).unwrap()))
        &&& (a[2 + hot + invalid] matches Action::BroadcastModelChanged(mm) && mm@ == model)
    }

    /// Switches the transcription model. Asking for the model already
    /// configured does nothing; otherwise the old model is dropped, the
    /// name is validated, and a hot daemon loads the new model at once.
    pub fn set_model(&mut self, model: String) -> (r: Vec<Action>)
        requires
            old(self).wf(),
        ensures
            final(self).wf(),
            model@ == old(self).config.transcription.model@ ==> *final(self) == *old(self)
                && r@.len() == 0,
            model@ != old(self).config.transcription.model@ ==> {
                &&& final(self).config.transcription.model@ == model@
                &&& final(self).model_loaded == false
                &&& final(self).state == old(self).state
                &&& final(self).session == old(self).session
                &&& final(self).pending_text == old(self).pending_text
                &&& final(self).whisper_mode == old(self).whisper_mode
                &&& final(self).should_quit == old(self).should_quit
                &&& Self::model_switch_actions(*old(self), model@, r@)
            },
    {
        if self.config.transcription.model == model {
            return Vec::new();
        }
        self.model_loaded = false;
        self.config.transcription.model = model.clone();
        let mut r: Vec<Action> = Vec::new();
        r.push(Action::BroadcastModelLoading);
        r.push(Action::UnloadModel);
        match validate_model_name(model.as_str()) {
            Ok(_) => {
                if matches!(self.whisper_mode, WhisperMode::Hot) {
                    r.push(Action::LoadModel);
                }
            },
            Err(e) => {
                r.push(Action::NotifyError(String::from_str("TJvox"), e.message()));
            },
        }
        r.push(Action::BroadcastModelChanged(model));
        r
    }

    /// Records whether the load the daemon asked for succeeded.
    pub fn handle_model_load_result(&mut self, ok: bool)
        ensures
            *final(self) == (Daemon { model_loaded: ok, ..*old(self) }),
    {
        self.model_loaded = ok;
    }

    /// One message from an attached user interface.
    pub fn handle_gui_msg(&mut self, msg: GuiMsg) -> (r: Vec<Action>)
        requires
            old(self).wf(),
            old(self).next_session_id < u64::MAX,
        ensures
            final(self).wf(),
            msg is Quit ==> final(self).should_quit == true && final(self).state == old(
                self,
            ).state && r@.len() == 0,
            msg is ToggleRecording && old(self).state == DaemonState::Idle ==> start_transition(
                *old(self),
                *final(self),
            ) && is_start_actions(r@, old(self).next_session_id),
            msg is ToggleRecording && old(self).state == DaemonState::Recording
                ==> stop_transition(*old(self), *final(self)) && is_stop_actions(r@),
            msg is ToggleRecording && (old(self).state == DaemonState::Transcribing || old(
                self,
            ).state == DaemonState::Typing) ==> *final(self) == *old(self) && r@.len() == 0,
            msg matches GuiMsg::SetWhisperMode(m) ==> final(self).whisper_mode == m
                && Self::mode_switch_actions(*old(self), m, r@),
            msg matches GuiMsg::SetModel(m) ==> (m@ == old(self).config.transcription.model@
                ==> *final(self) == *old(self) && r@.len() == 0) && (m@ != old(
                self,
            ).config.transcription.model@ ==> final(self).config.transcription.model@ == m@
                && final(self).model_loaded == false && Self::model_switch_actions(
                *old(self),
                m@,
                r@,
            )),
    {
        match msg {
            GuiMsg::ToggleRecording => self.handle_toggle(),
            GuiMsg::SetWhisperMode(mode) => self.set_whisper_mode(mode),
            GuiMsg::SetModel(model) => self.set_model(model),
            GuiMsg::Quit => {
                self.should_quit = true;
                Vec::new()
            },
        }
    }

    /// One hardware push-to-talk event: key down starts, key up stops.
    pub fn handle_ptt_event(&mut self, evt: PttEvent) -> (r: Vec<Action>)
        requires
            old(self).wf(),
            old(self).next_session_id < u64::MAX,
        ensures
            final(self).wf(),
            evt == PttEvent::KeyDown && old(self).state == DaemonState::Idle ==> start_transition(
                *old(self),
                *final(self),
            ) && is_start_actions(r@, old(self).next_session_id),
            evt == PttEvent::KeyDown && old(self).state != DaemonState::Idle ==> *final(self)
                == *old(self) && r@.len() == 0,
            evt == PttEvent::KeyUp && old(self).state == DaemonState::Recording
                ==> stop_transition(*old(self), *final(self)) && is_stop_actions(r@),
            evt == PttEvent::KeyUp && old(self).state != DaemonState::Recording ==> *final(self)
                == *old(self) && r@.len() == 0,
    {
        match evt {
            PttEvent::KeyDown => self.handle_push_start(),
            PttEvent::KeyUp => self.handle_push_stop(),
        }
    }

    /// Orderly shutdown: stop and clean up any live session, let go of the
    /// model, and remove the process identity file, leaving the loop free
    /// to exit.
    pub fn shutdown(&mut self) -> (r: Vec<Action>)
        requires
            old(self).wf(),
        ensures
            final(self).wf(),
            final(self).state == DaemonState::Idle,
            final(self).session is None,
            final(self).pending_text is None,
            final(self).should_quit == true,
            final(self).model_loaded == false,
            final(self).next_session_id == old(self).next_session_id,
            final(self).used_session_ids@ == old(self).used_session_ids@,
            final(self).config == old(self).config,
            old(self).session is Some ==> r@ =~= seq![
                Action::StopCapture,
                Action::CleanupSession,
                Action::UnloadModel,
                Action::RemovePidFile,
            ],
            old(self).session is None ==> r@ =~= seq![Action::UnloadModel, Action::RemovePidFile],
    {
        let mut r: Vec<Action> = Vec::new();
        if self.session.is_some() {
            r.push(Action::StopCapture);
            r.push(Action::CleanupSession);
        }
        self.state = DaemonState::Idle;
        self.session = None;
        self.pending_text = None;
        self.should_quit = true;
        self.model_loaded = false;
        r.push(Action::UnloadModel);
        r.push(Action::RemovePidFile);
        r
    }
}

} // verus!
