use vstd::prelude::*;

use crate::chat_type::ComposeError;
use crate::models::{ChatMessage, NewMessageRequest};
use crate::transport::ErrorMessage;

verus! {

/// Seconds between the end of one fetch and the next automatic one.
pub const REFRESH_TIME_SEC: u64 = 3;

/// Seconds to wait after a message was sent before fetching, so that the
/// server has stored it.
pub const SETTLE_TIME_SEC: u64 = 1;

/// An event delivered to the chat box.
pub enum Msg {
    /// Nothing to do.
    Nothing,
    /// A fetch finished, with the server's messages or the reason it failed.
    SetFetchState(Result<Vec<ChatMessage>, ErrorMessage>),
    /// A fetch was asked for: manual refresh, start-up, or the settle delay
    /// after a send ran out.
    GetMessages,
    /// The refresh timer fired.
    RefreshDue,
    /// The compose form was submitted, and read into a request or not.
    SubmitMessage(Result<NewMessageRequest, ComposeError>),
    /// A send finished.
    MessageSent(Result<(), ErrorMessage>),
    /// The auto-refresh switch was flipped.
    ToggleRefresh,
}

/// What the user controls.
#[derive(Clone, Copy, Debug, PartialEq, Eq)]
pub struct State {
    pub refresh_enabled: bool,
}

/// The last completed fetch: the messages in server order, or the error.
/// Each completed fetch replaces it whole.
#[derive(Debug, PartialEq, Eq)]
pub enum FetchState {
    Success(Vec<ChatMessage>),
    Error(ErrorMessage),
}

/// The delays the chat box asks for, in seconds.
#[derive(Clone, Copy, Debug, PartialEq, Eq)]
pub struct Timing {
    pub refresh_secs: u64,
    pub settle_secs: u64,
}

/// The work an event asks of the surrounding program, to be done after it.
#[derive(Debug, PartialEq, Eq)]
pub struct Effects {
    /// Start a fetch now; its result comes back as `SetFetchState`.
    pub fetch: bool,
    /// Arm the refresh timer: deliver `RefreshDue` after this many seconds.
    pub refresh_after: Option<u64>,
    /// Send this message; its result comes back as `MessageSent`.
    pub send: Option<NewMessageRequest>,
    /// Deliver `GetMessages` after this many seconds.
    pub fetch_after: Option<u64>,
    /// Report this compose failure for diagnosis.
    pub report: Option<ComposeError>,
    /// The display changed.
    pub render: bool,
}

/// The flags of the chat box that decide its scheduling.
pub struct SyncFlags {
    /// A fetch is in flight.
    pub fetching: bool,
    /// Auto-refresh is on.
    pub enabled: bool,
    /// A refresh timer is armed.
    pub pending: bool,
}

/// The kind of an event, as far as scheduling goes.
pub enum Event {
    Nothing,
    FetchCompleted,
    RequestFetch,
    RefreshDue,
    Submit,
    SendSucceeded,
    SendFailed,
    Toggle,
}

/// What scheduling an event asks for.
pub struct Schedule {
    pub fetch_now: bool,
    pub arm_refresh: bool,
    pub fetch_after_settle: bool,
}

/// Nothing scheduled.
pub open spec fn no_schedule() -> Schedule {
    Schedule { fetch_now: false, arm_refresh: false, fetch_after_settle: false }
}

/// Starts a fetch unless one is in flight.
pub open spec fn request_fetch(f: SyncFlags) -> (SyncFlags, Schedule) {
    if f.fetching {
        (f, no_schedule())
    } else {
        (
            SyncFlags { fetching: true, pending: false, ..f },
            Schedule { fetch_now: true, ..no_schedule() },
        )
    }
}

/// Arms the refresh timer where auto-refresh is on and none is armed.
pub open spec fn arm_if_idle(f: SyncFlags) -> (SyncFlags, Schedule) {
    if f.enabled && !f.pending {
        (SyncFlags { pending: true, ..f }, Schedule { arm_refresh: true, ..no_schedule() })
    } else {
        (f, no_schedule())
    }
}

/// How the scheduling flags move on event `e`, and what it schedules.
pub open spec fn step(f: SyncFlags, e: Event) -> (SyncFlags, Schedule) {
    match e {
        Event::RequestFetch => request_fetch(f),
        Event::RefreshDue => request_fetch(SyncFlags { pending: false, ..f }),
        Event::FetchCompleted => arm_if_idle(SyncFlags { fetching: false, ..f }),
        Event::Toggle => arm_if_idle(SyncFlags { enabled: !f.enabled, ..f }),
        Event::SendSucceeded => (f, Schedule { fetch_after_settle: true, ..no_schedule() }),
        _ => (f, no_schedule()),
    }
}

/// The kind of a message.
pub open spec fn event_of(m: &Msg) -> Event {
    match m {
        Msg::Nothing => Event::Nothing,
        Msg::SetFetchState(_) => Event::FetchCompleted,
        Msg::GetMessages => Event::RequestFetch,
        Msg::RefreshDue => Event::RefreshDue,
        Msg::SubmitMessage(_) => Event::Submit,
        Msg::MessageSent(Ok(_)) => Event::SendSucceeded,
        Msg::MessageSent(Err(_)) => Event::SendFailed,
        Msg::ToggleRefresh => Event::Toggle,
    }
}

/// The snapshot after message `m` on snapshot `s`: a completed fetch replaces
/// it with its result, a failed send with its error; nothing else touches it.
pub open spec fn next_fetch_state(s: FetchState, m: Msg) -> FetchState {
    match m {
        Msg::SetFetchState(Ok(v)) => FetchState::Success(v),
        Msg::SetFetchState(Err(e)) => FetchState::Error(e),
        Msg::MessageSent(Err(e)) => FetchState::Error(e),
        _ => s,
    }
}

/// The chat box: the synchronisation state machine between the server's log
/// and what the viewer sees.
pub struct ChatBoxComponent {
    state: State,
    fetch_state: FetchState,
    fetch_queued: bool,
    fetching: bool,
    timing: Timing,
}

impl ChatBoxComponent {
    /// The scheduling flags.
    pub closed spec fn flags(&self) -> SyncFlags {
        SyncFlags {
            fetching: self.fetching,
            enabled: self.state.refresh_enabled,
            pending: self.fetch_queued,
        }
    }

    /// The snapshot shown to the viewer.
    pub closed spec fn spec_fetch_state(&self) -> FetchState {
        self.fetch_state
    }

    /// The delays in use.
    pub closed spec fn spec_timing(&self) -> Timing {
        self.timing
    }

    /// A chat box with the usual delays, auto-refresh on, nothing fetched yet
    /// and no timer armed. The caller delivers `GetMessages` to start.
    pub fn create() -> (r: ChatBoxComponent)
        ensures
            r.flags() == (SyncFlags { fetching: false, enabled: true, pending: false }),
            r.spec_fetch_state() matches FetchState::Success(v) && v@.len() == 0,
            r.spec_timing() == (Timing { refresh_secs: REFRESH_TIME_SEC, settle_secs: SETTLE_TIME_SEC }),
    {
        ChatBoxComponent::with_timing(Timing { refresh_secs: REFRESH_TIME_SEC, settle_secs: SETTLE_TIME_SEC })
    }

    /// A chat box with the given delays, otherwise as `create` makes it.
    pub fn with_timing(timing: Timing) -> (r: ChatBoxComponent)
        ensures
            r.flags() == (SyncFlags { fetching: false, enabled: true, pending: false }),
            r.spec_fetch_state() matches FetchState::Success(v) && v@.len() == 0,
            r.spec_timing() == timing,
    {
        ChatBoxComponent {
            state: State { refresh_enabled: true },
            fetch_state: FetchState::Success(Vec::new()),
            fetch_queued: false,
            fetching: false,
            timing,
        }
    }

    /// Arms the refresh timer where auto-refresh is on and none is armed,
    /// and says for how long.
    fn arm_refresh(&mut self) -> (r: Option<u64>)
        ensures
            final(self).flags() == arm_if_idle(old(self).flags()).0,
            final(self).spec_fetch_state() == old(self).spec_fetch_state(),
            final(self).spec_timing() == old(self).spec_timing(),
            r == (if arm_if_idle(old(self).flags()).1.arm_refresh {
                Some(old(self).spec_timing().refresh_secs)
            } else {
                None
            }),
    {
        if self.state.refresh_enabled && !self.fetch_queued {
            self.fetch_queued = true;
            Some(self.timing.refresh_secs)
        } else {
            None
        }
    }

    /// Starts a fetch unless one is in flight; says whether it did.
    fn start_fetch(&mut self) -> (r: bool)
        ensures
            final(self).flags() == request_fetch(old(self).flags()).0,
            final(self).spec_fetch_state() == old(self).spec_fetch_state(),
            final(self).spec_timing() == old(self).spec_timing(),
            r == request_fetch(old(self).flags()).1.fetch_now,
    {
        if self.fetching {
            false
        } else {
            self.fetching = true;
            self.fetch_queued = false;
            true
        }
    }

    /// Handles one event and says what the surrounding program must do next.
    pub fn update(&mut self, msg: Msg) -> (r: Effects)
        ensures
            final(self).flags() == step(old(self).flags(), event_of(&msg)).0,
            final(self).spec_fetch_state() == next_fetch_state(old(self).spec_fetch_state(), msg),
            final(self).spec_timing() == old(self).spec_timing(),
            r.fetch == step(old(self).flags(), event_of(&msg)).1.fetch_now,
            r.refresh_after == (if step(old(self).flags(), event_of(&msg)).1.arm_refresh {
                Some(old(self).spec_timing().refresh_secs)
            } else {
                None
            }),
            r.fetch_after == (if step(old(self).flags(), event_of(&msg)).1.fetch_after_settle {
                Some(old(self).spec_timing().settle_secs)
            } else {
                None
            }),
            r.send == (match msg {
                Msg::SubmitMessage(Ok(q)) => Some(q),
                _ => None,
            }),
            r.report == (match msg {
                Msg::SubmitMessage(Err(e)) => Some(e),
                _ => None,
            }),
            r.render == (msg is SetFetchState || msg matches Msg::MessageSent(Err(_))),
    {
        let mut r = Effects {
            fetch: false,
            refresh_after: None,
            send: None,
            fetch_after: None,
            report: None,
            render: false,
        };
        match msg {
            Msg::Nothing => {},
            Msg::ToggleRefresh => {
                self.state.refresh_enabled = !self.state.refresh_enabled;
                r.refresh_after = self.arm_refresh();
            },
            Msg::SetFetchState(result) => {
                self.fetch_state = match result {
                    Ok(messages) => FetchState::Success(messages),
                    Err(e) => FetchState::Error(e),
                };
                self.fetching = false;
                r.refresh_after = self.arm_refresh();
                r.render = true;
            },
            Msg::GetMessages => {
                r.fetch = self.start_fetch();
            },
            Msg::RefreshDue => {
                self.fetch_queued = false;
                r.fetch = self.start_fetch();
            },
            Msg::SubmitMessage(Ok(request)) => {
                r.send = Some(request);
            },
            Msg::SubmitMessage(Err(e)) => {
                r.report = Some(e);
            },
            Msg::MessageSent(Ok(())) => {
                r.fetch_after = Some(self.timing.settle_secs);
            },
            Msg::MessageSent(Err(e)) => {
                self.fetch_state = FetchState::Error(e);
                r.render = true;
            },
        }
        r
    }

    /// What the user controls.
    pub fn state(&self) -> (r: State)
        ensures
            r.refresh_enabled == self.flags().enabled,
    {
        self.state
    }

    /// The snapshot shown to the viewer.
    pub fn fetch_state(&self) -> (r: &FetchState)
        ensures
            *r == self.spec_fetch_state(),
    {
        &self.fetch_state
    }

    /// Whether a fetch is in flight.
    pub fn is_fetching(&self) -> (r: bool)
        ensures
            r == self.flags().fetching,
    {
        self.fetching
    }

    /// Whether a refresh timer is armed.
    pub fn refresh_pending(&self) -> (r: bool)
        ensures
            r == self.flags().pending,
    {
        self.fetch_queued
    }

    /// The delays in use.
    pub fn timing(&self) -> (r: Timing)
        ensures
            r == self.spec_timing(),
    {
        self.timing
    }
}

} // verus!
