//! The session controller: the phase a session is in, the slot that owns
//! the handle of the supervised process, and what the controller does when
//! the launch settles, when the readiness gate settles and when shutdown is
//! requested.
//!
//! A `Session` is meant to sit behind a lock. Each method is one short
//! critical section; what it returns (a handle to kill, a reaction to carry
//! out) is acted on after the lock has been released.

use vstd::prelude::*;
use crate::readiness::{DEFAULT_POLL_INTERVAL_MS, DEFAULT_TIMEOUT_MS};
use crate::supervisor::{log_location, log_location_spec};

verus! {

/// The health endpoint of the backend.
pub const HEALTH_URL: &'static str = "http://127.0.0.1:8789/health";

/// The origin of the backend's user interface, shown once it is healthy.
pub const UI_URL: &'static str = "http://127.0.0.1:8789/ui";

/// The key that toggles presentation mode.
pub const TOGGLE_KEY: &'static str = "F11";

/// Logged when the readiness gate is started.
pub const WAITING_LINE: &'static str = "waiting for backend health";

/// Logged when the readiness gate gave up.
pub const HEALTH_FAILED_LINE: &'static str = "backend health check failed";

/// Where a session stands.
#[derive(Clone, Copy, Debug, PartialEq, Eq, Structural)]
pub enum SessionPhase {
    /// The launch of the backend has not settled yet.
    Starting,
    /// The launch has settled and the readiness gate is consulted.
    WaitingForHealth,
    /// The poll reported the backend ready.
    Ready,
    /// The poll gave up.
    Failed,
    /// Shutdown was requested.
    ShuttingDown,
}

/// What the controller does about a verdict of the readiness gate.
#[derive(Clone, Copy, Debug, PartialEq, Eq, Structural)]
pub enum GateReaction {
    /// Send the host surface to the backend's user interface.
    Navigate,
    /// Tell the user and the log that the backend failed to start.
    ReportFailure,
    /// The verdict comes too late or too early to matter: do nothing.
    Nothing,
}

/// What a session is started with.
#[derive(Clone, Copy, Debug, PartialEq, Eq, Structural)]
pub struct SessionConfig {
    /// Do not launch a backend: one is expected to run already.
    pub skip_sidecar: bool,
    /// Time allowed for the backend to become healthy, in milliseconds.
    pub timeout_ms: u64,
    /// Pause between two health requests, in milliseconds.
    pub interval_ms: u64,
}

/// Whether the skip setting asks for no backend to be launched: only the
/// value `1` does, an absent setting and every other value do not.
pub open spec fn skip_requested(setting: Option<&str>) -> bool {
    match setting {
        Some(value) => value@ == "1"@,
        None => false,
    }
}

impl SessionConfig {
    /// The configuration of a session with the default timeout and poll
    /// interval, and the given value of the skip setting.
    pub fn from_setting(setting: Option<&str>) -> (config: SessionConfig)
        ensures
            config.skip_sidecar == skip_requested(setting),
            config.timeout_ms == DEFAULT_TIMEOUT_MS,
            config.interval_ms == DEFAULT_POLL_INTERVAL_MS,
    {
        let skip = match setting {
            Some(value) => {
                proof {
                    reveal_strlit("1");
                }
                let hit = value.unicode_len() == 1 && value.get_char(0) == '1';
                assert(hit ==> value@ =~= "1"@);
                hit
            },
            None => false,
        };
        SessionConfig {
            skip_sidecar: skip,
            timeout_ms: DEFAULT_TIMEOUT_MS,
            interval_ms: DEFAULT_POLL_INTERVAL_MS,
        }
    }
}

/// What can happen to a session.
pub enum SessionEvent<H> {
    /// The launch settled, with a handle or without one.
    SpawnSettled(Option<H>),
    /// The readiness gate settled; `true` stands for ready.
    GateSettled(bool),
    /// Shutdown was requested.
    ShutdownRequested,
}

/// One session: its phase and the slot for the handle of the one process
/// it supervises.
pub struct Session<H> {
    phase: SessionPhase,
    slot: Option<H>,
}

impl<H> Session<H> {
    /// The phase of the session.
    pub closed spec fn phase(&self) -> SessionPhase {
        self.phase
    }

    /// The handle in the slot, if the slot is occupied.
    pub closed spec fn handle(&self) -> Option<H> {
        self.slot
    }

    /// The slot is empty before the launch has settled and from the moment
    /// shutdown is requested.
    pub open spec fn wf(&self) -> bool {
        (self.phase() == SessionPhase::Starting || self.phase() == SessionPhase::ShuttingDown)
            ==> self.handle() is None
    }

    /// `next` and `rejected` are what settling the launch with `handle`
    /// leads to: a session that is starting stores the handle, or nothing,
    /// and goes on to wait for health; any other session stays as it is
    /// and hands the handle back.
    pub open spec fn spawn_settles_to(
        &self,
        next: &Session<H>,
        handle: Option<H>,
        rejected: Option<H>,
    ) -> bool {
        if self.phase() == SessionPhase::Starting {
            &&& next.phase() == SessionPhase::WaitingForHealth
            &&& next.handle() == handle
            &&& rejected is None
        } else {
            &&& next.phase() == self.phase()
            &&& next.handle() == self.handle()
            &&& rejected == handle
        }
    }

    /// `next` and `reaction` are what a verdict of the readiness gate leads to: a
    /// session that waits for health becomes ready or failed and reacts;
    /// any other session stays as it is and does nothing. The slot is not
    /// touched.
    pub open spec fn gate_settles_to(
        &self,
        next: &Session<H>,
        ready: bool,
        reaction: GateReaction,
    ) -> bool {
        &&& next.handle() == self.handle()
        &&& if self.phase() == SessionPhase::WaitingForHealth {
            if ready {
                next.phase() == SessionPhase::Ready && reaction == GateReaction::Navigate
            } else {
                next.phase() == SessionPhase::Failed && reaction == GateReaction::ReportFailure
            }
        } else {
            next.phase() == self.phase() && reaction == GateReaction::Nothing
        }
    }

    /// `next` and `released` are what a shutdown request leads to, in
    /// whatever phase it arrives: the slot is emptied and what it held is
    /// released to the caller.
    pub open spec fn shuts_down_to(&self, next: &Session<H>, released: Option<H>) -> bool {
        &&& next.phase() == SessionPhase::ShuttingDown
        &&& next.handle() is None
        &&& released == self.handle()
    }

    /// The reaction that a verdict of the readiness gate is owed.
    pub open spec fn reaction_to(&self, ready: bool) -> GateReaction {
        if self.phase() != SessionPhase::WaitingForHealth {
            GateReaction::Nothing
        } else if ready {
            GateReaction::Navigate
        } else {
            GateReaction::ReportFailure
        }
    }

    /// `next` is the session after `event`, and `out` the handle that the
    /// event leaves the caller to terminate.
    pub open spec fn follows(
        &self,
        event: SessionEvent<H>,
        next: &Session<H>,
        out: Option<H>,
    ) -> bool {
        match event {
            SessionEvent::SpawnSettled(handle) => self.spawn_settles_to(next, handle, out),
            SessionEvent::GateSettled(ready) => {
                &&& self.gate_settles_to(next, ready, self.reaction_to(ready))
                &&& out is None
            },
            SessionEvent::ShutdownRequested => self.shuts_down_to(next, out),
        }
    }

    /// A session that is starting, with an empty slot.
    pub fn new() -> (session: Session<H>)
        ensures
            session.phase() == SessionPhase::Starting,
            session.handle() is None,
            session.wf(),
    {
        Session { phase: SessionPhase::Starting, slot: None }
    }

    /// The phase the session is in.
    pub fn current_phase(&self) -> (phase: SessionPhase)
        ensures
            phase == self.phase(),
    {
        self.phase
    }

    /// Whether the slot holds a handle.
    pub fn is_supervising(&self) -> (held: bool)
        ensures
            held == self.handle() is Some,
    {
        self.slot.is_some()
    }

    /// Settles the launch: `handle` is the process to supervise, or `None`
    /// if the launch was skipped or failed. Either way a starting session
    /// goes on to wait for health. A handle that arrives in any other
    /// phase is not stored but handed back, for the caller to terminate.
    pub fn spawn_settled(&mut self, handle: Option<H>) -> (rejected: Option<H>)
        ensures
            old(self).follows(SessionEvent::SpawnSettled(handle), final(self), rejected),
            old(self).wf() ==> final(self).wf(),
    {
        match self.phase {
            SessionPhase::Starting => {
                self.slot = handle;
                self.phase = SessionPhase::WaitingForHealth;
                None
            },
            _ => handle,
        }
    }

    /// Takes the verdict of the readiness gate. It counts once, while the
    /// session waits for health; later verdicts, and any that arrive after
    /// a shutdown request, are ignored.
    pub fn gate_settled(&mut self, ready: bool) -> (reaction: GateReaction)
        ensures
            old(self).follows(SessionEvent::GateSettled(ready), final(self), None),
            reaction == old(self).reaction_to(ready),
            old(self).wf() ==> final(self).wf(),
    {
        match self.phase {
            SessionPhase::WaitingForHealth => {
                if ready {
                    self.phase = SessionPhase::Ready;
                    GateReaction::Navigate
                } else {
                    self.phase = SessionPhase::Failed;
                    GateReaction::ReportFailure
                }
            },
            _ => GateReaction::Nothing,
        }
    }

    /// Requests shutdown: empties the slot and releases what it held, for
    /// the caller to terminate once the lock is dropped.
    pub fn shutdown(&mut self) -> (released: Option<H>)
        ensures
            old(self).follows(SessionEvent::ShutdownRequested, final(self), released),
            final(self).wf(),
    {
        self.phase = SessionPhase::ShuttingDown;
        self.slot.take()
    }
}

/// Of two shutdown requests in succession only the first can release a
/// handle: the second finds the slot empty, releases nothing and leaves
/// the session as it was.
pub proof fn lemma_second_shutdown_releases_nothing<H>(
    before: Session<H>,
    between: Session<H>,
    after: Session<H>,
    first: Option<H>,
    second: Option<H>,
)
    requires
        before.shuts_down_to(&between, first),
        between.shuts_down_to(&after, second),
    ensures
        second is None,
        after.phase() == between.phase(),
        after.handle() == between.handle(),
{
}

/// `states`, `events` and `outs` record a session's life: each event leads
/// from one state to the next and leaves its handle, if any, in `outs`.
pub open spec fn is_history<H>(
    states: Seq<Session<H>>,
    events: Seq<SessionEvent<H>>,
    outs: Seq<Option<H>>,
) -> bool {
    &&& states.len() == events.len() + 1
    &&& outs.len() == events.len()
    &&& forall|i: int|
        0 <= i < events.len() ==> (#[trigger] states[i]).follows(
            events[i],
            &states[i + 1],
            outs[i],
        )
}

/// In the life of a session shutdown releases a handle at most once: from
/// the first shutdown request on the session stays shut down with an empty
/// slot, so every later request releases nothing, and a launch that
/// settles later leaves nothing in the slot but gets its handle back.
pub proof fn lemma_nothing_is_held_after_shutdown<H>(
    states: Seq<Session<H>>,
    events: Seq<SessionEvent<H>>,
    outs: Seq<Option<H>>,
    first: int,
    later: int,
)
    requires
        is_history(states, events, outs),
        0 <= first < later < events.len(),
        events[first] is ShutdownRequested,
    ensures
        states[later].phase() == SessionPhase::ShuttingDown,
        states[later].handle() is None,
        events[later] is ShutdownRequested ==> outs[later] is None,
        events[later] is GateSettled ==> outs[later] is None,
        events[later] matches SessionEvent::SpawnSettled(handle) ==> outs[later] == handle,
    decreases later - first,
{
    assert(states[first].follows(events[first], &states[first + 1], outs[first]));
    if later > first + 1 {
        lemma_nothing_is_held_after_shutdown(states, events, outs, first, later - 1);
        assert(states[later - 1].follows(events[later - 1], &states[later], outs[later - 1]));
    }
    assert(states[later].follows(events[later], &states[later + 1], outs[later]));
}

/// Every state in the life of a session that began well formed is well
/// formed.
pub proof fn lemma_history_stays_well_formed<H>(
    states: Seq<Session<H>>,
    events: Seq<SessionEvent<H>>,
    outs: Seq<Option<H>>,
    at: int,
)
    requires
        is_history(states, events, outs),
        states[0].wf(),
        0 <= at < states.len(),
    ensures
        states[at].wf(),
    decreases at,
{
    if at > 0 {
        lemma_history_stays_well_formed(states, events, outs, at - 1);
        assert(states[at - 1].follows(events[at - 1], &states[at], outs[at - 1]));
    }
}

/// In the life of a session a verdict of the readiness gate is acted on
/// exactly once: the first one that arrives while the session waits for
/// health is answered by navigation if ready and by the failure report if
/// not, and releases no handle. The session never waits for health again,
/// so every later verdict causes no reaction.
pub proof fn lemma_verdict_is_acted_on_once<H>(
    states: Seq<Session<H>>,
    events: Seq<SessionEvent<H>>,
    outs: Seq<Option<H>>,
    first: int,
    later: int,
)
    requires
        is_history(states, events, outs),
        0 <= first < later < events.len(),
        events[first] is GateSettled,
        states[first].phase() == SessionPhase::WaitingForHealth,
    ensures
        states[first].reaction_to(events[first]->GateSettled_0) == if events[first]->GateSettled_0 {
            GateReaction::Navigate
        } else {
            GateReaction::ReportFailure
        },
        outs[first] is None,
        states[first + 1].handle() == states[first].handle(),
        states[later].phase() != SessionPhase::Starting,
        states[later].phase() != SessionPhase::WaitingForHealth,
        events[later] matches SessionEvent::GateSettled(ready) ==> states[later].reaction_to(ready)
            == GateReaction::Nothing,
    decreases later - first,
{
    assert(states[first].follows(events[first], &states[first + 1], outs[first]));
    if later > first + 1 {
        lemma_verdict_is_acted_on_once(states, events, outs, first, later - 1);
        assert(states[later - 1].follows(events[later - 1], &states[later], outs[later - 1]));
    }
}

/// Whether or not the launch left a process to supervise, a starting
/// session goes on to wait for health, and the verdict of the readiness gate is then
/// acted on: navigation if ready, the failure report if not.
pub proof fn lemma_gate_runs_whatever_the_launch<H>(
    start: Session<H>,
    waiting: Session<H>,
    settled: Session<H>,
    handle: Option<H>,
    rejected: Option<H>,
    ready: bool,
    reaction: GateReaction,
)
    requires
        start.phase() == SessionPhase::Starting,
        start.spawn_settles_to(&waiting, handle, rejected),
        waiting.gate_settles_to(&settled, ready, reaction),
    ensures
        waiting.phase() == SessionPhase::WaitingForHealth,
        rejected is None,
        reaction == if ready {
            GateReaction::Navigate
        } else {
            GateReaction::ReportFailure
        },
        settled.handle() == handle,
{
}

/// A verdict of the readiness gate is acted on at most once: whatever the first one
/// led to, a second one causes no reaction and changes nothing.
pub proof fn lemma_gate_verdict_counts_once<H>(
    before: Session<H>,
    between: Session<H>,
    after: Session<H>,
    first_ready: bool,
    first: GateReaction,
    second_ready: bool,
    second: GateReaction,
)
    requires
        before.gate_settles_to(&between, first_ready, first),
        between.gate_settles_to(&after, second_ready, second),
    ensures
        first != GateReaction::Nothing ==> second == GateReaction::Nothing,
        first != GateReaction::Nothing ==> after.phase() == between.phase(),
        after.handle() == before.handle(),
{
}

/// Whether a character cannot stand as it is between the single quotes of
/// a script's string.
pub open spec fn needs_escape(c: char) -> bool {
    c == '\\' || c == '\'' || c == '\n' || c == '\r'
}

/// The character that stands behind the backslash in the escape of `c`.
pub open spec fn escape_letter(c: char) -> char {
    if c == '\n' {
        'n'
    } else if c == '\r' {
        'r'
    } else {
        c
    }
}

/// `text` as it is written between the single quotes of a script's
/// string, so that the string stands for `text` again: a backslash before
/// each backslash and each single quote, `\n` and `\r` for a line feed and
/// a carriage return, every other character as it is.
pub open spec fn script_quoted(text: Seq<char>) -> Seq<char>
    decreases text.len(),
{
    if text.len() == 0 {
        Seq::empty()
    } else if needs_escape(text.last()) {
        script_quoted(text.drop_last()).push('\\').push(escape_letter(text.last()))
    } else {
        script_quoted(text.drop_last()).push(text.last())
    }
}

/// Text without a backslash, a single quote or a line break is quoted as
/// it is.
pub proof fn lemma_plain_text_is_quoted_unchanged(text: Seq<char>)
    requires
        forall|i: int| 0 <= i < text.len() ==> !needs_escape(#[trigger] text[i]),
    ensures
        script_quoted(text) == text,
    decreases text.len(),
{
    if text.len() > 0 {
        lemma_plain_text_is_quoted_unchanged(text.drop_last());
        assert(text.drop_last().push(text.last()) =~= text);
    }
}

/// Appends one character to a string, with `String::push`.
///
/// Trusted: the string is afterwards what it was, followed by `c`.
#[verifier::external_body]
fn push_char(text: &mut String, c: char)
    ensures
        final(text)@ == old(text)@.push(c),
{
    text.push(c);
}

/// Writes `text` for the inside of a single-quoted string of a script.
pub fn quote_for_script(text: &str) -> (quoted: String)
    ensures
        quoted@ == script_quoted(text@),
{
    let mut quoted = String::new();
    let length = text.unicode_len();
    let mut at: usize = 0;
    assert(text@.take(0) =~= Seq::<char>::empty());
    while at < length
        invariant
            length == text@.len(),
            at <= length,
            quoted@ == script_quoted(text@.take(at as int)),
        decreases length - at,
    {
        let c = text.get_char(at);
        assert(text@.take(at + 1).drop_last() =~= text@.take(at as int));
        assert(text@.take(at + 1).last() == c);
        if c == '\\' || c == '\'' {
            push_char(&mut quoted, '\\');
            push_char(&mut quoted, c);
        } else if c == '\n' {
            push_char(&mut quoted, '\\');
            push_char(&mut quoted, 'n');
        } else if c == '\r' {
            push_char(&mut quoted, '\\');
            push_char(&mut quoted, 'r');
        } else {
            push_char(&mut quoted, c);
        }
        at = at + 1;
    }
    assert(text@.take(at as int) =~= text@);
    quoted
}

/// The script that sends the host surface to `ui_url`.
pub open spec fn navigate_script_spec(ui_url: Seq<char>) -> Seq<char> {
    "window.location.replace('"@ + script_quoted(ui_url) + "')"@
}

/// The script that sends the host surface to `ui_url`.
pub fn navigate_script(ui_url: &str) -> (script: String)
    ensures
        script@ == navigate_script_spec(ui_url@),
{
    let quoted = quote_for_script(ui_url);
    String::from_str("window.location.replace('").concat(quoted.as_str()).concat("')")
}

/// The script that tells the user that the backend failed to start, with
/// the location of the log in it.
pub open spec fn failure_script_spec(location: Seq<char>) -> Seq<char> {
    "document.getElementById('status').textContent = 'Backend failed to start. Check logs in "@
        + script_quoted(location) + ".';"@
}

/// The script that tells the user that the backend failed to start and
/// points at the log file below `data_dir`, the file that the log records
/// are appended to.
pub fn failure_script(data_dir: &str) -> (script: String)
    ensures
        script@ == failure_script_spec(log_location_spec(data_dir@)),
{
    let location = log_location(data_dir);
    let quoted = quote_for_script(location.as_str());
    String::from_str(
        "document.getElementById('status').textContent = 'Backend failed to start. Check logs in ",
    ).concat(quoted.as_str()).concat(".';")
}

/// The log line for a toggle key that could not be registered.
pub fn shortcut_failure_line(reason: &str) -> (line: String)
    ensures
        line@ == "kiosk shortcut registration failed: "@ + reason@,
{
    String::from_str("kiosk shortcut registration failed: ").concat(reason)
}

} // verus!
