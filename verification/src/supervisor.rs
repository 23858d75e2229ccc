//! The process supervisor's decisions: what a launch attempt leaves the
//! session with, and what the child's output adds to the log.
//!
//! Resolving and launching the executable, receiving its output and killing
//! it are the caller's work. The handle type `H` is whatever the caller's
//! process interface hands out; the supervisor only passes it on.

use vstd::prelude::*;

verus! {

/// The name under which the backend executable is bundled.
pub const SIDECAR_NAME: &'static str = "ndm_backend";

/// The directory of the log file, below the application data directory.
pub const LOG_DIR_NAME: &'static str = "NDM";

/// The name of the log file.
pub const LOG_FILE_NAME: &'static str = "ndm_desktop.log";

/// One item of the child process's output stream.
#[derive(Debug, PartialEq, Eq)]
pub enum OutputEvent {
    /// A decoded line of standard output.
    StandardOutputLine(String),
    /// A decoded line of standard error.
    StandardErrorLine(String),
    /// Anything else the stream reports (exit status, stream errors).
    Other,
}

/// How an attempt to launch the backend executable ended.
pub enum LaunchResult<H> {
    /// The executable could not be resolved; the text says why.
    Unavailable(String),
    /// The operating system refused the launch; the text says why.
    Refused(String),
    /// The process runs and this is its handle.
    Running(H),
}

/// What the supervisor makes of a launch attempt.
pub struct SpawnReport<H> {
    /// The handle to supervise, if the launch succeeded.
    pub handle: Option<H>,
    /// The line to write to the log.
    pub log: String,
}

/// Text of the log line for one line of backend output.
pub open spec fn backend_line(line: Seq<char>) -> Seq<char> {
    "backend: "@ + line
}

/// Text of the log line for an executable that could not be resolved.
pub open spec fn unavailable_line(reason: Seq<char>) -> Seq<char> {
    "sidecar not available: "@ + reason
}

/// Text of the log line for a launch that the operating system refused.
pub open spec fn refused_line(reason: Seq<char>) -> Seq<char> {
    "failed to spawn sidecar: "@ + reason
}

/// Text of the log line for a successful launch.
pub open spec fn spawned_line() -> Seq<char> {
    "sidecar spawned successfully"@
}

/// The views of a sequence of strings.
pub open spec fn texts(lines: Seq<String>) -> Seq<Seq<char>> {
    lines.map_values(|line: String| line@)
}

impl OutputEvent {
    /// The log line an event gives rise to: lines of either stream are
    /// logged alike, other events leave no trace.
    pub open spec fn log_text(self) -> Option<Seq<char>> {
        match self {
            OutputEvent::StandardOutputLine(line) => Some(backend_line(line@)),
            OutputEvent::StandardErrorLine(line) => Some(backend_line(line@)),
            OutputEvent::Other => None,
        }
    }

    /// The message to log for this event, if any.
    pub fn logged(&self) -> (text: Option<String>)
        ensures
            match self.log_text() {
                Some(expected) => text is Some && text->Some_0@ == expected,
                None => text is None,
            },
    {
        match self {
            OutputEvent::StandardOutputLine(line) => Some(prefixed("backend: ", line.as_str())),
            OutputEvent::StandardErrorLine(line) => Some(prefixed("backend: ", line.as_str())),
            OutputEvent::Other => None,
        }
    }
}

impl<H> LaunchResult<H> {
    /// The handle a launch attempt leaves to supervise.
    pub open spec fn handle(self) -> Option<H> {
        match self {
            LaunchResult::Running(handle) => Some(handle),
            _ => None,
        }
    }

    /// The log line a launch attempt is recorded with.
    pub open spec fn log_text(self) -> Seq<char> {
        match self {
            LaunchResult::Unavailable(reason) => unavailable_line(reason@),
            LaunchResult::Refused(reason) => refused_line(reason@),
            LaunchResult::Running(_) => spawned_line(),
        }
    }
}

/// The text `head` followed by `tail`.
fn prefixed(head: &str, tail: &str) -> (text: String)
    ensures
        text@ == head@ + tail@,
{
    String::from_str(head).concat(tail)
}

/// Settles a launch attempt: a failure of either kind is logged with its
/// cause and leaves no process to supervise, which is not an error of the
/// session; a success is logged and hands on the handle.
pub fn conclude_spawn<H>(result: LaunchResult<H>) -> (report: SpawnReport<H>)
    ensures
        report.handle == result.handle(),
        report.log@ == result.log_text(),
{
    match result {
        LaunchResult::Unavailable(reason) => SpawnReport {
            handle: None,
            log: prefixed("sidecar not available: ", reason.as_str()),
        },
        LaunchResult::Refused(reason) => SpawnReport {
            handle: None,
            log: prefixed("failed to spawn sidecar: ", reason.as_str()),
        },
        LaunchResult::Running(handle) => SpawnReport {
            handle: Some(handle),
            log: String::from_str("sidecar spawned successfully"),
        },
    }
}

/// The log lines that a series of output events gives rise to, in order.
pub open spec fn log_lines_spec(events: Seq<OutputEvent>) -> Seq<Seq<char>>
    decreases events.len(),
{
    if events.len() == 0 {
        Seq::empty()
    } else {
        let earlier = log_lines_spec(events.drop_last());
        match events.last().log_text() {
            Some(text) => earlier.push(text),
            None => earlier,
        }
    }
}

/// Turns a batch of output events into the messages to log: one per line
/// of output, in the order received.
pub fn log_lines(events: &Vec<OutputEvent>) -> (lines: Vec<String>)
    ensures
        texts(lines@) == log_lines_spec(events@),
{
    let mut lines: Vec<String> = Vec::new();
    let mut seen: usize = 0;
    assert(events@.take(0) =~= Seq::<OutputEvent>::empty());
    assert(texts(lines@) =~= Seq::<Seq<char>>::empty());
    while seen < events.len()
        invariant
            seen <= events.len(),
            texts(lines@) == log_lines_spec(events@.take(seen as int)),
        decreases events.len() - seen,
    {
        let ghost before = lines@;
        assert(events@.take(seen + 1).drop_last() =~= events@.take(seen as int));
        match events[seen].logged() {
            Some(text) => {
                lines.push(text);
                assert(texts(lines@) =~= texts(before).push(text@));
            },
            None => {},
        }
        seen = seen + 1;
    }
    assert(events@.take(seen as int) =~= events@);
    lines
}

/// The directory of the log file for an application data directory.
pub open spec fn log_dir_spec(data_dir: Seq<char>) -> Seq<char> {
    data_dir + "/"@ + LOG_DIR_NAME@
}

/// The location of the log file for an application data directory.
pub open spec fn log_location_spec(data_dir: Seq<char>) -> Seq<char> {
    log_dir_spec(data_dir) + "/"@ + LOG_FILE_NAME@
}

/// The record that a message is logged as.
pub open spec fn log_line_spec(stamp: Seq<char>, message: Seq<char>) -> Seq<char> {
    stamp + " "@ + message + "\n"@
}

/// The location of the log lies in the log directory and ends with the
/// name of the log file.
pub proof fn lemma_log_location_names_the_file(data_dir: Seq<char>)
    ensures
        ({
            let location = log_location_spec(data_dir);
            let dir = log_dir_spec(data_dir);
            &&& location.len() == dir.len() + 1 + LOG_FILE_NAME@.len()
            &&& location.subrange(0, dir.len() as int) == dir
            &&& location.subrange(dir.len() as int + 1, location.len() as int) == LOG_FILE_NAME@
            &&& dir.subrange(0, data_dir.len() as int) == data_dir
        }),
{
    let location = log_location_spec(data_dir);
    let dir = log_dir_spec(data_dir);
    reveal_strlit("/");
    assert(location.subrange(0, dir.len() as int) =~= dir);
    assert(location.subrange(dir.len() as int + 1, location.len() as int) =~= LOG_FILE_NAME@);
    assert(dir.subrange(0, data_dir.len() as int) =~= data_dir);
}

/// The directory that holds the log file, below `data_dir`.
pub fn log_dir(data_dir: &str) -> (dir: String)
    ensures
        dir@ == log_dir_spec(data_dir@),
{
    String::from_str(data_dir).concat("/").concat(LOG_DIR_NAME)
}

/// The location of the log file, below `data_dir`. Every record is
/// appended to this file, and the message that reports a failed start to
/// the user names it.
pub fn log_location(data_dir: &str) -> (location: String)
    ensures
        location@ == log_location_spec(data_dir@),
{
    log_dir(data_dir).concat("/").concat(LOG_FILE_NAME)
}

/// The record that is appended to the log file for a message: the time
/// stamp that the caller read from its clock, a space, the message and a
/// line feed.
pub fn log_line(stamp: &str, message: &str) -> (record: String)
    ensures
        record@ == log_line_spec(stamp@, message@),
{
    String::from_str(stamp).concat(" ").concat(message).concat("\n")
}

} // verus!
