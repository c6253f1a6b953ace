//! How events are rendered and which write each of them becomes.
//!
//! Every event is one framed block of text:
//!
//! ```text
//!
//! ════════════════ … ════════════════
//! [2024-05-01T12:00:00.000Z] >>> INVOKE: list_items
//! ──────────────── … ────────────────
//! {}
//! ════════════════ … ════════════════
//! ```
//!
//! [`format_block`] says exactly what a block holds. The methods of
//! [`DebugLogger`] read the clock and print the payload, which only the
//! crates behind them can do, and then frame what they got.

use vstd::prelude::*;
use vstd::string::*;
use crate::host::{
    line_written, ActionView, HostAction, Outcome, OutcomeView, WriteOutcome, WriteOutcomeView,
};
use crate::tmux::{
    destroy_succeeds, kill_viewer, pipe_path_of, remove_pipe, write_error, Lifecycle, SessionView,
    TmuxSession,
};

verus! {

/// The line that opens and closes a block.
pub const HEAVY_RULE: &'static str =
    "════════════════════════════════════════════════════════════════════════════════";

/// The line between a block's heading and its body.
pub const LIGHT_RULE: &'static str =
    "────────────────────────────────────────────────────────────────────────────────";

/// How the time of an event is written: ISO 8601, UTC, to the millisecond.
pub const STAMP_PATTERN: &'static str = "%Y-%m-%dT%H:%M:%S%.3fZ";

/// How the banner gives the time at which the session started.
pub const STARTED_PATTERN: &'static str = "%Y-%m-%d %H:%M:%S UTC";

/// The banner up to the session's name.
pub const BANNER_HEAD: &'static str =
    "\n╔══════════════════════════════════════════════════════════════════════════════╗\n║                         OPCODE DEBUG MODE                                     ║\n║                                                                              ║\n║  Session: ";

/// The banner between the session's name and the time.
pub const BANNER_MIDDLE: &'static str =
    "                                                  ║\n║  Started: ";

/// The banner after the time: the legend of the four markers.
pub const BANNER_TAIL: &'static str =
    "                                           ║\n║                                                                              ║\n║  Legend:                                                                     ║\n║    >>> INVOKE   - Frontend calling backend command                           ║\n║    <<< RESPONSE - Backend returning result                                   ║\n║    --> EVENT    - Backend emitting event to frontend                         ║\n║    !!! ERROR    - Error occurred                                             ║\n╚══════════════════════════════════════════════════════════════════════════════╝\n";

/// The kinds of event that are framed.
#[derive(Debug, Clone, Copy, PartialEq, Eq)]
pub enum EventKind {
    /// The frontend calls a command of the backend.
    Invoke,
    /// The backend answers a command.
    Response,
    /// The backend emits an event to the frontend.
    Event,
    /// Something failed.
    Error,
}

/// The marker that shows a block's kind and direction.
pub open spec fn marker_text(kind: EventKind) -> Seq<char> {
    match kind {
        EventKind::Invoke => ">>> INVOKE"@,
        EventKind::Response => "<<< RESPONSE"@,
        EventKind::Event => "--> EVENT"@,
        EventKind::Error => "!!! ERROR"@,
    }
}

/// The heading of a block: `[<timestamp>] <marker>: <title>`.
pub open spec fn heading_text(kind: EventKind, timestamp: Seq<char>, title: Seq<char>) -> Seq<
    char,
> {
    "["@ + timestamp + "] "@ + marker_text(kind) + ": "@ + title
}

/// A whole block: an empty line, the heavy rule, the heading, the light
/// rule, the body, the heavy rule. It ends without a line feed; the write
/// adds one.
pub open spec fn block_text(
    kind: EventKind,
    timestamp: Seq<char>,
    title: Seq<char>,
    body: Seq<char>,
) -> Seq<char> {
    "\n"@ + HEAVY_RULE@ + "\n"@ + heading_text(kind, timestamp, title) + "\n"@ + LIGHT_RULE@
        + "\n"@ + body + "\n"@ + HEAVY_RULE@
}

/// The decimal digit that stands for `d`, for `d` below ten.
pub open spec fn digit_char(d: nat) -> char {
    if d == 0 {
        '0'
    } else if d == 1 {
        '1'
    } else if d == 2 {
        '2'
    } else if d == 3 {
        '3'
    } else if d == 4 {
        '4'
    } else if d == 5 {
        '5'
    } else if d == 6 {
        '6'
    } else if d == 7 {
        '7'
    } else if d == 8 {
        '8'
    } else {
        '9'
    }
}

/// `n` in decimal, without sign or leading zeros.
pub open spec fn decimal_text(n: nat) -> Seq<char>
    decreases n,
{
    if n < 10 {
        seq![digit_char(n)]
    } else {
        decimal_text(n / 10).push(digit_char(n % 10))
    }
}

/// The title of a response: the command and how long it took.
pub open spec fn response_title(command: Seq<char>, duration_ms: nat) -> Seq<char> {
    command + " ("@ + decimal_text(duration_ms) + "ms)"@
}

/// The banner that opens a session's output.
pub open spec fn banner_text(session_name: Seq<char>, started: Seq<char>) -> Seq<char> {
    BANNER_HEAD@ + session_name + BANNER_MIDDLE@ + started + BANNER_TAIL@
}

/// What is logged beside the stream when a write did not go through.
pub open spec fn write_warning_text(error: Seq<char>) -> Seq<char> {
    "Failed to write debug log: "@ + error
}

fn digit_str(d: u64) -> (text: &'static str)
    requires
        d < 10,
    ensures
        text@ == seq![digit_char(d as nat)],
{
    proof {
        reveal_strlit("0");
        reveal_strlit("1");
        reveal_strlit("2");
        reveal_strlit("3");
        reveal_strlit("4");
        reveal_strlit("5");
        reveal_strlit("6");
        reveal_strlit("7");
        reveal_strlit("8");
        reveal_strlit("9");
    }
    let text = if d == 0 {
        "0"
    } else if d == 1 {
        "1"
    } else if d == 2 {
        "2"
    } else if d == 3 {
        "3"
    } else if d == 4 {
        "4"
    } else if d == 5 {
        "5"
    } else if d == 6 {
        "6"
    } else if d == 7 {
        "7"
    } else if d == 8 {
        "8"
    } else {
        "9"
    };
    assert(text@ =~= seq![digit_char(d as nat)]);
    text
}

/// Writes `n` in decimal.
pub fn decimal(n: u64) -> (text: String)
    ensures
        text@ == decimal_text(n as nat),
    decreases n,
{
    if n < 10 {
        String::from_str(digit_str(n))
    } else {
        let mut text = decimal(n / 10);
        text.append(digit_str(n % 10));
        assert(text@ =~= decimal_text(n as nat));
        text
    }
}

/// The marker of `kind`.
pub fn marker(kind: EventKind) -> (text: &'static str)
    ensures
        text@ == marker_text(kind),
{
    match kind {
        EventKind::Invoke => ">>> INVOKE",
        EventKind::Response => "<<< RESPONSE",
        EventKind::Event => "--> EVENT",
        EventKind::Error => "!!! ERROR",
    }
}

/// Frames one event as a block.
pub fn format_block(kind: EventKind, timestamp: &str, title: &str, body: &str) -> (text: String)
    ensures
        text@ == block_text(kind, timestamp@, title@, body@),
{
    let mut heading = String::from_str("[");
    heading.append(timestamp);
    heading.append("] ");
    heading.append(marker(kind));
    heading.append(": ");
    heading.append(title);
    let mut text = String::from_str("\n");
    text.append(HEAVY_RULE);
    text.append("\n");
    text.append(heading.as_str());
    text.append("\n");
    text.append(LIGHT_RULE);
    text.append("\n");
    text.append(body);
    text.append("\n");
    text.append(HEAVY_RULE);
    text
}

/// The title under which the answer to `command` is shown.
pub fn format_response_title(command: &str, duration_ms: u64) -> (text: String)
    ensures
        text@ == response_title(command@, duration_ms as nat),
{
    let mut text = String::from_str(command);
    text.append(" (");
    text.append(decimal(duration_ms).as_str());
    text.append("ms)");
    text
}

/// The banner for the session called `session_name`, started at `started`.
pub fn format_banner(session_name: &str, started: &str) -> (text: String)
    ensures
        text@ == banner_text(session_name@, started@),
{
    let mut text = String::from_str(BANNER_HEAD);
    text.append(session_name);
    text.append(BANNER_MIDDLE);
    text.append(started);
    text.append(BANNER_TAIL);
    text
}

/// `serde_json::Value`, a payload. The library looks at nothing inside it:
/// it only hands it to serde_json to be printed.
#[verifier::external_type_specification]
#[verifier::external_body]
pub struct ExValue(serde_json::Value);

/// `serde_json::Error`, why a payload could not be printed. The library
/// looks at nothing inside it.
#[verifier::external_type_specification]
#[verifier::external_body]
pub struct ExJsonError(serde_json::Error);

/// Reads the clock with `chrono::Utc::now` and writes the time with
/// `chrono::DateTime::format`, following `pattern`.
///
/// Nothing is claimed of the text: it depends on when the call is made. The
/// pattern must be one of the two that this library uses, both of which
/// chrono accepts; with a pattern that it rejects, writing the time would
/// abort. chrono itself gives up where the system's clock stands before
/// 1970.
#[verifier::external_body]
fn utc_now_text(pattern: &str) -> (text: String)
    requires
        pattern@ == STAMP_PATTERN@ || pattern@ == STARTED_PATTERN@,
{
    chrono::Utc::now().format(pattern).to_string()
}

/// What `serde_json::to_string_pretty` makes of `value`: the text, or
/// nothing where it fails. The text is not spelled out here; it is a matter
/// of the value alone.
pub uninterp spec fn pretty_print(value: serde_json::Value) -> Option<Seq<char>>;

/// Whether `text` shows `value`: it is the pretty print of `value` where
/// there is one, and else what `value` displays itself as.
pub open spec fn payload_shown(value: serde_json::Value, text: Seq<char>) -> bool {
    match pretty_print(value) {
        Some(printed) => text == printed,
        None => exists|shown: String| #[trigger]
            to_string_from_display_ensures::<serde_json::Value>(&value, shown) && shown@ == text,
    }
}

/// Calls `serde_json::to_string_pretty` on `value`.
///
/// What is claimed: the call's outcome depends on `value` alone, so it has
/// a name, `pretty_print(value)`; an `Ok` carries that text and an `Err`
/// comes exactly where there is none. Nothing is claimed of what the text
/// holds or of which values fail.
#[verifier::external_body]
fn pretty_json(value: &serde_json::Value) -> (text: Result<String, serde_json::Error>)
    ensures
        match text {
            Ok(printed) => pretty_print(*value) == Some(printed@),
            Err(_) => pretty_print(*value) is None,
        },
{
    serde_json::to_string_pretty(value)
}

/// Chooses the text that shows a payload: the pretty print where there is
/// one, else the fallback. A payload that cannot be printed never stops an
/// event from being logged.
pub fn payload_text(pretty: Result<String, serde_json::Error>, fallback: String) -> (text: String)
    ensures
        pretty matches Ok(printed) ==> text@ == printed@,
        pretty is Err ==> text@ == fallback@,
{
    match pretty {
        Ok(printed) => printed,
        Err(_) => fallback,
    }
}

/// The text that shows `value`: pretty-printed with indentation, or, should
/// that fail, as `value` displays itself. Both texts are made before the
/// choice, so that [`payload_text`] alone decides.
fn format_json(value: &serde_json::Value) -> (text: String)
    ensures
        payload_shown(*value, text@),
{
    let pretty = pretty_json(value);
    let fallback = value.to_string();
    assert(to_string_from_display_ensures::<serde_json::Value>(value, fallback));
    payload_text(pretty, fallback)
}

/// A write of `message` to the pipe of the session called `name`.
pub open spec fn write_to(name: Seq<char>, message: Seq<char>) -> ActionView {
    ActionView::Write { path: pipe_path_of(name), message }
}

/// The logger of one session. It renders events and says what to write; it
/// never fails.
#[derive(Debug)]
pub struct DebugLogger {
    tmux: TmuxSession,
}

impl View for DebugLogger {
    type V = SessionView;

    /// A logger is known by its session.
    closed spec fn view(&self) -> SessionView {
        self.tmux@
    }
}

impl DebugLogger {
    /// Makes the logger of `tmux` and the write of its banner, which names
    /// the session, the time and the four markers.
    ///
    /// The banner is the first thing written. If its write fails (see
    /// [`TmuxSession::finish_write`]) the viewer is not listening: the
    /// caller gives the logger up and takes the session down.
    pub fn new(tmux: TmuxSession) -> (start: (DebugLogger, HostAction))
        ensures
            start.0@ == tmux@,
            exists|started: Seq<char>| start.1@ == write_to(
                tmux@.name,
                #[trigger] banner_text(tmux@.name, started),
            ),
    {
        let logger = DebugLogger { tmux };
        let banner = logger.write_header();
        (logger, banner)
    }

    /// The write of the banner.
    fn write_header(&self) -> (action: HostAction)
        ensures
            exists|started: Seq<char>| action@ == write_to(
                self@.name,
                #[trigger] banner_text(self@.name, started),
            ),
    {
        let started = utc_now_text(STARTED_PATTERN);
        let header = format_banner(self.tmux.session_name(), started.as_str());
        assert(header@ == banner_text(self@.name, started@));
        self.tmux.write(header.as_str())
    }

    /// The time of an event, as it is shown in a heading.
    fn timestamp() -> String {
        utc_now_text(STAMP_PATTERN)
    }

    /// Frames an event at the present time and hands out its write.
    fn log_block(&self, kind: EventKind, title: &str, body: &str) -> (action: HostAction)
        ensures
            exists|stamp: Seq<char>| action@ == write_to(
                self@.name,
                #[trigger] block_text(kind, stamp, title@, body@),
            ),
    {
        let stamp = Self::timestamp();
        let msg = format_block(kind, stamp.as_str(), title, body);
        assert(msg@ == block_text(kind, stamp@, title@, body@));
        self.tmux.write(msg.as_str())
    }

    /// The write that shows the frontend calling `command` with `params`.
    pub fn log_invoke(&self, command: &str, params: &serde_json::Value) -> (action: HostAction)
        ensures
            exists|stamp: Seq<char>, body: Seq<char>|
                payload_shown(*params, body) && action@ == write_to(
                    self@.name,
                    #[trigger] block_text(EventKind::Invoke, stamp, command@, body),
                ),
    {
        let body = format_json(params);
        self.log_block(EventKind::Invoke, command, body.as_str())
    }

    /// The write that shows the backend answering `command` with `result`
    /// after `duration_ms` milliseconds.
    pub fn log_response(&self, command: &str, result: &serde_json::Value, duration_ms: u64) -> (action:
        HostAction)
        ensures
            exists|stamp: Seq<char>, body: Seq<char>|
                payload_shown(*result, body) && action@ == write_to(
                    self@.name,
                    #[trigger] block_text(
                        EventKind::Response,
                        stamp,
                        response_title(command@, duration_ms as nat),
                        body,
                    ),
                ),
    {
        let body = format_json(result);
        let title = format_response_title(command, duration_ms);
        self.log_block(EventKind::Response, title.as_str(), body.as_str())
    }

    /// The write that shows the backend emitting `event` with `payload`.
    pub fn log_event(&self, event: &str, payload: &serde_json::Value) -> (action: HostAction)
        ensures
            exists|stamp: Seq<char>, body: Seq<char>|
                payload_shown(*payload, body) && action@ == write_to(
                    self@.name,
                    #[trigger] block_text(EventKind::Event, stamp, event@, body),
                ),
    {
        let body = format_json(payload);
        self.log_block(EventKind::Event, event, body.as_str())
    }

    /// The write that shows `command` failing with `error`. The message is
    /// the body of the block, as it stands.
    pub fn log_error(&self, command: &str, error: &str) -> (action: HostAction)
        ensures
            exists|stamp: Seq<char>| action@ == write_to(
                self@.name,
                #[trigger] block_text(EventKind::Error, stamp, command@, error@),
            ),
    {
        self.log_block(EventKind::Error, command, error)
    }

    /// The write of `msg` as it stands, without a frame.
    pub fn log_raw(&self, msg: &str) -> (action: HostAction)
        ensures
            action@ == write_to(self@.name, msg@),
    {
        self.tmux.write(msg)
    }

    /// Judges how the write of an event ended. A write that failed is never
    /// an error for the one who logged: at most there is a warning to note
    /// beside the stream, and the event is lost.
    pub fn write_warning(outcome: WriteOutcome) -> (warning: Option<String>)
        ensures
            match outcome@ {
                WriteOutcomeView::Written => warning is None,
                WriteOutcomeView::Failed { stage, reason } => warning matches Some(text) && text@
                    == write_warning_text(write_error(stage, reason)),
            },
    {
        match TmuxSession::finish_write(outcome) {
            Ok(()) => None,
            Err(e) => {
                let mut text = String::from_str("Failed to write debug log: ");
                text.append(e.as_str());
                Some(text)
            },
        }
    }

    /// The session that the logger writes to.
    pub fn session(&self) -> (tmux: &TmuxSession)
        ensures
            tmux@ == self@,
    {
        &self.tmux
    }

    /// The two actions that take the logger's session down; see
    /// [`TmuxSession::destroy`].
    pub fn shutdown(&self) -> (plan: (HostAction, HostAction))
        ensures
            plan.0@ == kill_viewer(self@.name),
            plan.1@ == remove_pipe(self@.name),
    {
        self.tmux.destroy()
    }

    /// Judges how the removal of the pipe ended; see
    /// [`TmuxSession::finish_destroy`].
    pub fn finish_shutdown(&mut self, removal: Outcome) -> (result: Result<(), String>)
        ensures
            final(self)@.name == old(self)@.name,
            result is Ok <==> destroy_succeeds(removal@),
            old(self)@.lifecycle == Lifecycle::Destroyed ==> final(self)@.lifecycle
                == Lifecycle::Destroyed,
            match removal@ {
                OutcomeView::Failed(reason) => {
                    &&& result matches Err(e) && e@ == "Failed to remove pipe: "@ + reason
                    &&& final(self)@ == old(self)@
                },
                _ => result is Ok && final(self)@.lifecycle == Lifecycle::Destroyed,
            },
    {
        self.tmux.finish_destroy(removal)
    }
}

/// Whether `text` is one whole block.
pub open spec fn is_block(text: Seq<char>) -> bool {
    exists|kind: EventKind, stamp: Seq<char>, title: Seq<char>, body: Seq<char>|
        text == #[trigger] block_text(kind, stamp, title, body)
}

/// What the pipe has received after the writes of `messages`, carried out
/// one after the other: every message, each followed by its line feed.
pub open spec fn stream_of(messages: Seq<Seq<char>>) -> Seq<char>
    decreases messages.len(),
{
    if messages.len() == 0 {
        Seq::empty()
    } else {
        stream_of(messages.drop_last()) + line_written(messages.last())
    }
}

/// Whether `stream` is made of exactly `count` whole blocks, each followed
/// by its line feed, with nothing before, between or after them.
pub open spec fn holds_blocks(stream: Seq<char>, count: nat) -> bool {
    exists|blocks: Seq<Seq<char>>|
        {
            &&& blocks.len() == count
            &&& forall|i: int| 0 <= i < blocks.len() ==> is_block(#[trigger] blocks[i])
            &&& stream == #[trigger] stream_of(blocks)
        }
}

/// Every block opens with an empty line and the heavy rule and closes with
/// the same rule, which is eighty characters wide.
pub proof fn lemma_block_is_delimited(
    kind: EventKind,
    stamp: Seq<char>,
    title: Seq<char>,
    body: Seq<char>,
)
    ensures
        HEAVY_RULE@.len() == 80,
        ("\n"@ + HEAVY_RULE@).is_prefix_of(block_text(kind, stamp, title, body)),
        HEAVY_RULE@.is_suffix_of(block_text(kind, stamp, title, body)),
{
    reveal_strlit(
        "════════════════════════════════════════════════════════════════════════════════",
    );
    let block = block_text(kind, stamp, title, body);
    let opening = "\n"@ + HEAVY_RULE@;
    let middle = "\n"@ + heading_text(kind, stamp, title) + "\n"@ + LIGHT_RULE@ + "\n"@ + body
        + "\n"@;
    assert(block =~= opening + middle + HEAVY_RULE@);
    assert(block.subrange(0, opening.len() as int) =~= opening);
    assert(block.subrange(block.len() - HEAVY_RULE@.len(), block.len() as int) =~= HEAVY_RULE@);
}

/// When the writes of any number of blocks are carried out one at a time,
/// the pipe holds exactly that many whole blocks and nothing else: no block
/// is split and nothing stands between two of them but the line feed.
///
/// One at a time is what the caller's lock is for; this says what then
/// follows.
pub proof fn lemma_stream_holds_blocks(messages: Seq<Seq<char>>)
    requires
        forall|i: int| 0 <= i < messages.len() ==> is_block(#[trigger] messages[i]),
    ensures
        holds_blocks(stream_of(messages), messages.len()),
{
}

/// The stream grows by whole writes: after one more write it is what it
/// was, then the message, then one line feed.
pub proof fn lemma_stream_grows_by_writes(messages: Seq<Seq<char>>, message: Seq<char>)
    ensures
        stream_of(messages.push(message)) == stream_of(messages) + message + "\n"@,
{
    reveal_strlit("\n");
    assert(messages.push(message).drop_last() =~= messages);
    assert(line_written(message) =~= message + "\n"@);
    assert(stream_of(messages) + line_written(message) =~= stream_of(messages) + message + "\n"@);
}

} // verus!
