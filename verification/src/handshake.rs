//! The handshake that brings a voice modem into audio-receive mode.
//!
//! The session is a state machine. It never touches the serial link: it
//! tells its driver what to do next (send bytes, poll the link, sleep) and
//! is told what came of it. Commands run strictly in order and the first
//! failure ends the session, since a modem that answered wrongly is in an
//! unknown state and must not be driven further.

use vstd::prelude::*;
use vstd::string::*;
use vstd::utf8::encode_utf8;
use crate::link::LinkError;
use crate::reply::{judge_reply, verdict_of, ReplyVerdict, VerdictView};

verus! {

/// How long a command waits for its reply unless it says otherwise.
pub const DEFAULT_COMMAND_TIMEOUT_MS: u64 = 2000;

/// The pause after a read that timed out.
pub const READ_TIMEOUT_BACKOFF_MS: u64 = 250;

/// The pause after a poll that found no bytes.
pub const IDLE_BACKOFF_MS: u64 = 100;

/// The byte that terminates a command on the wire.
pub const CARRIAGE_RETURN: u8 = 13;

/// One AT command with the reply that confirms it.
#[derive(Clone, Debug, PartialEq, Eq)]
pub struct Command {
    /// The text to send, without its terminator.
    pub text: String,
    /// The normalised reply that confirms the command.
    pub expected: String,
    /// How long to wait for the reply, in milliseconds.
    pub timeout_ms: u64,
}

/// A command with its texts as sequences of characters.
pub struct CommandView {
    pub text: Seq<char>,
    pub expected: Seq<char>,
    pub timeout_ms: u64,
}

impl View for Command {
    type V = CommandView;

    open spec fn view(&self) -> CommandView {
        CommandView { text: self.text@, expected: self.expected@, timeout_ms: self.timeout_ms }
    }
}

impl Command {
    /// A command with the default timeout.
    pub fn new(text: &str, expected: &str) -> (c: Command)
        ensures
            c@ == (CommandView {
                text: text@,
                expected: expected@,
                timeout_ms: DEFAULT_COMMAND_TIMEOUT_MS,
            }),
    {
        Command {
            text: String::from_str(text),
            expected: String::from_str(expected),
            timeout_ms: DEFAULT_COMMAND_TIMEOUT_MS,
        }
    }

    /// The same command with another timeout.
    pub fn with_timeout(self, timeout_ms: u64) -> (c: Command)
        ensures
            c@ == (CommandView { timeout_ms, ..self@ }),
    {
        Command { text: self.text, expected: self.expected, timeout_ms }
    }

    /// The bytes that go over the wire for this command.
    pub fn wire_bytes(&self) -> (bytes: Vec<u8>)
        ensures
            bytes@ == wire_form(self@.text),
    {
        let mut bytes = self.text.as_str().as_bytes_vec();
        bytes.push(CARRIAGE_RETURN);
        bytes
    }
}

/// A command's text as it is written to the link: its UTF-8 bytes and a
/// carriage return.
pub open spec fn wire_form(text: Seq<char>) -> Seq<u8> {
    encode_utf8(text).push(CARRIAGE_RETURN)
}

/// A command with the default timeout, as the contracts see it.
pub open spec fn command_view(text: &str, expected: &str) -> CommandView {
    CommandView { text: text@, expected: expected@, timeout_ms: DEFAULT_COMMAND_TIMEOUT_MS }
}

/// The commands that bring the modem into voice-receive mode, in order:
/// reset, echo off, voice mode, speaker on, receive gain, 8 kHz linear PCM,
/// a liveness check, and the switch to streaming, which alone is answered
/// by `CONNECT`.
pub open spec fn voice_receive_script() -> Seq<CommandView> {
    seq![
        command_view("ATZ", "OK"),
        command_view("ATE0", "OK"),
        command_view("AT+FCLASS=8", "OK"),
        command_view("AT+VLS=1", "OK"),
        command_view("AT+VGR=3", "OK"),
        command_view("AT+VSM=1,8000", "OK"),
        command_view("AT", "OK"),
        command_view("AT+VRX", "CONNECT"),
    ]
}

/// The commands that bring the modem into voice-receive mode.
pub fn voice_receive_commands() -> (commands: Vec<Command>)
    ensures
        Seq::new(commands@.len(), |i: int| commands@[i]@) == voice_receive_script(),
{
    let mut commands: Vec<Command> = Vec::new();
    commands.push(Command::new("ATZ", "OK"));
    commands.push(Command::new("ATE0", "OK"));
    commands.push(Command::new("AT+FCLASS=8", "OK"));
    commands.push(Command::new("AT+VLS=1", "OK"));
    commands.push(Command::new("AT+VGR=3", "OK"));
    commands.push(Command::new("AT+VSM=1,8000", "OK"));
    commands.push(Command::new("AT", "OK"));
    commands.push(Command::new("AT+VRX", "CONNECT"));
    assert(Seq::new(commands@.len(), |i: int| commands@[i]@) =~= voice_receive_script());
    commands
}

/// How a handshake ended.
#[derive(Clone, Debug, PartialEq, Eq)]
pub enum SessionOutcome {
    /// Every command was confirmed: the modem is ready to stream audio.
    Success,
    /// A command was not confirmed.
    Failure {
        /// The text of the command that failed.
        command: String,
        /// The normalised reply that came instead, or `None` for no reply.
        reply: Option<String>,
    },
}

/// An outcome with its texts as sequences of characters.
pub enum OutcomeView {
    Success,
    Failure { command: Seq<char>, reply: Option<Seq<char>> },
}

impl View for SessionOutcome {
    type V = OutcomeView;

    open spec fn view(&self) -> OutcomeView {
        match self {
            SessionOutcome::Success => OutcomeView::Success,
            SessionOutcome::Failure { command, reply } => OutcomeView::Failure {
                command: command@,
                reply: match reply {
                    Some(text) => Some(text@),
                    None => None,
                },
            },
        }
    }
}

/// What the driver reports to the session.
#[derive(Clone, Debug, PartialEq, Eq)]
pub enum LinkEvent {
    /// The bytes of the last `Send` were written.
    Sent,
    /// The pause of the last `Sleep` is over.
    Woke,
    /// The poll found no bytes waiting.
    Idle,
    /// The read did not complete within the link's deadline.
    TimedOut,
    /// The read yielded these bytes.
    Received(Vec<u8>),
}

/// The event that a poll comes to: bytes are `Received`, an empty read is
/// `Idle`, a timeout is `TimedOut`, and a hard error is no event at all
/// but the end of the run.
pub fn event_of_read(read: Result<Vec<u8>, LinkError>) -> (event: Result<LinkEvent, LinkError>)
    ensures
        match read {
            Ok(bytes) => event == Ok::<LinkEvent, LinkError>(
                if bytes@.len() > 0 {
                    LinkEvent::Received(bytes)
                } else {
                    LinkEvent::Idle
                },
            ),
            Err(LinkError::TimedOut) => event == Ok::<LinkEvent, LinkError>(LinkEvent::TimedOut),
            Err(LinkError::Hard) => event == Err::<LinkEvent, LinkError>(LinkError::Hard),
        },
{
    match read {
        Ok(bytes) => if bytes.len() > 0 {
            Ok(LinkEvent::Received(bytes))
        } else {
            Ok(LinkEvent::Idle)
        },
        Err(LinkError::TimedOut) => Ok(LinkEvent::TimedOut),
        Err(LinkError::Hard) => Err(LinkError::Hard),
    }
}

/// What the session asks of its driver.
#[derive(Clone, Debug, PartialEq, Eq)]
pub enum Action {
    /// Write these bytes, restart the clock, report `Sent`.
    Send(Vec<u8>),
    /// Poll the link and report `Idle`, `TimedOut` or `Received`.
    Poll,
    /// Sleep this many milliseconds and report `Woke`.
    Sleep(u64),
    /// The session is over: take its outcome.
    Finish,
}

/// An action with its bytes as a sequence.
pub enum ActionView {
    Send(Seq<u8>),
    Poll,
    Sleep(u64),
    Finish,
}

impl View for Action {
    type V = ActionView;

    open spec fn view(&self) -> ActionView {
        match self {
            Action::Send(bytes) => ActionView::Send(bytes@),
            Action::Poll => ActionView::Poll,
            Action::Sleep(ms) => ActionView::Sleep(*ms),
            Action::Finish => ActionView::Finish,
        }
    }
}

/// The session as the contracts see it.
pub struct SessionView {
    /// The commands, in the order in which they run.
    pub commands: Seq<CommandView>,
    /// How many commands were confirmed.
    pub confirmed: nat,
    /// The outcome, once the session is over.
    pub outcome: Option<OutcomeView>,
}

/// The session after every command was confirmed, or before the next one.
pub open spec fn after_confirmation(s: SessionView) -> (SessionView, ActionView) {
    let confirmed = s.confirmed + 1;
    if confirmed >= s.commands.len() {
        (
            SessionView { confirmed, outcome: Some(OutcomeView::Success), ..s },
            ActionView::Finish,
        )
    } else {
        (
            SessionView { confirmed, ..s },
            ActionView::Send(wire_form(s.commands[confirmed as int].text)),
        )
    }
}

/// The session after the command in progress failed with this reply.
pub open spec fn after_failure(s: SessionView, reply: Option<Seq<char>>) -> (
    SessionView,
    ActionView,
) {
    (
        SessionView {
            outcome: Some(
                OutcomeView::Failure { command: s.commands[s.confirmed as int].text, reply },
            ),
            ..s
        },
        ActionView::Finish,
    )
}

/// The transition rule: the session and the action that follow from an
/// event reported `elapsed_ms` after the command in progress was sent.
pub open spec fn step_of(s: SessionView, event: LinkEvent, elapsed_ms: u64) -> (
    SessionView,
    ActionView,
) {
    if s.outcome is Some || s.confirmed >= s.commands.len() {
        (s, ActionView::Finish)
    } else {
        let command = s.commands[s.confirmed as int];
        match event {
            LinkEvent::Sent | LinkEvent::Woke => if elapsed_ms > command.timeout_ms {
                after_failure(s, None)
            } else {
                (s, ActionView::Poll)
            },
            LinkEvent::Idle => (s, ActionView::Sleep(IDLE_BACKOFF_MS)),
            LinkEvent::TimedOut => (s, ActionView::Sleep(READ_TIMEOUT_BACKOFF_MS)),
            LinkEvent::Received(bytes) => if bytes@.len() == 0 {
                (s, ActionView::Sleep(IDLE_BACKOFF_MS))
            } else {
                match verdict_of(command.expected, bytes@) {
                    VerdictView::Match => after_confirmation(s),
                    VerdictView::NoReply => after_failure(s, None),
                    VerdictView::Mismatch(text) => after_failure(s, Some(text)),
                }
            },
        }
    }
}

/// The session before its first command, with the action that opens it.
pub open spec fn start_of(commands: Seq<CommandView>) -> (SessionView, ActionView) {
    if commands.len() == 0 {
        (
            SessionView { commands, confirmed: 0, outcome: Some(OutcomeView::Success) },
            ActionView::Finish,
        )
    } else {
        (
            SessionView { commands, confirmed: 0, outcome: None },
            ActionView::Send(wire_form(commands[0].text)),
        )
    }
}

/// What holds of every session that `start_of` and `step_of` can reach: it
/// is over exactly when no command is left or one has failed, success means
/// that every command was confirmed, and a failure names the first command
/// that was not.
pub open spec fn consistent(s: SessionView) -> bool {
    &&& s.confirmed <= s.commands.len()
    &&& match s.outcome {
        None => s.confirmed < s.commands.len(),
        Some(OutcomeView::Success) => s.confirmed == s.commands.len(),
        Some(OutcomeView::Failure { command, reply }) => {
            &&& s.confirmed < s.commands.len()
            &&& command == s.commands[s.confirmed as int].text
        },
    }
}

/// A session opens in a consistent state, whatever its commands.
pub proof fn lemma_start_is_consistent(commands: Seq<CommandView>)
    ensures
        consistent(start_of(commands).0),
        start_of(commands).0.outcome is Some <==> commands.len() == 0,
{
}

/// No event leads out of the consistent states.
pub proof fn lemma_step_keeps_consistency(s: SessionView, event: LinkEvent, elapsed_ms: u64)
    requires
        consistent(s),
    ensures
        consistent(step_of(s, event, elapsed_ms).0),
        step_of(s, event, elapsed_ms).0.commands == s.commands,
{
}

/// A session that is over stays as it is: after a failure no further
/// command is sent, whatever the driver reports.
pub proof fn lemma_finished_session_stays(s: SessionView, event: LinkEvent, elapsed_ms: u64)
    requires
        s.outcome is Some,
    ensures
        step_of(s, event, elapsed_ms) == (s, ActionView::Finish),
{
}

/// Commands are confirmed one at a time, in order, and only by a reply
/// that matches: the count of confirmed commands grows exactly when bytes
/// arrive whose normalised text is the expected reply of the command in
/// progress, and then by one.
pub proof fn lemma_progress_needs_matching_reply(
    s: SessionView,
    event: LinkEvent,
    elapsed_ms: u64,
)
    requires
        consistent(s),
        s.outcome is None,
    ensures
        step_of(s, event, elapsed_ms).0.confirmed == s.confirmed || step_of(
            s,
            event,
            elapsed_ms,
        ).0.confirmed == s.confirmed + 1,
        step_of(s, event, elapsed_ms).0.confirmed == s.confirmed + 1 <==> (event matches LinkEvent::Received(
            bytes,
        ) && bytes@.len() > 0 && verdict_of(s.commands[s.confirmed as int].expected, bytes@)
            == VerdictView::Match),
{
}

/// The session fails exactly when the command in progress ran out of time
/// before a poll, or bytes arrived that do not make the expected reply; the
/// failure names that command, and carries the reply where there was one.
pub proof fn lemma_failure_names_the_command(s: SessionView, event: LinkEvent, elapsed_ms: u64)
    requires
        consistent(s),
        s.outcome is None,
        step_of(s, event, elapsed_ms).0.outcome matches Some(OutcomeView::Failure { .. }),
    ensures
        step_of(s, event, elapsed_ms).0.outcome->0->command == s.commands[s.confirmed as int].text,
        step_of(s, event, elapsed_ms).0.confirmed == s.confirmed,
        match event {
            LinkEvent::Sent | LinkEvent::Woke => {
                &&& elapsed_ms > s.commands[s.confirmed as int].timeout_ms
                &&& step_of(s, event, elapsed_ms).0.outcome->0->reply is None
            },
            LinkEvent::Received(bytes) => {
                &&& bytes@.len() > 0
                &&& match verdict_of(s.commands[s.confirmed as int].expected, bytes@) {
                    VerdictView::Match => false,
                    VerdictView::NoReply => step_of(s, event, elapsed_ms).0.outcome->0->reply
                        is None,
                    VerdictView::Mismatch(text) => step_of(s, event, elapsed_ms).0.outcome->0->reply
                        == Some(text),
                }
            },
            _ => false,
        },
{
}

/// The session succeeds only by confirming its last command.
pub proof fn lemma_success_needs_last_confirmation(
    s: SessionView,
    event: LinkEvent,
    elapsed_ms: u64,
)
    requires
        consistent(s),
        s.outcome is None,
        step_of(s, event, elapsed_ms).0.outcome == Some(OutcomeView::Success),
    ensures
        s.confirmed + 1 == s.commands.len(),
        step_of(s, event, elapsed_ms).0.confirmed == s.commands.len(),
        event matches LinkEvent::Received(bytes) && verdict_of(
            s.commands[s.confirmed as int].expected,
            bytes@,
        ) == VerdictView::Match,
{
}

/// The session after a run of events, each with the time that had passed
/// since the command in progress was sent.
pub open spec fn session_after(s: SessionView, events: Seq<(LinkEvent, u64)>) -> SessionView
    decreases events.len(),
{
    if events.len() == 0 {
        s
    } else {
        step_of(session_after(s, events.drop_last()), events.last().0, events.last().1).0
    }
}

/// Whatever the driver reports, and for however long, the session stays
/// consistent, keeps its commands, and never takes a confirmation back.
pub proof fn lemma_run_keeps_consistency(s: SessionView, events: Seq<(LinkEvent, u64)>)
    requires
        consistent(s),
    ensures
        consistent(session_after(s, events)),
        session_after(s, events).commands == s.commands,
        session_after(s, events).confirmed >= s.confirmed,
    decreases events.len(),
{
    if events.len() > 0 {
        lemma_run_keeps_consistency(s, events.drop_last());
    }
}

/// The first outcome is the last: once a run of events has ended the
/// session, no later event changes the outcome or confirms a command.
pub proof fn lemma_outcome_is_final(s: SessionView, events: Seq<(LinkEvent, u64)>, k: int)
    requires
        0 <= k <= events.len(),
        session_after(s, events.take(k)).outcome is Some,
    ensures
        session_after(s, events) == session_after(s, events.take(k)),
    decreases events.len(),
{
    if k == events.len() {
        assert(events.take(k) =~= events);
    } else {
        assert(events.drop_last().take(k) =~= events.take(k));
        lemma_outcome_is_final(s, events.drop_last(), k);
    }
}

/// A handshake in progress.
pub struct ModemSession {
    commands: Vec<Command>,
    confirmed: usize,
    outcome: Option<SessionOutcome>,
}

impl View for ModemSession {
    type V = SessionView;

    closed spec fn view(&self) -> SessionView {
        SessionView {
            commands: Seq::new(self.commands@.len(), |i: int| self.commands@[i]@),
            confirmed: self.confirmed as nat,
            outcome: match self.outcome {
                Some(o) => Some(o@),
                None => None,
            },
        }
    }
}

impl ModemSession {
    /// Opens a session on `commands` and says what to do first.
    pub fn start(commands: Vec<Command>) -> (opened: (ModemSession, Action))
        ensures
            (opened.0@, opened.1@) == start_of(Seq::new(commands@.len(), |i: int| commands@[i]@)),
            consistent(opened.0@),
    {
        if commands.len() == 0 {
            let session = ModemSession {
                commands,
                confirmed: 0,
                outcome: Some(SessionOutcome::Success),
            };
            (session, Action::Finish)
        } else {
            let first = commands[0].wire_bytes();
            let session = ModemSession { commands, confirmed: 0, outcome: None };
            (session, Action::Send(first))
        }
    }

    /// Whether the session is over.
    pub fn is_finished(&self) -> (over: bool)
        ensures
            over == self@.outcome is Some,
    {
        self.outcome.is_some()
    }

    /// How many commands were confirmed so far.
    pub fn confirmed(&self) -> (n: usize)
        ensures
            n == self@.confirmed,
    {
        self.confirmed
    }

    /// Ends the session and hands out its outcome: `None` while commands
    /// are still to be confirmed.
    pub fn into_outcome(self) -> (outcome: Option<SessionOutcome>)
        ensures
            match outcome {
                Some(o) => self@.outcome == Some(o@),
                None => self@.outcome is None,
            },
    {
        self.outcome
    }

    fn fail(&mut self, reply: Option<String>) -> (action: Action)
        requires
            consistent(old(self)@),
            old(self)@.outcome is None,
        ensures
            (final(self)@, action@) == after_failure(
                old(self)@,
                match reply {
                    Some(text) => Some(text@),
                    None => None,
                },
            ),
            consistent(final(self)@),
    {
        let command = self.commands[self.confirmed].text.clone();
        self.outcome = Some(SessionOutcome::Failure { command, reply });
        Action::Finish
    }

    fn confirm(&mut self) -> (action: Action)
        requires
            consistent(old(self)@),
            old(self)@.outcome is None,
        ensures
            (final(self)@, action@) == after_confirmation(old(self)@),
            consistent(final(self)@),
    {
        let total = self.commands.len();
        assert(self.confirmed < total);
        self.confirmed = self.confirmed + 1;
        if self.confirmed >= total {
            self.outcome = Some(SessionOutcome::Success);
            Action::Finish
        } else {
            Action::Send(self.commands[self.confirmed].wire_bytes())
        }
    }

    /// Takes in what the driver reports, `elapsed_ms` after the command in
    /// progress was sent, and says what to do next.
    pub fn step(&mut self, event: &LinkEvent, elapsed_ms: u64) -> (action: Action)
        requires
            consistent(old(self)@),
        ensures
            (final(self)@, action@) == step_of(old(self)@, *event, elapsed_ms),
            consistent(final(self)@),
    {
        if self.outcome.is_some() {
            return Action::Finish;
        }
        match event {
            LinkEvent::Sent | LinkEvent::Woke => {
                if elapsed_ms > self.commands[self.confirmed].timeout_ms {
                    self.fail(None)
                } else {
                    Action::Poll
                }
            },
            LinkEvent::Idle => Action::Sleep(IDLE_BACKOFF_MS),
            LinkEvent::TimedOut => Action::Sleep(READ_TIMEOUT_BACKOFF_MS),
            LinkEvent::Received(bytes) => {
                if bytes.len() == 0 {
                    Action::Sleep(IDLE_BACKOFF_MS)
                } else {
                    match judge_reply(&self.commands[self.confirmed].expected, bytes) {
                        ReplyVerdict::Match => self.confirm(),
                        ReplyVerdict::NoReply => self.fail(None),
                        ReplyVerdict::Mismatch(text) => self.fail(Some(text)),
                    }
                }
            },
        }
    }
}

} // verus!
