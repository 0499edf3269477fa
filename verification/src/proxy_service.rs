//! The proxy lifecycle state machine: one structure owns the server's
//! status, the online count, and the anti-spam clock; requests and poll
//! outcomes drive it through exact transition functions. The task loop,
//! the channels and the timers around it live outside the library.

use vstd::prelude::*;

use crate::error::ProxyResponseError;
use crate::online_poller::InnerError;
use crate::text::{dec_digits, u32_string};

verus! {

/// Milliseconds that must pass between two spam-protected commands.
pub const SPAM_WINDOW_MS: u64 = 5000;

/// Address of the child's TCP command service.
pub const RCON_ADDRESS: &'static str = "127.0.0.1:25567";

/// The command service's fixed password.
pub const RCON_PASSWORD: &'static str = "M1n3cr@ft";

/// Capacity of the inbound request channel.
pub const INBOUND_CHANNEL_CAPACITY: usize = 16;

/// Milliseconds between two poll ticks.
pub const POLL_PERIOD_MS: u64 = 5000;

/// How many times the shutdown command is attempted.
pub const SHUTDOWN_ATTEMPTS: u64 = 3;

/// Milliseconds between two shutdown attempts.
pub const SHUTDOWN_RETRY_DELAY_MS: u64 = 5000;

/// One command requested over the inbound channel.
#[derive(Debug, Clone, PartialEq, Eq)]
pub enum ProxyMessage {
    Ban { nickname: String, reason: Option<String> },
    Pardon { nickname: String },
    Kick { nickname: String, reason: Option<String> },
    WhitelistAdd { nickname: String },
    WhitelistRemove { nickname: String },
    OpAdd { nickname: String },
    DeOp { nickname: String },
    GenerateWorld { radius: u16 },
    CancelGeneration,
    Ping,
    Quit,
}

/// The one reply produced for each request. (On the wire the variants keep
/// their traditional names; `Success` and `Failure` stand for "ok" and
/// "err".)
#[derive(Debug, Clone, PartialEq, Eq)]
pub enum ProxyResponse {
    NotReady,
    Success { response: String },
    Failure { error: String },
}

/// The lifecycle state; the `Starting` and `Idle` variants carry the
/// millisecond instant at which that phase began.
#[derive(Debug, Clone, Copy, PartialEq, Eq, Structural)]
pub enum ServerStatus {
    Starting(u64),
    Idle(u64),
    Busy,
}

/// Milliseconds passed from `since` to `now` (zero if `now` lies before
/// `since`, which a monotonic clock never produces).
pub open spec fn elapsed(since: u64, now: u64) -> nat {
    if now >= since {
        (now - since) as nat
    } else {
        0
    }
}

fn elapsed_ms(since: u64, now: u64) -> (r: u64)
    ensures
        r == elapsed(since, now),
{
    if now >= since {
        now - since
    } else {
        0
    }
}

/// The character sequence of an `Option<String>`.
pub open spec fn opt_text(o: Option<String>) -> Option<Seq<char>> {
    match o {
        Option::Some(s) => Option::Some(s@),
        Option::None => Option::None,
    }
}

/// Text of the ban command: the reason is appended only when present.
pub open spec fn spec_ban_command(nickname: Seq<char>, reason: Option<Seq<char>>) -> Seq<char> {
    match reason {
        Option::Some(r) => "/ban "@ + nickname + " "@ + r,
        Option::None => "/ban "@ + nickname,
    }
}

/// Text of the kick command: the reason is appended only when present.
pub open spec fn spec_kick_command(nickname: Seq<char>, reason: Option<Seq<char>>) -> Seq<char> {
    match reason {
        Option::Some(r) => "/kick "@ + nickname + " "@ + r,
        Option::None => "/kick "@ + nickname,
    }
}

fn join_command(verb: &str, nickname: &String, reason: &Option<String>) -> (r: String)
    ensures
        r@ == (match opt_text(*reason) {
            Option::Some(re) => verb@ + nickname@ + " "@ + re,
            Option::None => verb@ + nickname@,
        }),
{
    match reason {
        Option::Some(re) => String::from_str(verb).concat(nickname.as_str()).concat(" ").concat(
            re.as_str(),
        ),
        Option::None => String::from_str(verb).concat(nickname.as_str()),
    }
}

/// Builds the ban command.
pub fn ban_command(nickname: &String, reason: &Option<String>) -> (r: String)
    ensures
        r@ == spec_ban_command(nickname@, opt_text(*reason)),
{
    join_command("/ban ", nickname, reason)
}

/// Builds the kick command.
pub fn kick_command(nickname: &String, reason: &Option<String>) -> (r: String)
    ensures
        r@ == spec_kick_command(nickname@, opt_text(*reason)),
{
    join_command("/kick ", nickname, reason)
}

/// Builds the pardon command.
pub fn pardon_command(nickname: &String) -> (r: String)
    ensures
        r@ == "/pardon "@ + nickname@,
{
    String::from_str("/pardon ").concat(nickname.as_str())
}

/// Builds the whitelist-add command.
pub fn whitelist_add_command(nickname: &String) -> (r: String)
    ensures
        r@ == "/whitelist add "@ + nickname@,
{
    String::from_str("/whitelist add ").concat(nickname.as_str())
}

/// Builds the whitelist-remove command.
pub fn whitelist_remove_command(nickname: &String) -> (r: String)
    ensures
        r@ == "/whitelist remove "@ + nickname@,
{
    String::from_str("/whitelist remove ").concat(nickname.as_str())
}

/// Builds the op command.
pub fn op_command(nickname: &String) -> (r: String)
    ensures
        r@ == "/op "@ + nickname@,
{
    String::from_str("/op ").concat(nickname.as_str())
}

/// Builds the de-op command.
pub fn deop_command(nickname: &String) -> (r: String)
    ensures
        r@ == "/deop "@ + nickname@,
{
    String::from_str("/deop ").concat(nickname.as_str())
}

/// Builds the command that bounds world generation.
pub fn generate_world_command(radius: u16) -> (r: String)
    ensures
        r@ == "/chunky radius "@ + dec_digits(radius as nat),
{
    let num = u32_string(radius as u32);
    String::from_str("/chunky radius ").concat(num.as_str())
}

/// True for the messages that reach the command client (everything except
/// `Ping` and `Quit`, which are answered locally).
pub open spec fn is_command(m: ProxyMessage) -> bool {
    !(m is Ping || m is Quit)
}

/// The full command sequence a request issues when nothing fails.
pub open spec fn spec_commands_of(m: ProxyMessage) -> Seq<Seq<char>> {
    match m {
        ProxyMessage::Ban { nickname, reason } => seq![
            spec_ban_command(nickname@, opt_text(reason)),
        ],
        ProxyMessage::Pardon { nickname } => seq!["/pardon "@ + nickname@],
        ProxyMessage::Kick { nickname, reason } => seq![
            spec_kick_command(nickname@, opt_text(reason)),
        ],
        ProxyMessage::WhitelistAdd { nickname } => seq!["/whitelist add "@ + nickname@],
        ProxyMessage::WhitelistRemove { nickname } => seq!["/whitelist remove "@ + nickname@],
        ProxyMessage::OpAdd { nickname } => seq!["/op "@ + nickname@],
        ProxyMessage::DeOp { nickname } => seq!["/deop "@ + nickname@],
        ProxyMessage::GenerateWorld { radius } => seq![
            "/chunky radius "@ + dec_digits(radius as nat),
            "/chunky start"@,
        ],
        ProxyMessage::CancelGeneration => seq!["/chunky cancel"@],
        ProxyMessage::Ping => Seq::empty(),
        ProxyMessage::Quit => Seq::empty(),
    }
}

/// The proxy's state. The ghost fields record the history the laws and
/// contracts speak of: the instants of successful spam-protected
/// executions, every command execution the service attempted, and the
/// reply body of every execution that succeeded.
pub struct ProxyService {
    pub status: ServerStatus,
    /// Milliseconds of idleness after which the loop exits.
    pub idle_timeout: u64,
    /// The count the most recent successful poll reported.
    pub current_online: u32,
    /// Instant of the most recent successfully executed command.
    pub last_request_time: u64,
    /// Instants of the successful spam-protected executions, in order.
    pub protected_execs: Ghost<Seq<u64>>,
    /// Every command whose execution was attempted, in order; a command
    /// blocked by the anti-spam guard is never attempted.
    pub sent_commands: Ghost<Seq<Seq<char>>>,
    /// The reply body of every successful execution, in order.
    pub exec_results: Ghost<Seq<Seq<char>>>,
}

impl ProxyService {
    /// Well-formedness: successive spam-protected executions lie at least
    /// the anti-spam window apart, and none lies after the anti-spam clock.
    pub open spec fn wf(self) -> bool {
        &&& forall|i: int|
            0 <= i < self.protected_execs@.len() - 1 ==> self.protected_execs@[i]
                + SPAM_WINDOW_MS <= #[trigger] self.protected_execs@[i + 1]
        &&& self.protected_execs@.len() > 0 ==> self.protected_execs@.last()
            <= self.last_request_time
    }

    /// A fresh proxy: starting now, nobody online, the anti-spam clock set
    /// to now, empty history.
    pub fn new(idle_timeout: u64, now: u64) -> (s: ProxyService)
        ensures
            s.wf(),
            s.status == ServerStatus::Starting(now),
            s.idle_timeout == idle_timeout,
            s.current_online == 0,
            s.last_request_time == now,
            s.protected_execs@ == Seq::<u64>::empty(),
            s.sent_commands@ == Seq::<Seq<char>>::empty(),
            s.exec_results@ == Seq::<Seq<char>>::empty(),
    {
        ProxyService {
            status: ServerStatus::Starting(now),
            idle_timeout,
            current_online: 0,
            last_request_time: now,
            protected_execs: Ghost(Seq::empty()),
            sent_commands: Ghost(Seq::empty()),
            exec_results: Ghost(Seq::empty()),
        }
    }

    /// Executes one command against the command client: when the anti-spam
    /// guard allows it, opens a connection, authenticates with the fixed
    /// password and sends the command. Only a successful execution advances
    /// the anti-spam clock.
    pub fn send_command(&mut self, command: String, protect_from_spam: bool, now: u64) -> (r:
        Result<String, ProxyResponseError>)
        requires
            old(self).wf(),
            now >= old(self).last_request_time,
        ensures
            final (self).wf(),
            final (self).status == old(self).status,
            final (self).idle_timeout == old(self).idle_timeout,
            final (self).current_online == old(self).current_online,
            // the guard: blocked exactly when protection is on and the window
            // has not passed; nothing is sent then
            r == Result::<String, ProxyResponseError>::Err(ProxyResponseError::Spam)
                <==> (protect_from_spam && elapsed(old(self).last_request_time, now)
                < SPAM_WINDOW_MS),
            r is Err && r != Result::<String, ProxyResponseError>::Err(ProxyResponseError::Spam)
                ==> (r matches Result::Err(e) && (e is McServerConnect || e is McServerAuth
                || e is McServerCommand)),
            // the command history: the guard either blocks everything or
            // exactly this command is handed on
            (protect_from_spam && elapsed(old(self).last_request_time, now) < SPAM_WINDOW_MS)
                ==> *final (self) == *old(self),
            !(protect_from_spam && elapsed(old(self).last_request_time, now) < SPAM_WINDOW_MS)
                ==> final (self).sent_commands@ == old(self).sent_commands@.push(command@),
            // the anti-spam clock and the protected history move only on
            // success
            r is Err ==> final (self).last_request_time == old(self).last_request_time
                && final (self).protected_execs == old(self).protected_execs,
            r is Ok ==> final (self).last_request_time == now,
            r is Ok && protect_from_spam ==> final (self).protected_execs@ == old(self).protected_execs@.push(now),
            r is Ok && !protect_from_spam ==> final (self).protected_execs == old(self).protected_execs,
            // the reply history: a success records exactly its reply body
            r is Err ==> final (self).exec_results == old(self).exec_results,
            r matches Result::Ok(body) ==> final (self).exec_results@ == old(self).exec_results@.push(body@),
    {
        if protect_from_spam && elapsed_ms(self.last_request_time, now) < SPAM_WINDOW_MS {
            return Err(ProxyResponseError::Spam);
        }
        self.sent_commands = Ghost(self.sent_commands@.push(command@));
        let mut client = match crate::rcon::connect(RCON_ADDRESS) {
            Ok(c) => c,
            Err(e) => {
                return Err(ProxyResponseError::McServerConnect(e));
            },
        };
        match crate::rcon::authenticate(&mut client, RCON_PASSWORD) {
            Ok(_m) => {},
            Err(e) => {
                return Err(ProxyResponseError::McServerAuth(e));
            },
        };
        let body = match crate::rcon::send_command(&mut client, command.as_str()) {
            Ok(b) => b,
            Err(e) => {
                return Err(ProxyResponseError::McServerCommand(e));
            },
        };
        self.last_request_time = now;
        if protect_from_spam {
            self.protected_execs = Ghost(self.protected_execs@.push(now));
        }
        self.exec_results = Ghost(self.exec_results@.push(body@));
        Ok(body)
    }

    /// Runs one single-command request: execute under the anti-spam guard
    /// and fold the outcome into the one reply. A success reply carries the
    /// transport's reply body verbatim; a failure reply carries the message
    /// of the error that stopped the execution.
    fn run_single(&mut self, command: String, now: u64) -> (r: (ProxyResponse, bool))
        requires
            old(self).wf(),
            now >= old(self).last_request_time,
        ensures
            final (self).wf(),
            final (self).status == old(self).status,
            final (self).idle_timeout == old(self).idle_timeout,
            final (self).current_online == old(self).current_online,
            now >= final (self).last_request_time,
            r.1 == false,
            !(r.0 is NotReady),
            elapsed(old(self).last_request_time, now) < SPAM_WINDOW_MS ==> *final (self) == *old(self) && (r.0 matches ProxyResponse::Failure { error } && error@
                == ProxyResponseError::Spam.spec_message()),
            elapsed(old(self).last_request_time, now) >= SPAM_WINDOW_MS ==> final (self).sent_commands@ == old(self).sent_commands@.push(command@),
            r.0 is Success ==> final (self).sent_commands@ == old(self).sent_commands@.push(
                command@,
            ),
            // the reply is the transport's reply: a success hands the body
            // on verbatim, and records it
            r.0 matches ProxyResponse::Success { response } ==> final (self).exec_results@ == old(self).exec_results@.push(response@),
            r.0 is Failure ==> final (self).exec_results == old(self).exec_results,
            // a failure reply carries the message of a client-class error
            r.0 matches ProxyResponse::Failure { error } ==> (exists|e: ProxyResponseError|
                e.spec_client_error() && error@ == #[trigger] e.spec_message()),
    {
        match self.send_command(command, true, now) {
            Ok(body) => (ProxyResponse::Success { response: body }, false),
            Err(e) => {
                let msg = e.message();
                proof {
                    assert(e.spec_client_error() && msg@ == e.spec_message());
                }
                (ProxyResponse::Failure { error: msg }, false)
            },
        }
    }

    /// Handles one request: while the server is still starting every
    /// request is answered `NotReady` and nothing reaches the command
    /// client; `Ping` and `Quit` are answered locally; everything else is
    /// translated to its command text and executed under the anti-spam
    /// guard, and its success reply carries the transport's reply body
    /// (for world generation: the two bodies joined by a newline). Exactly
    /// one reply is produced, and the second component says whether the
    /// loop exits (only `Quit` asks for that).
    pub fn handle_request(&mut self, message: ProxyMessage, now: u64) -> (r: (ProxyResponse, bool))
        requires
            old(self).wf(),
            now >= old(self).last_request_time,
        ensures
            final (self).wf(),
            final (self).status == old(self).status,
            final (self).idle_timeout == old(self).idle_timeout,
            final (self).current_online == old(self).current_online,
            now >= final (self).last_request_time,
            // while starting: reply NotReady, change nothing, send nothing
            old(self).status is Starting ==> r.0 == ProxyResponse::NotReady && r.1 == false
                && *final (self) == *old(self),
            r.0 is NotReady <==> old(self).status is Starting,
            // only Quit exits
            !(old(self).status is Starting) ==> (r.1 <==> message is Quit),
            !(old(self).status is Starting) && message is Quit ==> *final (self) == *old(self) && (
            r.0 matches ProxyResponse::Success { response } && response@ == Seq::<char>::empty()),
            // Ping answers with the last observed count, locally
            !(old(self).status is Starting) && message is Ping ==> *final (self) == *old(self) && (
            r.0 matches ProxyResponse::Success { response } && response@ == dec_digits(
                old(self).current_online as nat,
            )),
            // the anti-spam guard blocks a command wholesale
            !(old(self).status is Starting) && is_command(message) && elapsed(
                old(self).last_request_time,
                now,
            ) < SPAM_WINDOW_MS ==> *final (self) == *old(self) && (r.0
                matches ProxyResponse::Failure { error } && error@
                == ProxyResponseError::Spam.spec_message()),
            // what the service attempts to execute is a prefix of the
            // request's command sequence
            exists|k: int|
                0 <= k <= spec_commands_of(message).len() && final (self).sent_commands@ == old(self).sent_commands@ + #[trigger] spec_commands_of(message).take(k),
            // a successful reply means the whole sequence went out
            !(old(self).status is Starting) && is_command(message) && r.0 is Success ==> final (self).sent_commands@ == old(self).sent_commands@ + spec_commands_of(message),
            // past the guard, the first command is attempted
            !(old(self).status is Starting) && is_command(message) && elapsed(
                old(self).last_request_time,
                now,
            ) >= SPAM_WINDOW_MS ==> final (self).sent_commands@.len() > old(self).sent_commands@.len(),
            // the reply history only grows, keeping what it held
            final (self).exec_results@.len() >= old(self).exec_results@.len(),
            final (self).exec_results@.take(old(self).exec_results@.len() as int) == old(self).exec_results@,
            // a success reply is the transport's reply body, verbatim for a
            // single command
            !(old(self).status is Starting) && is_command(message) && !(message
                is GenerateWorld) ==> (r.0 matches ProxyResponse::Success { response } ==> final (self).exec_results@ == old(self).exec_results@.push(response@)),
            // ... and for world generation the two bodies joined by a newline
            message is GenerateWorld ==> (r.0 matches ProxyResponse::Success { response }
                ==> final (self).exec_results@.len() == old(self).exec_results@.len() + 2
                && response@ == final (self).exec_results@[old(self).exec_results@.len() as int]
                + "\n"@ + final (self).exec_results@[old(self).exec_results@.len() as int + 1]),
            // a failure reply carries the message of a client-class error
            r.0 matches ProxyResponse::Failure { error } ==> (exists|e: ProxyResponseError|
                e.spec_client_error() && error@ == #[trigger] e.spec_message()),
    {
        proof {
            assert(old(self).sent_commands@ + spec_commands_of(message).take(0) =~= old(self).sent_commands@);
            assert(old(self).exec_results@.take(old(self).exec_results@.len() as int) =~= old(self).exec_results@);
        }
        if matches!(self.status, ServerStatus::Starting(_)) {
            return (ProxyResponse::NotReady, false);
        }
        match message {
            ProxyMessage::Ping => {
                let count = u32_string(self.current_online);
                (ProxyResponse::Success { response: count }, false)
            },
            ProxyMessage::Quit => (ProxyResponse::Success { response: String::new() }, true),
            ProxyMessage::Ban { nickname, reason } => {
                let cmd = ban_command(&nickname, &reason);
                let r = self.run_single(cmd, now);
                proof {
                    self.lemma_one_command_prefix(
                        *old(self),
                        ProxyMessage::Ban { nickname, reason },
                    );
                    assert(self.exec_results@.take(old(self).exec_results@.len() as int) =~= old(self).exec_results@);
                }
                r
            },
            ProxyMessage::Pardon { nickname } => {
                let cmd = pardon_command(&nickname);
                let r = self.run_single(cmd, now);
                proof {
                    self.lemma_one_command_prefix(*old(self), ProxyMessage::Pardon { nickname });
                    assert(self.exec_results@.take(old(self).exec_results@.len() as int) =~= old(self).exec_results@);
                }
                r
            },
            ProxyMessage::Kick { nickname, reason } => {
                let cmd = kick_command(&nickname, &reason);
                let r = self.run_single(cmd, now);
                proof {
                    self.lemma_one_command_prefix(
                        *old(self),
                        ProxyMessage::Kick { nickname, reason },
                    );
                    assert(self.exec_results@.take(old(self).exec_results@.len() as int) =~= old(self).exec_results@);
                }
                r
            },
            ProxyMessage::WhitelistAdd { nickname } => {
                let cmd = whitelist_add_command(&nickname);
                let r = self.run_single(cmd, now);
                proof {
                    self.lemma_one_command_prefix(
                        *old(self),
                        ProxyMessage::WhitelistAdd { nickname },
                    );
                    assert(self.exec_results@.take(old(self).exec_results@.len() as int) =~= old(self).exec_results@);
                }
                r
            },
            ProxyMessage::WhitelistRemove { nickname } => {
                let cmd = whitelist_remove_command(&nickname);
                let r = self.run_single(cmd, now);
                proof {
                    self.lemma_one_command_prefix(
                        *old(self),
                        ProxyMessage::WhitelistRemove { nickname },
                    );
                    assert(self.exec_results@.take(old(self).exec_results@.len() as int) =~= old(self).exec_results@);
                }
                r
            },
            ProxyMessage::OpAdd { nickname } => {
                let cmd = op_command(&nickname);
                let r = self.run_single(cmd, now);
                proof {
                    self.lemma_one_command_prefix(*old(self), ProxyMessage::OpAdd { nickname });
                    assert(self.exec_results@.take(old(self).exec_results@.len() as int) =~= old(self).exec_results@);
                }
                r
            },
            ProxyMessage::DeOp { nickname } => {
                let cmd = deop_command(&nickname);
                let r = self.run_single(cmd, now);
                proof {
                    self.lemma_one_command_prefix(*old(self), ProxyMessage::DeOp { nickname });
                    assert(self.exec_results@.take(old(self).exec_results@.len() as int) =~= old(self).exec_results@);
                }
                r
            },
            ProxyMessage::CancelGeneration => {
                let cmd = String::from_str("/chunky cancel");
                let r = self.run_single(cmd, now);
                proof {
                    self.lemma_one_command_prefix(*old(self), ProxyMessage::CancelGeneration);
                    assert(self.exec_results@.take(old(self).exec_results@.len() as int) =~= old(self).exec_results@);
                }
                r
            },
            ProxyMessage::GenerateWorld { radius } => {
                let ghost cmds = spec_commands_of(ProxyMessage::GenerateWorld { radius });
                let cmd1 = generate_world_command(radius);
                match self.send_command(cmd1, true, now) {
                    Err(e) => {
                        proof {
                            if !(elapsed(old(self).last_request_time, now) < SPAM_WINDOW_MS) {
                                assert(old(self).sent_commands@ + cmds.take(1)
                                    =~= self.sent_commands@);
                            }
                            assert(self.exec_results@.take(old(self).exec_results@.len() as int)
                                =~= old(self).exec_results@);
                        }
                        let msg = e.message();
                        proof {
                            assert(e.spec_client_error() && msg@ == e.spec_message());
                        }
                        (ProxyResponse::Failure { error: msg }, false)
                    },
                    Ok(r1) => {
                        let cmd2 = String::from_str("/chunky start");
                        let outcome = self.send_command(cmd2, false, now);
                        proof {
                            assert(old(self).sent_commands@ + cmds.take(2) =~= self.sent_commands@);
                            assert(cmds.take(2) =~= cmds);
                        }
                        proof {
                            assert(self.exec_results@.take(old(self).exec_results@.len() as int)
                                =~= old(self).exec_results@);
                        }
                        match outcome {
                            Err(e) => {
                                let msg = e.message();
                                proof {
                                    assert(e.spec_client_error() && msg@ == e.spec_message());
                                }
                                (ProxyResponse::Failure { error: msg }, false)
                            },
                            Ok(r2) => {
                                proof {
                                    assert(self.exec_results@[old(self).exec_results@.len()
                                        as int] == r1@);
                                    assert(self.exec_results@[old(self).exec_results@.len()
                                        as int + 1] == r2@);
                                }
                                let body = r1.concat("\n").concat(r2.as_str());
                                (ProxyResponse::Success { response: body }, false)
                            },
                        }
                    },
                }
            },
        }
    }

    /// After one command of a single-command request went out, the history
    /// grew by exactly that request's command sequence.
    proof fn lemma_one_command_prefix(self, pre: ProxyService, message: ProxyMessage)
        requires
            spec_commands_of(message).len() == 1,
            self.sent_commands@ == pre.sent_commands@ || self.sent_commands@
                == pre.sent_commands@.push(spec_commands_of(message)[0]),
        ensures
            self.sent_commands@ == pre.sent_commands@ + spec_commands_of(message).take(0)
                || self.sent_commands@ == pre.sent_commands@ + spec_commands_of(message).take(1),
            self.sent_commands@ == pre.sent_commands@.push(spec_commands_of(message)[0])
                ==> self.sent_commands@ == pre.sent_commands@ + spec_commands_of(message),
    {
        assert(pre.sent_commands@ + spec_commands_of(message).take(0) =~= pre.sent_commands@);
        assert(pre.sent_commands@ + spec_commands_of(message).take(1)
            =~= pre.sent_commands@.push(spec_commands_of(message)[0]));
        assert(spec_commands_of(message).take(1) =~= spec_commands_of(message));
    }

    /// The poll transition, applied to the state.
    pub fn handle_poll(&mut self, poll: Result<u32, InnerError>, now: u64) -> (exit: bool)
        requires
            old(self).wf(),
        ensures
            final (self).wf(),
            *final (self) == spec_handle_poll(*old(self), poll, now).0,
            exit == spec_handle_poll(*old(self), poll, now).1,
    {
        match poll {
            Ok(n) => {
                self.current_online = n;
                match self.status {
                    ServerStatus::Starting(_t) => {
                        self.status = if n == 0 {
                            ServerStatus::Idle(now)
                        } else {
                            ServerStatus::Busy
                        };
                        false
                    },
                    ServerStatus::Busy => {
                        if n == 0 {
                            self.status = ServerStatus::Idle(now);
                        }
                        false
                    },
                    ServerStatus::Idle(t) => {
                        if n == 0 {
                            elapsed_ms(t, now) > self.idle_timeout
                        } else {
                            self.status = ServerStatus::Busy;
                            false
                        }
                    },
                }
            },
            Err(_e) => {
                match self.status {
                    ServerStatus::Starting(t) => elapsed_ms(t, now) > self.idle_timeout,
                    ServerStatus::Idle(t) => elapsed_ms(t, now) > self.idle_timeout,
                    ServerStatus::Busy => {
                        self.status = ServerStatus::Idle(now);
                        false
                    },
                }
            },
        }
    }

    /// Issues the stop command to the child, outside the anti-spam guard.
    /// Success means the command was executed: the reply history grows by
    /// its reply body and the anti-spam clock moves to now; a failure is
    /// one of the three transport errors and changes nothing but the
    /// attempt record.
    pub fn shutdown(&mut self, now: u64) -> (r: Result<(), ProxyResponseError>)
        requires
            old(self).wf(),
            now >= old(self).last_request_time,
        ensures
            final (self).wf(),
            final (self).status == old(self).status,
            final (self).idle_timeout == old(self).idle_timeout,
            final (self).current_online == old(self).current_online,
            final (self).sent_commands@ == old(self).sent_commands@.push("/stop"@),
            final (self).protected_execs == old(self).protected_execs,
            r is Ok ==> final (self).last_request_time == now && final (self).exec_results@.len()
                == old(self).exec_results@.len() + 1,
            r is Err ==> final (self).last_request_time == old(self).last_request_time
                && final (self).exec_results == old(self).exec_results,
            r matches Result::Err(e) ==> (e is McServerConnect || e is McServerAuth
                || e is McServerCommand),
    {
        match self.send_command(String::from_str("/stop"), false, now) {
            Ok(_r) => Ok(()),
            Err(e) => Err(e),
        }
    }
}


/// The poll transition: how one poll tick moves the state, and whether the
/// loop exits. A successful poll stores the reported count and applies the
/// lifecycle table; a failed poll only does the idle-timeout bookkeeping,
/// and while busy it starts a fresh idle streak.
pub open spec fn spec_handle_poll(
    pre: ProxyService,
    poll: Result<u32, InnerError>,
    now: u64,
) -> (ProxyService, bool) {
    match poll {
        Result::Err(_) => match pre.status {
            ServerStatus::Starting(t) => (pre, elapsed(t, now) > pre.idle_timeout),
            ServerStatus::Idle(t) => (pre, elapsed(t, now) > pre.idle_timeout),
            ServerStatus::Busy => ((ProxyService { status: ServerStatus::Idle(now), ..pre }), false),
        },
        Result::Ok(n) => {
            let mid = (ProxyService { current_online: n, ..pre });
            match pre.status {
                ServerStatus::Starting(_t) => (
                    (ProxyService {
                        status: if n == 0 {
                            ServerStatus::Idle(now)
                        } else {
                            ServerStatus::Busy
                        },
                        ..mid
                    }),
                    false,
                ),
                ServerStatus::Busy => if n == 0 {
                    ((ProxyService { status: ServerStatus::Idle(now), ..mid }), false)
                } else {
                    (mid, false)
                },
                ServerStatus::Idle(t) => if n == 0 {
                    (mid, elapsed(t, now) > pre.idle_timeout)
                } else {
                    ((ProxyService { status: ServerStatus::Busy, ..mid }), false)
                },
            }
        },
    }
}

/// Law: between any two successful spam-protected executions at least the
/// anti-spam window elapses.
pub proof fn lemma_anti_spam_window(s: ProxyService, i: int, j: int)
    requires
        s.wf(),
        0 <= i < j < s.protected_execs@.len(),
    ensures
        s.protected_execs@[i] + SPAM_WINDOW_MS <= s.protected_execs@[j],
    decreases j - i,
{
    assert(s.protected_execs@[i] + SPAM_WINDOW_MS <= s.protected_execs@[i + 1]);
    if i + 1 < j {
        lemma_anti_spam_window(s, i + 1, j);
    }
}

/// Law: a poll step leaves the service idle only when that poll reported
/// zero players online, or failed while the service was busy. (The one case
/// left out: a service that is already idle stays idle when a poll fails
/// within the idle timeout, whatever made it idle before.)
pub proof fn lemma_idle_has_cause(pre: ProxyService, poll: Result<u32, InnerError>, now: u64)
    requires
        spec_handle_poll(pre, poll, now).0.status is Idle,
        !(pre.status is Idle && poll is Err),
    ensures
        poll matches Result::Ok(n) ==> n == 0,
        poll is Err ==> pre.status is Busy,
{
}

/// Law: once a poll tick observes an idle streak longer than the idle
/// timeout -- the poll reporting zero players, or failing -- the step
/// decides to exit the loop.
pub proof fn lemma_idle_timeout_exits(pre: ProxyService, poll: Result<u32, InnerError>, now: u64)
    requires
        pre.status matches ServerStatus::Idle(t) && elapsed(t, now) > pre.idle_timeout,
        poll is Err || poll == Result::<u32, InnerError>::Ok(0u32),
    ensures
        spec_handle_poll(pre, poll, now).1,
{
}

} // verus!
