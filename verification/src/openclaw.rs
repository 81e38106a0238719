use tokio::sync::mpsc::UnboundedReceiver;
use vstd::prelude::*;
use vstd::string::*;

use crate::config::StandaloneArgs;
use crate::detector::{kind_name, severity_level, severity_name, EventKind, Severity};
use crate::ids::{correlation_id_text, new_correlation_id};
use crate::text::{decimal, decimal_string, push_decimal};

verus! {

/// How the OpenClaw CLI is invoked for each event.
#[derive(Debug, Clone)]
pub struct Settings {
    pub openclaw_bin: String,
    pub agent: String,
    pub session_id: String,
    pub thinking: String,
    pub timeout_sec: u64,
    pub deliver: bool,
    pub reply_channel: Option<String>,
    pub reply_to: Option<String>,
    pub run_as_user: Option<String>,
}

/// The view of an optional string.
pub open spec fn opt_view(o: Option<String>) -> Option<Seq<char>> {
    match o {
        Some(s) => Some(s@),
        None => None,
    }
}

fn clone_opt(o: &Option<String>) -> (c: Option<String>)
    ensures
        opt_view(c) == opt_view(*o),
{
    match o {
        Some(s) => Some(s.clone()),
        None => None,
    }
}

impl Settings {
    /// The settings of the standalone options; the CLI runs as the configured
    /// user, or else as `sudo_user` (the user that invoked sudo, if any).
    pub fn from_config(config: &StandaloneArgs, sudo_user: Option<String>) -> (s: Self)
        ensures
            s.openclaw_bin@ == config.openclaw_bin@,
            s.agent@ == config.openclaw_agent@,
            s.session_id@ == config.openclaw_session_id@,
            s.thinking@ == config.openclaw_thinking@,
            s.timeout_sec == config.openclaw_timeout_sec,
            s.deliver == config.openclaw_deliver,
            opt_view(s.reply_channel) == opt_view(config.openclaw_reply_channel),
            opt_view(s.reply_to) == opt_view(config.openclaw_reply_to),
            opt_view(s.run_as_user) == if config.openclaw_run_as is Some {
                opt_view(config.openclaw_run_as)
            } else {
                opt_view(sudo_user)
            },
    {
        let run_as_user = match &config.openclaw_run_as {
            Some(u) => Some(u.clone()),
            None => sudo_user,
        };
        Settings {
            openclaw_bin: config.openclaw_bin.clone(),
            agent: config.openclaw_agent.clone(),
            session_id: config.openclaw_session_id.clone(),
            thinking: config.openclaw_thinking.clone(),
            timeout_sec: config.openclaw_timeout_sec,
            deliver: config.openclaw_deliver,
            reply_channel: clone_opt(&config.openclaw_reply_channel),
            reply_to: clone_opt(&config.openclaw_reply_to),
            run_as_user,
        }
    }
}

/// "<KIND>_EVENT level=<level> severity=<name> amplitude=<amplitude>g
/// correlationId=<id>".
pub open spec fn agent_message_text(
    kind: EventKind,
    severity: Severity,
    amplitude: Seq<char>,
    correlation_id: Seq<char>,
) -> Seq<char> {
    kind_name(kind) + "_EVENT level="@ + decimal(severity_level(severity) as nat) + " severity="@
        + severity_name(severity) + " amplitude="@ + amplitude + "g correlationId="@
        + correlation_id
}

/// The structured message handed to the agent for an event whose amplitude
/// in g, written with five decimals, is `amplitude`.
pub fn agent_message(kind: EventKind, severity: Severity, amplitude: &str, correlation_id: &str) -> (m: String)
    ensures
        m@ == agent_message_text(kind, severity, amplitude@, correlation_id@),
{
    proof {
        reveal_strlit("_EVENT level=");
        reveal_strlit(" severity=");
        reveal_strlit(" amplitude=");
        reveal_strlit("g correlationId=");
    }
    let mut m = String::from_str(kind.as_str());
    m.append("_EVENT level=");
    push_decimal(&mut m, severity.level() as u64);
    m.append(" severity=");
    m.append(severity.as_str());
    m.append(" amplitude=");
    m.append(amplitude);
    m.append("g correlationId=");
    m.append(correlation_id);
    assert(m@ =~= agent_message_text(kind, severity, amplitude@, correlation_id@));
    m
}

/// The message for an event, with a fresh correlation id.
pub fn new_agent_message(kind: EventKind, severity: Severity, amplitude: &str) -> (m: String)
    ensures
        exists|id: Seq<char>|
            correlation_id_text(id) && m@ == agent_message_text(kind, severity, amplitude@, id),
{
    let id = new_correlation_id();
    agent_message(kind, severity, amplitude, id.as_str())
}

/// The arguments that follow the program: the optional privilege drop
/// ("-u <user> <bin>" under sudo), the agent call, and the delivery options.
pub open spec fn agent_args(s: Settings, message: Seq<char>) -> Seq<Seq<char>> {
    let prefix: Seq<Seq<char>> = match s.run_as_user {
        Some(u) => seq!["-u"@, u@, s.openclaw_bin@],
        None => Seq::empty(),
    };
    let call: Seq<Seq<char>> = seq![
        "agent"@,
        "--agent"@,
        s.agent@,
        "--session-id"@,
        s.session_id@,
        "--thinking"@,
        s.thinking@,
        "--timeout"@,
        decimal(s.timeout_sec as nat),
        "--message"@,
        message,
    ];
    let channel: Seq<Seq<char>> = match s.reply_channel {
        Some(c) => seq!["--reply-channel"@, c@],
        None => Seq::empty(),
    };
    let target: Seq<Seq<char>> = match s.reply_to {
        Some(t) => seq!["--reply-to"@, t@],
        None => Seq::empty(),
    };
    let delivery: Seq<Seq<char>> = if s.deliver {
        seq!["--deliver"@] + channel + target
    } else {
        Seq::empty()
    };
    prefix + call + delivery
}

/// The program that runs: sudo when a user to run as is set, else the CLI.
pub open spec fn agent_program(s: Settings) -> Seq<char> {
    match s.run_as_user {
        Some(_) => "sudo"@,
        None => s.openclaw_bin@,
    }
}

/// A command line: a program and its arguments.
pub struct CommandLine {
    pub program: String,
    pub args: Vec<String>,
}

impl CommandLine {
    pub open spec fn args_view(&self) -> Seq<Seq<char>> {
        self.args@.map_values(|a: String| a@)
    }
}

fn push_arg(args: &mut Vec<String>, a: &str)
    ensures
        final(args)@.map_values(|x: String| x@) == old(args)@.map_values(|x: String| x@).push(
            a@,
        ),
{
    args.push(String::from_str(a));
    assert(args@.map_values(|x: String| x@) =~= old(args)@.map_values(|x: String| x@).push(a@));
}

/// The command line that hands `message` to the OpenClaw agent.
pub fn agent_command(s: &Settings, message: &str) -> (c: CommandLine)
    ensures
        c.program@ == agent_program(*s),
        c.args_view() == agent_args(*s, message@),
{
    proof {
        reveal_strlit("sudo");
        reveal_strlit("-u");
        reveal_strlit("agent");
        reveal_strlit("--agent");
        reveal_strlit("--session-id");
        reveal_strlit("--thinking");
        reveal_strlit("--timeout");
        reveal_strlit("--message");
        reveal_strlit("--deliver");
        reveal_strlit("--reply-channel");
        reveal_strlit("--reply-to");
    }
    let mut args: Vec<String> = Vec::new();
    let program = match &s.run_as_user {
        Some(user) => {
            push_arg(&mut args, "-u");
            push_arg(&mut args, user.as_str());
            push_arg(&mut args, s.openclaw_bin.as_str());
            String::from_str("sudo")
        },
        None => s.openclaw_bin.clone(),
    };
    push_arg(&mut args, "agent");
    push_arg(&mut args, "--agent");
    push_arg(&mut args, s.agent.as_str());
    push_arg(&mut args, "--session-id");
    push_arg(&mut args, s.session_id.as_str());
    push_arg(&mut args, "--thinking");
    push_arg(&mut args, s.thinking.as_str());
    push_arg(&mut args, "--timeout");
    let timeout = decimal_string(s.timeout_sec);
    push_arg(&mut args, timeout.as_str());
    push_arg(&mut args, "--message");
    push_arg(&mut args, message);
    if s.deliver {
        push_arg(&mut args, "--deliver");
        match &s.reply_channel {
            Some(ch) => {
                push_arg(&mut args, "--reply-channel");
                push_arg(&mut args, ch.as_str());
            },
            None => {},
        }
        match &s.reply_to {
            Some(t) => {
                push_arg(&mut args, "--reply-to");
                push_arg(&mut args, t.as_str());
            },
            None => {},
        }
    }
    let c = CommandLine { program, args };
    assert(c.args_view() =~= agent_args(*s, message@));
    c
}

/// How the agent is invoked: under sudo as the configured user (then "-u",
/// the user and the CLI come first), the agent options and the message next,
/// and, exactly when delivery is asked for, "--deliver" right after the
/// message, followed by "--reply-channel <c>" and "--reply-to <t>" for each
/// one that is set, each independently of the other.
pub proof fn agent_invocation_layout(s: Settings, message: Seq<char>)
    ensures
        ({
            let a = agent_args(s, message);
            let p: int = if s.run_as_user is Some {
                3
            } else {
                0
            };
            &&& s.run_as_user matches Some(u) ==> agent_program(s) == "sudo"@ && a[0] == "-u"@
                && a[1] == u@ && a[2] == s.openclaw_bin@
            &&& s.run_as_user is None ==> agent_program(s) == s.openclaw_bin@
            &&& a.len() >= p + 11
            &&& a[p] == "agent"@ && a[p + 1] == "--agent"@ && a[p + 2] == s.agent@
            &&& a[p + 3] == "--session-id"@ && a[p + 4] == s.session_id@
            &&& a[p + 5] == "--thinking"@ && a[p + 6] == s.thinking@
            &&& a[p + 7] == "--timeout"@ && a[p + 8] == decimal(s.timeout_sec as nat)
            &&& a[p + 9] == "--message"@ && a[p + 10] == message
            &&& !s.deliver ==> a.len() == p + 11
            &&& s.deliver ==> a[p + 11] == "--deliver"@
            &&& s.deliver ==> a.len() == p + 12 + (if s.reply_channel is Some {
                2int
            } else {
                0
            }) + (if s.reply_to is Some {
                2int
            } else {
                0
            })
            &&& s.deliver ==> (s.reply_channel matches Some(c) ==> a[p + 12]
                == "--reply-channel"@ && a[p + 13] == c@)
            &&& s.deliver ==> (s.reply_to matches Some(t) ==> a[a.len() - 2] == "--reply-to"@
                && a[a.len() - 1] == t@)
        }),
{
}

#[verifier::external_type_specification]
#[verifier::external_body]
#[verifier::reject_recursive_types(T)]
pub struct ExUnboundedReceiver<T>(UnboundedReceiver<T>);

/// Calls `tokio::sync::mpsc::UnboundedReceiver::try_recv`: the next value
/// already queued, or `None` when the queue is empty or every sender is gone.
/// What is queued depends on the senders, so nothing is stated of the result.
#[verifier::external_body]
fn try_recv_queued<T>(rx: &mut UnboundedReceiver<T>) -> Option<T> {
    rx.try_recv().ok()
}

/// One step of coalescing: a received event replaces the one kept so far and
/// counts as passed over; no event leaves both as they are. The flag says
/// whether an event was received.
pub fn coalesce_step<T>(latest: T, dropped: usize, next: Option<T>) -> (r: (T, usize, bool))
    requires
        next is Some ==> dropped < usize::MAX,
    ensures
        next matches Some(v) ==> r == (v, (dropped + 1) as usize, true),
        next is None ==> r == (latest, dropped, false),
{
    match next {
        Some(v) => (v, dropped + 1, true),
        None => (latest, dropped, false),
    }
}

/// The events received in the first `n` receives of `log`.
pub open spec fn received_events<T>(log: Seq<Option<T>>, n: nat) -> Seq<T> {
    log.take(n as int).map_values(|o: Option<T>| o->0)
}

/// Coalesces a burst: takes every event already queued behind `first` and
/// keeps only the newest. Returns it, how many events were passed over, and
/// (as a ghost record) what each receive returned, in order. Receiving stops
/// only when a receive finds nothing (or the count cannot grow): every
/// receive but the last got an event, the last got none, and the event kept
/// is the last one received, or `first` when none was.
pub fn coalesce_queued<T>(rx: &mut UnboundedReceiver<T>, first: T) -> (r: (
    T,
    usize,
    Ghost<Seq<Option<T>>>,
))
    ensures
        r.2@.len() == r.1 + 1 || (r.1 == usize::MAX && r.2@.len() == r.1),
        forall|i: int| 0 <= i < r.1 ==> #[trigger] r.2@[i] is Some,
        r.2@.len() == r.1 + 1 ==> r.2@[r.1 as int] is None,
        r.1 == 0 ==> r.0 == first,
        r.1 > 0 ==> r.0 == r.2@[r.1 - 1]->0,
        received_events(r.2@, r.1 as nat).len() == r.1,
        r.0 == (seq![first] + received_events(r.2@, r.1 as nat)).last(),
{
    let mut latest = first;
    let mut dropped: usize = 0;
    let ghost mut log: Seq<Option<T>> = Seq::empty();
    while dropped < usize::MAX
        invariant_except_break
            log.len() == dropped,
            forall|i: int| 0 <= i < dropped ==> #[trigger] log[i] is Some,
            dropped == 0 ==> latest == first,
            dropped > 0 ==> latest == log[dropped - 1]->0,
        ensures
            log.len() == dropped + 1 || (dropped == usize::MAX && log.len() == dropped),
            forall|i: int| 0 <= i < dropped ==> #[trigger] log[i] is Some,
            log.len() == dropped + 1 ==> log[dropped as int] is None,
            dropped == 0 ==> latest == first,
            dropped > 0 ==> latest == log[dropped - 1]->0,
        decreases usize::MAX - dropped,
    {
        let next = try_recv_queued(rx);
        let ghost received = next;
        let (l, d, got) = coalesce_step(latest, dropped, next);
        latest = l;
        dropped = d;
        proof {
            log = log.push(received);
        }
        if !got {
            break;
        }
    }
    proof {
        let rec = received_events(log, dropped as nat);
        assert(rec.len() == dropped);
        if dropped > 0 {
            assert(rec[dropped - 1] == log[dropped - 1]->0);
        }
        assert((seq![first] + rec).last() == latest);
    }
    (latest, dropped, Ghost(log))
}

} // verus!
