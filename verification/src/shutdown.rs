//! How an edge process is brought down: the order of the attempts, and what
//! each platform uses for them.

use crate::launch::Platform;
use crate::text::{decimal, decimal_text, push_str, push_text, string_of, texts};
use vstd::prelude::*;

verus! {

/// How long a forced stop waits for the edge process to exit, in
/// milliseconds.
pub const FORCE_WAIT_MS: u64 = 3000;

/// The pause between two looks at the edge process while waiting for its
/// exit, in milliseconds.
pub const WAIT_POLL_MS: u64 = 100;

/// The pause between two looks of the monitor, in milliseconds.
pub const MONITOR_POLL_MS: u64 = 1000;

/// The two ways to stop.
#[derive(Debug, Clone, Copy, PartialEq, Eq, Structural)]
pub enum StopMode {
    /// Ask the edge process to leave, and give it time.
    Graceful,
    /// End it at once.
    Forced,
}

/// The signals that a stop sends.
#[derive(Debug, Clone, Copy, PartialEq, Eq, Structural)]
pub enum Signal {
    /// The request to leave.
    Interrupt,
    /// The end without a say.
    Kill,
}

/// What happened to the last attempt.
#[derive(Debug, Clone, Copy, PartialEq, Eq, Structural)]
pub enum StopEvent {
    /// Nothing was tried yet.
    Begin,
    /// The edge process confirmed the request to stop.
    CooperativeAcked,
    /// The request to stop was not confirmed in time.
    CooperativeFailed,
    /// The signal reached the edge process.
    SignalDelivered,
    /// The system refused to deliver the signal.
    SignalRejected,
    /// The command ran and reported success.
    CommandSucceeded,
    /// The command could not be run or reported a failure.
    CommandFailed,
}

/// What to try next.
#[derive(Debug, Clone, PartialEq, Eq)]
pub enum StopAction {
    /// Send the request to stop over the control channel and wait for its
    /// confirmation.
    RequestStop,
    /// Send this signal to the edge process.
    SendSignal(Signal),
    /// Run this command: the program, then its arguments.
    RunCommand(Vec<String>),
    /// Wait, for a bounded time, until the edge process has exited.
    AwaitExit,
    /// Nothing more to try; the flag says whether the last attempt
    /// succeeded.
    Done(bool),
}

/// What a `StopAction` holds, as plain values.
pub enum StopActionView {
    RequestStop,
    SendSignal(Signal),
    RunCommand(Seq<Seq<char>>),
    AwaitExit,
    Done(bool),
}

impl View for StopAction {
    type V = StopActionView;

    open spec fn view(&self) -> StopActionView {
        match self {
            StopAction::RequestStop => StopActionView::RequestStop,
            StopAction::SendSignal(s) => StopActionView::SendSignal(*s),
            StopAction::RunCommand(c) => StopActionView::RunCommand(texts(c@)),
            StopAction::AwaitExit => StopActionView::AwaitExit,
            StopAction::Done(ok) => StopActionView::Done(*ok),
        }
    }
}

/// The command that asks the process `pid` to leave on Windows.
pub open spec fn taskkill_command(pid: u32, forced: bool) -> Seq<Seq<char>> {
    if forced {
        seq!["taskkill"@, "/T"@, "/F"@, "/PID"@, decimal_text(pid as nat)]
    } else {
        seq!["taskkill"@, "/PID"@, decimal_text(pid as nat)]
    }
}

/// The command that sends a signal to the process `pid` with administrative
/// rights, for an edge process that has dropped its privileges.
pub open spec fn elevated_kill_command(pid: u32, signal: Signal) -> Seq<Seq<char>> {
    seq![
        "pkexec"@,
        "kill"@,
        match signal {
            Signal::Interrupt => "-SIGINT"@,
            Signal::Kill => "-9"@,
        },
        decimal_text(pid as nat),
    ]
}

/// The next attempt of a graceful stop. The request over the control channel
/// comes first and, once confirmed, ends the stop. Else the process is
/// signalled: on Windows by command, elsewhere directly, and on Linux once
/// more with administrative rights where the system refused.
pub open spec fn next_graceful(platform: Platform, pid: u32, event: StopEvent) -> StopActionView {
    match event {
        StopEvent::Begin => StopActionView::RequestStop,
        StopEvent::CooperativeAcked => StopActionView::Done(true),
        StopEvent::CooperativeFailed => if platform == Platform::Windows {
            StopActionView::RunCommand(taskkill_command(pid, false))
        } else {
            StopActionView::SendSignal(Signal::Interrupt)
        },
        StopEvent::SignalDelivered => StopActionView::Done(true),
        StopEvent::SignalRejected => if platform == Platform::Linux {
            StopActionView::RunCommand(elevated_kill_command(pid, Signal::Interrupt))
        } else {
            StopActionView::Done(false)
        },
        StopEvent::CommandSucceeded => StopActionView::Done(true),
        StopEvent::CommandFailed => StopActionView::Done(false),
    }
}

/// The next attempt of a forced stop. The process is ended at once: on
/// Windows by command, with its descendants; elsewhere by signal, and on
/// Linux once more with administrative rights where the system refused.
/// Whatever came of that, its exit is then waited for.
pub open spec fn next_forced(platform: Platform, pid: u32, event: StopEvent) -> StopActionView {
    match event {
        StopEvent::Begin => if platform == Platform::Windows {
            StopActionView::RunCommand(taskkill_command(pid, true))
        } else {
            StopActionView::SendSignal(Signal::Kill)
        },
        StopEvent::SignalRejected => if platform == Platform::Linux {
            StopActionView::RunCommand(elevated_kill_command(pid, Signal::Kill))
        } else {
            StopActionView::AwaitExit
        },
        _ => StopActionView::AwaitExit,
    }
}

/// The next attempt of a stop.
pub open spec fn next_stop(platform: Platform, mode: StopMode, pid: u32, event: StopEvent)
    -> StopActionView {
    match mode {
        StopMode::Graceful => next_graceful(platform, pid, event),
        StopMode::Forced => next_forced(platform, pid, event),
    }
}

/// The decimal numeral of a process identifier.
fn pid_text(pid: u32) -> (r: String)
    ensures
        r@ == decimal_text(pid as nat),
{
    let d = decimal(pid as u64);
    string_of(d.as_slice())
}

/// The command that `taskkill_command` describes.
fn taskkill(pid: u32, forced: bool) -> (c: Vec<String>)
    ensures
        texts(c@) == taskkill_command(pid, forced),
{
    let mut c: Vec<String> = Vec::new();
    assert(texts(c@) =~= Seq::<Seq<char>>::empty());
    push_str(&mut c, "taskkill");
    if forced {
        push_str(&mut c, "/T");
        push_str(&mut c, "/F");
    }
    push_str(&mut c, "/PID");
    push_text(&mut c, pid_text(pid));
    assert(texts(c@) =~= taskkill_command(pid, forced));
    c
}

/// The command that `elevated_kill_command` describes.
fn elevated_kill(pid: u32, signal: Signal) -> (c: Vec<String>)
    ensures
        texts(c@) == elevated_kill_command(pid, signal),
{
    let mut c: Vec<String> = Vec::new();
    assert(texts(c@) =~= Seq::<Seq<char>>::empty());
    push_str(&mut c, "pkexec");
    push_str(&mut c, "kill");
    match signal {
        Signal::Interrupt => push_str(&mut c, "-SIGINT"),
        Signal::Kill => push_str(&mut c, "-9"),
    }
    push_text(&mut c, pid_text(pid));
    assert(texts(c@) =~= elevated_kill_command(pid, signal));
    c
}

/// What to try next in stopping the process `pid`, given what came of the
/// last attempt.
pub fn next_stop_action(platform: Platform, mode: StopMode, pid: u32, event: StopEvent) -> (a:
    StopAction)
    ensures
        a@ == next_stop(platform, mode, pid, event),
{
    match mode {
        StopMode::Graceful => match event {
            StopEvent::Begin => StopAction::RequestStop,
            StopEvent::CooperativeAcked => StopAction::Done(true),
            StopEvent::CooperativeFailed => match platform {
                Platform::Windows => StopAction::RunCommand(taskkill(pid, false)),
                _ => StopAction::SendSignal(Signal::Interrupt),
            },
            StopEvent::SignalDelivered => StopAction::Done(true),
            StopEvent::SignalRejected => match platform {
                Platform::Linux => StopAction::RunCommand(elevated_kill(pid, Signal::Interrupt)),
                _ => StopAction::Done(false),
            },
            StopEvent::CommandSucceeded => StopAction::Done(true),
            StopEvent::CommandFailed => StopAction::Done(false),
        },
        StopMode::Forced => match event {
            StopEvent::Begin => match platform {
                Platform::Windows => StopAction::RunCommand(taskkill(pid, true)),
                _ => StopAction::SendSignal(Signal::Kill),
            },
            StopEvent::SignalRejected => match platform {
                Platform::Linux => StopAction::RunCommand(elevated_kill(pid, Signal::Kill)),
                _ => StopAction::AwaitExit,
            },
            _ => StopAction::AwaitExit,
        },
    }
}

/// What a look at the edge process while waiting for its exit comes to.
#[derive(Debug, Clone, Copy, PartialEq, Eq, Structural)]
pub enum WaitDecision {
    /// It has exited.
    Exited,
    /// It has not, and the time is up.
    TimedOut,
    /// It has not: look again after this many milliseconds.
    Sleep(u64),
}

/// What a look comes to: an exit ends the wait, else the time that has
/// passed decides.
pub open spec fn wait_decision(exited: bool, elapsed_ms: u64, timeout_ms: u64) -> WaitDecision {
    if exited {
        WaitDecision::Exited
    } else if elapsed_ms >= timeout_ms {
        WaitDecision::TimedOut
    } else {
        WaitDecision::Sleep(WAIT_POLL_MS)
    }
}

/// What a look at the edge process comes to, `elapsed_ms` into a wait of
/// `timeout_ms`.
pub fn wait_child_exit(exited: bool, elapsed_ms: u64, timeout_ms: u64) -> (d: WaitDecision)
    ensures
        d == wait_decision(exited, elapsed_ms, timeout_ms),
{
    if exited {
        WaitDecision::Exited
    } else if elapsed_ms >= timeout_ms {
        WaitDecision::TimedOut
    } else {
        WaitDecision::Sleep(WAIT_POLL_MS)
    }
}

} // verus!
