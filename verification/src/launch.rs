//! The rendezvous: the strict sequence of steps by which the owner starts
//! the external process and meets it over a loopback connection.
//!
//! A [`Launch`] says which step is due ([`Launch::action`]); the embedding
//! program performs it and reports what came of it ([`Launch::step`]). The
//! steps are: bind a loopback listener on a port that the operating system
//! picks, start the process with that port on its command line, accept one
//! connection. A failure at any of them ends the launch.

use crate::command::{launch_command, launch_line, CommandLine, CommandLineView, Platform};
use crate::decimal::{decimal_round_trip, decimal_value};
use vstd::prelude::*;
use vstd::string::*;

verus! {

/// Why a launch produced no handle.
#[derive(Clone, Copy, Debug, PartialEq, Eq, Structural)]
pub enum LaunchError {
    /// The loopback listener could not be bound.
    Bind,
    /// The operating system did not start the external process.
    Spawn,
    /// No connection could be accepted on the listener.
    Accept,
    /// A report arrived that the step then due could not have produced.
    OutOfOrder,
    /// The launch has not reached its end yet.
    Unfinished,
}

/// How far a launch has come.
#[derive(Clone, Copy, Debug, PartialEq, Eq, Structural)]
pub enum Phase {
    /// Nothing has happened yet.
    Unstarted,
    /// The listener is bound to `port`; the process is to be started.
    Launching { port: u16 },
    /// Process `pid` runs and has been told `port`; it has yet to dial back.
    RendezvousPending { port: u16, pid: u32 },
    /// Process `pid` runs and one connection has been accepted.
    Ready { port: u16, pid: u32 },
    /// The launch was given up.
    Aborted { cause: LaunchError },
}

/// What the embedding program reports after a step.
#[derive(Clone, Copy, Debug, PartialEq, Eq, Structural)]
pub enum Event {
    /// The listener is bound, and the operating system picked `port`.
    Bound { port: u16 },
    /// The external process runs, with identifier `pid`.
    Spawned { pid: u32 },
    /// One connection has been accepted.
    Accepted,
    /// The step failed.
    Failed,
}

/// The step that is due.
#[derive(Debug, PartialEq, Eq)]
pub enum Action {
    /// Bind a listener to `address` and report the port it got.
    Bind { address: String },
    /// Start the process that `line` describes and report its identifier.
    Spawn { line: CommandLine },
    /// Accept one connection on the listener, however long it takes.
    Accept,
    /// Nothing is left to do: the handle can be made.
    Finish,
    /// Nothing is left to do: the launch has failed.
    GiveUp { cause: LaunchError },
}

/// What an [`Action`] says.
pub enum ActionView {
    Bind { address: Seq<char> },
    Spawn { line: CommandLineView },
    Accept,
    Finish,
    GiveUp { cause: LaunchError },
}

impl View for Action {
    type V = ActionView;

    open spec fn view(&self) -> ActionView {
        match *self {
            Action::Bind { address } => ActionView::Bind { address: address@ },
            Action::Spawn { line } => ActionView::Spawn { line: line@ },
            Action::Accept => ActionView::Accept,
            Action::Finish => ActionView::Finish,
            Action::GiveUp { cause } => ActionView::GiveUp { cause },
        }
    }
}

/// A launch under way: what is to be started, and how far it has come.
#[derive(Debug, PartialEq, Eq)]
pub struct Launch {
    pub platform: Platform,
    pub driver_path: String,
    pub sub_title: String,
    pub phase: Phase,
}

/// What a [`Launch`] says.
pub struct LaunchView {
    pub platform: Platform,
    pub driver_path: Seq<char>,
    pub sub_title: Seq<char>,
    pub phase: Phase,
}

impl View for Launch {
    type V = LaunchView;

    open spec fn view(&self) -> LaunchView {
        LaunchView {
            platform: self.platform,
            driver_path: self.driver_path@,
            sub_title: self.sub_title@,
            phase: self.phase,
        }
    }
}

/// The address of the listener: the loopback interface, and port 0, which
/// leaves the choice of the port to the operating system.
pub open spec fn loopback_any_port() -> Seq<char> {
    "127.0.0.1:0"@
}

/// The phase that follows `phase` once `event` is reported. Each phase but
/// the last two waits for one kind of report; a failure aborts with the step
/// that failed, and any other report aborts as out of order. A launch that is
/// ready or aborted stays as it is.
pub open spec fn next_phase(phase: Phase, event: Event) -> Phase {
    match phase {
        Phase::Unstarted => match event {
            Event::Bound { port } => Phase::Launching { port },
            Event::Failed => Phase::Aborted { cause: LaunchError::Bind },
            _ => Phase::Aborted { cause: LaunchError::OutOfOrder },
        },
        Phase::Launching { port } => match event {
            Event::Spawned { pid } => Phase::RendezvousPending { port, pid },
            Event::Failed => Phase::Aborted { cause: LaunchError::Spawn },
            _ => Phase::Aborted { cause: LaunchError::OutOfOrder },
        },
        Phase::RendezvousPending { port, pid } => match event {
            Event::Accepted => Phase::Ready { port, pid },
            Event::Failed => Phase::Aborted { cause: LaunchError::Accept },
            _ => Phase::Aborted { cause: LaunchError::OutOfOrder },
        },
        Phase::Ready { .. } => phase,
        Phase::Aborted { .. } => phase,
    }
}

/// The step that is due in a launch.
pub open spec fn due(launch: LaunchView) -> ActionView {
    match launch.phase {
        Phase::Unstarted => ActionView::Bind { address: loopback_any_port() },
        Phase::Launching { port } => ActionView::Spawn {
            line: launch_line(launch.driver_path, port, launch.sub_title),
        },
        Phase::RendezvousPending { .. } => ActionView::Accept,
        Phase::Ready { .. } => ActionView::Finish,
        Phase::Aborted { cause } => ActionView::GiveUp { cause },
    }
}

/// The phase reached from `phase` after the reports `events`, in order.
pub open spec fn phase_after(phase: Phase, events: Seq<Event>) -> Phase
    decreases events.len(),
{
    if events.len() == 0 {
        phase
    } else {
        phase_after(next_phase(phase, events[0]), events.drop_first())
    }
}

/// How far along a phase is: a launch never moves to a lower rank.
pub open spec fn rank(phase: Phase) -> nat {
    match phase {
        Phase::Unstarted => 0,
        Phase::Launching { .. } => 1,
        Phase::RendezvousPending { .. } => 2,
        Phase::Ready { .. } => 3,
        Phase::Aborted { .. } => 3,
    }
}

/// Whether a launch in this phase has ended, well or badly.
pub open spec fn is_settled(phase: Phase) -> bool {
    phase is Ready || phase is Aborted
}

impl Launch {
    /// A launch of the process found at `driver_path`, with nothing done yet.
    pub fn begin(platform: Platform, driver_path: &String, sub_title: &String) -> (launch: Launch)
        ensures
            launch@ == (LaunchView {
                platform,
                driver_path: driver_path@,
                sub_title: sub_title@,
                phase: Phase::Unstarted,
            }),
    {
        Launch {
            platform,
            driver_path: driver_path.clone(),
            sub_title: sub_title.clone(),
            phase: Phase::Unstarted,
        }
    }

    /// The step that is due.
    pub fn action(&self) -> (action: Action)
        ensures
            action@ == due(self@),
    {
        match self.phase {
            Phase::Unstarted => Action::Bind { address: String::from_str("127.0.0.1:0") },
            Phase::Launching { port } => Action::Spawn {
                line: launch_command(self.platform, &self.driver_path, port, &self.sub_title),
            },
            Phase::RendezvousPending { .. } => Action::Accept,
            Phase::Ready { .. } => Action::Finish,
            Phase::Aborted { cause } => Action::GiveUp { cause },
        }
    }

    /// Takes in the report of the step that was due. Only the phase changes.
    pub fn step(self, event: Event) -> (next: Launch)
        ensures
            next@ == (LaunchView { phase: next_phase(self@.phase, event), ..self@ }),
    {
        let phase = match self.phase {
            Phase::Unstarted => match event {
                Event::Bound { port } => Phase::Launching { port },
                Event::Failed => Phase::Aborted { cause: LaunchError::Bind },
                _ => Phase::Aborted { cause: LaunchError::OutOfOrder },
            },
            Phase::Launching { port } => match event {
                Event::Spawned { pid } => Phase::RendezvousPending { port, pid },
                Event::Failed => Phase::Aborted { cause: LaunchError::Spawn },
                _ => Phase::Aborted { cause: LaunchError::OutOfOrder },
            },
            Phase::RendezvousPending { port, pid } => match event {
                Event::Accepted => Phase::Ready { port, pid },
                Event::Failed => Phase::Aborted { cause: LaunchError::Accept },
                _ => Phase::Aborted { cause: LaunchError::OutOfOrder },
            },
            settled => settled,
        };
        Launch {
            platform: self.platform,
            driver_path: self.driver_path,
            sub_title: self.sub_title,
            phase,
        }
    }
}

/// A launch only moves forward: a report either leaves the phase as it is,
/// which it does exactly in the two settled phases, or leads to a phase of
/// higher rank. No report leads back to the start.
pub proof fn phases_only_advance(phase: Phase, event: Event)
    ensures
        is_settled(phase) <==> next_phase(phase, event) == phase,
        !is_settled(phase) ==> rank(next_phase(phase, event)) > rank(phase),
        rank(next_phase(phase, event)) >= rank(phase),
        next_phase(phase, event) != Phase::Unstarted,
{
}

/// A settled launch stays as it is, whatever is reported afterwards.
pub proof fn settled_is_final(phase: Phase, events: Seq<Event>)
    requires
        is_settled(phase),
    ensures
        phase_after(phase, events) == phase,
    decreases events.len(),
{
    if events.len() > 0 {
        settled_is_final(phase, events.drop_first());
    }
}

/// A launch becomes ready for process `pid` on port `port` exactly when its
/// first three reports are: bound to `port`, spawned as `pid`, accepted.
/// So a failure at binding, spawning or accepting leaves no ready launch.
pub proof fn ready_iff_rendezvous_completed(events: Seq<Event>, port: u16, pid: u32)
    ensures
        phase_after(Phase::Unstarted, events) == (Phase::Ready { port, pid }) <==> (events.len()
            >= 3 && events[0] == (Event::Bound { port }) && events[1] == (Event::Spawned { pid })
            && events[2] == Event::Accepted),
{
    let start = Phase::Unstarted;
    if events.len() >= 1 {
        let after_one = next_phase(start, events[0]);
        let later_one = events.drop_first();
        assert(phase_after(start, events) == phase_after(after_one, later_one));
        if is_settled(after_one) {
            settled_is_final(after_one, later_one);
        } else if later_one.len() >= 1 {
            let after_two = next_phase(after_one, later_one[0]);
            let later_two = later_one.drop_first();
            assert(later_one[0] == events[1]);
            assert(phase_after(after_one, later_one) == phase_after(after_two, later_two));
            if is_settled(after_two) {
                settled_is_final(after_two, later_two);
            } else if later_two.len() >= 1 {
                let after_three = next_phase(after_two, later_two[0]);
                let later_three = later_two.drop_first();
                assert(later_two[0] == events[2]);
                assert(phase_after(after_two, later_two) == phase_after(after_three, later_three));
                settled_is_final(after_three, later_three);
            } else {
                assert(phase_after(after_two, later_two) == after_two);
            }
        } else {
            assert(phase_after(after_one, later_one) == after_one);
        }
    } else {
        assert(phase_after(start, events) == start);
    }
}

/// In a launch that became ready, accepting a connection was due once: after
/// the second report, and at no other point.
pub proof fn one_connection_is_accepted(launch: LaunchView, events: Seq<Event>, i: int)
    requires
        phase_after(Phase::Unstarted, events) is Ready,
        0 <= i <= events.len(),
    ensures
        due(LaunchView { phase: phase_after(Phase::Unstarted, events.take(i)), ..launch })
            == ActionView::Accept <==> i == 2,
{
    let port = phase_after(Phase::Unstarted, events)->Ready_port;
    let pid = phase_after(Phase::Unstarted, events)->Ready_pid;
    ready_iff_rendezvous_completed(events, port, pid);
    let seen = events.take(i);
    let start = Phase::Unstarted;
    if i >= 3 {
        assert(seen[0] == events[0] && seen[1] == events[1] && seen[2] == events[2]);
        ready_iff_rendezvous_completed(seen, port, pid);
    } else if i == 0 {
        assert(phase_after(start, seen) == start);
    } else {
        let after_one = next_phase(start, seen[0]);
        let later_one = seen.drop_first();
        assert(seen[0] == events[0]);
        assert(phase_after(start, seen) == phase_after(after_one, later_one));
        if i == 1 {
            assert(phase_after(after_one, later_one) == after_one);
        } else {
            let after_two = next_phase(after_one, later_one[0]);
            let later_two = later_one.drop_first();
            assert(later_one[0] == events[1]);
            assert(phase_after(after_one, later_one) == phase_after(after_two, later_two));
            assert(phase_after(after_two, later_two) == after_two);
        }
    }
}

/// Once the listener is bound, the step that is due is to start the process
/// with a command line that announces the very port that was reported.
pub proof fn spawn_announces_bound_port(launch: LaunchView, port: u16)
    requires
        launch.phase == Phase::Unstarted,
    ensures
        due(LaunchView { phase: next_phase(launch.phase, Event::Bound { port }), ..launch })
            == (ActionView::Spawn {
            line: launch_line(launch.driver_path, port, launch.sub_title),
        }),
        decimal_value(launch_line(launch.driver_path, port, launch.sub_title).args[1]) == port,
{
    decimal_round_trip(port as nat);
}

} // verus!
