//! The connection supervisor's decisions: when to connect, when to run the
//! session, how long to back off, and when to stop.

use crate::time::TimeSpan;
use vstd::prelude::*;

verus! {

/// The shortest back-off between connection attempts, in milliseconds
/// (shortened to the ceiling when that is lower).
pub const RETRY_FLOOR_MILLIS: u64 = 100;

/// The state of the supervised connection.
#[derive(Clone, Copy, Debug, PartialEq, Eq, Structural)]
pub enum ConnectionState {
    /// The session is up.
    Connected,
    /// No connection has been made yet.
    Disconnected,
    /// The connection was lost or refused and is being retried.
    Reconnecting,
}

/// Commands that other tasks send to the supervisor.
#[derive(Clone, Copy, Debug, PartialEq, Eq, Structural)]
pub enum ConnectionCommand {
    /// Reconnect now.
    Reconnect,
    /// Stop supervising.
    Shutdown,
}

/// What happened since the supervisor's last decision. Commands are
/// reported before anything else that is ready.
#[derive(Clone, Copy, Debug, PartialEq, Eq, Structural)]
pub enum SupervisorEvent {
    /// The supervisor starts.
    Started,
    /// A command arrived.
    Command(ConnectionCommand),
    /// Every command sender is gone.
    CommandChannelClosed,
    /// The back-off wait is over.
    WaitOver,
    /// A connection attempt succeeded (true) or failed (false).
    Connected(bool),
    /// The session loop returned without error (true) or failed (false).
    SessionEnded(bool),
}

/// What the supervisor's driver must do next.
#[derive(Clone, Copy, Debug)]
pub enum SupervisorAction {
    /// Attempt to connect, then report `Connected`.
    Connect,
    /// Run the session loop, then report `SessionEnded`.
    RunSession,
    /// Wait this long (still taking commands), then report `WaitOver`.
    Wait(TimeSpan),
    /// Stop: the supervisor is done.
    Stop,
}

/// The supervisor's state: the connection state, the current back-off and
/// its floor and ceiling.
pub struct ConnectionHandler {
    max_retry_interval: TimeSpan,
    floor: TimeSpan,
    backoff: TimeSpan,
    state: ConnectionState,
    stopped: bool,
}

impl ConnectionHandler {
    /// The back-off's ceiling, in nanoseconds.
    pub closed spec fn spec_ceiling(&self) -> nat {
        self.max_retry_interval@
    }

    pub closed spec fn spec_state(&self) -> ConnectionState {
        self.state
    }

    /// The wait before the next attempt after a failure, in nanoseconds.
    pub closed spec fn spec_backoff(&self) -> nat {
        self.backoff@
    }

    /// The back-off's floor, in nanoseconds.
    pub closed spec fn spec_floor(&self) -> nat {
        self.floor@
    }

    /// Whether the supervisor has stopped.
    pub closed spec fn spec_stopped(&self) -> bool {
        self.stopped
    }

    /// The floor is at most the ceiling, and the back-off lies between.
    pub closed spec fn wf(&self) -> bool {
        &&& self.floor@ <= self.backoff@ <= self.max_retry_interval@
    }

    /// A disconnected supervisor whose back-off never exceeds
    /// `max_retry_interval`.
    pub fn new(max_retry_interval: TimeSpan) -> (r: ConnectionHandler)
        ensures
            r.wf(),
            r.spec_state() == ConnectionState::Disconnected,
            !r.spec_stopped(),
            r.spec_ceiling() == max_retry_interval@,
            r.spec_floor() == if RETRY_FLOOR_MILLIS * 1_000_000 <= max_retry_interval@ {
                RETRY_FLOOR_MILLIS * 1_000_000
            } else {
                max_retry_interval@ as int
            },
            r.spec_backoff() == r.spec_floor(),
    {
        let floor = TimeSpan::from_millis(RETRY_FLOOR_MILLIS).min(&max_retry_interval);
        ConnectionHandler {
            max_retry_interval,
            floor,
            backoff: floor,
            state: ConnectionState::Disconnected,
            stopped: false,
        }
    }

    /// The longest back-off between attempts.
    pub fn max_retry_interval(&self) -> (r: TimeSpan)
        ensures
            r@ == self.spec_ceiling(),
    {
        self.max_retry_interval
    }

    /// The connection state.
    pub fn state(&self) -> (r: ConnectionState)
        ensures
            r == self.spec_state(),
    {
        self.state
    }

    /// Whether the supervisor has stopped.
    pub fn is_stopped(&self) -> (r: bool)
        ensures
            r == self.spec_stopped(),
    {
        self.stopped
    }

    /// Takes what happened and says what to do next. A shutdown command, or
    /// the loss of every command sender, stops the supervisor whatever its
    /// state. A reconnect command resets the back-off and retries at once.
    /// A successful attempt connects and resets the back-off; a failed one
    /// waits the back-off, which then doubles up to the ceiling. A failed
    /// session reconnects at once from the floor; a session that returns
    /// cleanly is run again.
    pub fn decide(&mut self, event: SupervisorEvent) -> (r: SupervisorAction)
        requires
            old(self).wf(),
        ensures
            final(self).wf(),
            final(self).spec_ceiling() == old(self).spec_ceiling(),
            final(self).spec_floor() == old(self).spec_floor(),
            old(self).spec_stopped() ==> r is Stop && final(self).spec_stopped(),
            !old(self).spec_stopped() ==> match event {
                SupervisorEvent::Command(ConnectionCommand::Shutdown) | SupervisorEvent::CommandChannelClosed =>
                    r is Stop && final(self).spec_stopped() && final(self).spec_state() == old(self).spec_state(),
                SupervisorEvent::Command(ConnectionCommand::Reconnect) => r is Connect && !final(self).spec_stopped()
                    && final(self).spec_state() == ConnectionState::Reconnecting
                    && final(self).spec_backoff() == old(self).spec_floor(),
                SupervisorEvent::Started | SupervisorEvent::WaitOver => !final(self).spec_stopped()
                    && final(self).spec_state() == old(self).spec_state()
                    && final(self).spec_backoff() == old(self).spec_backoff()
                    && if old(self).spec_state() == ConnectionState::Connected {
                        r is RunSession
                    } else {
                        r is Connect
                    },
                SupervisorEvent::Connected(true) => r is RunSession && !final(self).spec_stopped()
                    && final(self).spec_state() == ConnectionState::Connected
                    && final(self).spec_backoff() == old(self).spec_floor(),
                SupervisorEvent::Connected(false) => !final(self).spec_stopped()
                    && final(self).spec_state() == ConnectionState::Reconnecting
                    && (r matches SupervisorAction::Wait(d) && d@ == old(self).spec_backoff())
                    && final(self).spec_backoff() == if 2 * old(self).spec_backoff() <= old(self).spec_ceiling() {
                        2 * old(self).spec_backoff()
                    } else {
                        old(self).spec_ceiling()
                    },
                SupervisorEvent::SessionEnded(true) => r is RunSession && !final(self).spec_stopped()
                    && final(self).spec_state() == old(self).spec_state()
                    && final(self).spec_backoff() == old(self).spec_backoff(),
                SupervisorEvent::SessionEnded(false) => r is Connect && !final(self).spec_stopped()
                    && final(self).spec_state() == ConnectionState::Reconnecting
                    && final(self).spec_backoff() == old(self).spec_floor(),
            },
    {
        if self.stopped {
            return SupervisorAction::Stop;
        }
        match event {
            SupervisorEvent::Command(ConnectionCommand::Shutdown) | SupervisorEvent::CommandChannelClosed => {
                self.stopped = true;
                SupervisorAction::Stop
            },
            SupervisorEvent::Command(ConnectionCommand::Reconnect) => {
                self.state = ConnectionState::Reconnecting;
                self.backoff = self.floor;
                SupervisorAction::Connect
            },
            SupervisorEvent::Started | SupervisorEvent::WaitOver => {
                if self.state == ConnectionState::Connected {
                    SupervisorAction::RunSession
                } else {
                    SupervisorAction::Connect
                }
            },
            SupervisorEvent::Connected(ok) => {
                if ok {
                    self.state = ConnectionState::Connected;
                    self.backoff = self.floor;
                    SupervisorAction::RunSession
                } else {
                    self.state = ConnectionState::Reconnecting;
                    let wait = self.backoff;
                    self.backoff = self.backoff.doubled_up_to(&self.max_retry_interval);
                    SupervisorAction::Wait(wait)
                }
            },
            SupervisorEvent::SessionEnded(ok) => {
                if ok {
                    SupervisorAction::RunSession
                } else {
                    self.state = ConnectionState::Reconnecting;
                    self.backoff = self.floor;
                    SupervisorAction::Connect
                }
            },
        }
    }
}

} // verus!
