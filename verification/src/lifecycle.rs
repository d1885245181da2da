//! The life of the daemon process: what it does when it starts, while it
//! serves, and when something fails.

use crate::daemon::PUMP_INTERVAL_MS;
use crate::error::{Error, Phase, Reach};
use vstd::prelude::*;

verus! {

/// Where the daemon stands.
#[derive(Clone, Copy, Debug, PartialEq, Eq, Structural)]
pub enum Life {
    /// The process has begun.
    Launched,
    /// An older daemon was asked to stop.
    Claiming,
    /// The handshake with the compositor is under way.
    Binding,
    /// The keyboard is published and calls are served.
    Serving,
    /// The daemon was told to stop, and did.
    Stopped,
    /// The daemon ended with this failure.
    Crashed(Error),
}

/// What happened.
#[derive(Clone, Copy, Debug, PartialEq, Eq, Structural)]
pub enum Occurrence {
    /// The process is up.
    Begun,
    /// The attempt to stop an older daemon is over; it was reached or not.
    OldInstance { reached: bool },
    /// The handshake succeeded.
    Bound,
    /// The handshake failed.
    BindFailed(Error),
    /// The time between two roundtrips has passed.
    Tick,
    /// The daemon's own roundtrip succeeded.
    Pumped,
    /// The daemon's own roundtrip failed.
    PumpFailed(Error),
    /// A call was answered with a failure.
    CallFailed(Error),
    /// A caller asked the daemon to stop.
    StopRequested,
}

/// What the process does next.
#[derive(Clone, Copy, Debug, PartialEq, Eq, Structural)]
pub enum Move {
    /// Ask an older daemon to stop, whether or not there is one.
    StopOldInstance,
    /// Make the handshake with the compositor.
    Bind,
    /// Publish the keyboard and accept calls.
    Serve,
    /// Take the keyboard alone and make a roundtrip.
    Pump,
    /// Wait before the next roundtrip.
    Wait { millis: u64 },
    /// Leave the server loop and end with status zero.
    ExitClean,
    /// End with a nonzero status.
    ExitFailure(Error),
    /// Nothing.
    Idle,
}

impl Life {
    /// Whether the daemon has ended.
    pub open spec fn is_over(self) -> bool {
        self is Stopped || self is Crashed
    }

    /// Where the daemon stands after `what`, and what it does about it. An
    /// older daemon is asked to stop before the device is claimed, and it
    /// does not matter whether it was reached. A failed handshake and a
    /// failed roundtrip end the daemon, and so does a call that failed in a
    /// way that is fatal while serving; any other failed call is the
    /// caller's matter alone. While it serves, every tick brings a roundtrip
    /// and every roundtrip a wait. What does not belong to the stage is
    /// passed over.
    pub open spec fn spec_on(self, what: Occurrence) -> (Life, Move) {
        match (self, what) {
            (Life::Launched, Occurrence::Begun) => (Life::Claiming, Move::StopOldInstance),
            (Life::Claiming, Occurrence::OldInstance { reached }) => (Life::Binding, Move::Bind),
            (Life::Binding, Occurrence::Bound) => (Life::Serving, Move::Serve),
            (Life::Binding, Occurrence::BindFailed(e)) => (Life::Crashed(e), Move::ExitFailure(e)),
            (Life::Serving, Occurrence::Tick) => (Life::Serving, Move::Pump),
            (Life::Serving, Occurrence::Pumped) => (
                Life::Serving,
                Move::Wait { millis: PUMP_INTERVAL_MS },
            ),
            (Life::Serving, Occurrence::PumpFailed(e)) => (Life::Crashed(e), Move::ExitFailure(e)),
            (Life::Serving, Occurrence::CallFailed(e)) => if e.spec_reach(Phase::Serving)
                == Reach::Fatal {
                (Life::Crashed(e), Move::ExitFailure(e))
            } else {
                (Life::Serving, Move::Idle)
            },
            (Life::Serving, Occurrence::StopRequested) => (Life::Stopped, Move::ExitClean),
            _ => (self, Move::Idle),
        }
    }
}

/// Decides what the daemon does about what happened.
pub fn daemon(life: Life, what: Occurrence) -> (r: (Life, Move))
    ensures
        r == life.spec_on(what),
{
    match life {
        Life::Launched => match what {
            Occurrence::Begun => (Life::Claiming, Move::StopOldInstance),
            _ => (life, Move::Idle),
        },
        Life::Claiming => match what {
            Occurrence::OldInstance { reached: _ } => (Life::Binding, Move::Bind),
            _ => (life, Move::Idle),
        },
        Life::Binding => match what {
            Occurrence::Bound => (Life::Serving, Move::Serve),
            Occurrence::BindFailed(e) => (Life::Crashed(e), Move::ExitFailure(e)),
            _ => (life, Move::Idle),
        },
        Life::Serving => match what {
            Occurrence::Tick => (Life::Serving, Move::Pump),
            Occurrence::Pumped => (Life::Serving, Move::Wait { millis: PUMP_INTERVAL_MS }),
            Occurrence::PumpFailed(e) => (Life::Crashed(e), Move::ExitFailure(e)),
            Occurrence::CallFailed(e) => match e.reach(Phase::Serving) {
                Reach::Fatal => (Life::Crashed(e), Move::ExitFailure(e)),
                _ => (Life::Serving, Move::Idle),
            },
            Occurrence::StopRequested => (Life::Stopped, Move::ExitClean),
            _ => (life, Move::Idle),
        },
        Life::Stopped => (life, Move::Idle),
        Life::Crashed(_) => (life, Move::Idle),
    }
}

/// A daemon that has ended stays as it is and does nothing more.
pub proof fn lemma_over_is_final(life: Life, what: Occurrence)
    requires
        life.is_over(),
    ensures
        life.spec_on(what) == (life, Move::Idle),
{
}

/// The daemon serves only after an older one was asked to stop and the
/// handshake succeeded: the one step into serving is the good end of the
/// handshake, and the one step into the handshake is the end of the attempt
/// to stop an older daemon.
pub proof fn lemma_serving_follows_binding(life: Life, what: Occurrence)
    ensures
        life != Life::Serving && life.spec_on(what).0 == Life::Serving ==> life == Life::Binding
            && what == Occurrence::Bound,
        life != Life::Binding && life.spec_on(what).0 == Life::Binding ==> life == Life::Claiming
            && what is OldInstance,
{
}

/// While the daemon serves, a failed roundtrip ends it, whatever the
/// failure, and so does a call that met a transport failure; nothing else
/// that happens does. A caller's mistake and a poisoned lock never do.
pub proof fn lemma_what_ends_a_serving_daemon(what: Occurrence)
    ensures
        Life::Serving.spec_on(what).0 is Crashed <==> what is PumpFailed || what
            == Occurrence::CallFailed(Error::TransportFailure),
        Life::Serving.spec_on(what).0 is Stopped <==> what == Occurrence::StopRequested,
{
}

} // verus!
