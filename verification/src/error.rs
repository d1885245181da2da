//! What can go wrong, and how far each failure reaches.

use vstd::prelude::*;

verus! {

/// A failure of the device or of a caller's input.
#[derive(Clone, Copy, Debug, PartialEq, Eq, Structural)]
pub enum Error {
    /// The compositor does not advertise a required object.
    CapabilityMissing,
    /// The compositor's version of an object is newer than this client implements.
    VersionUnsupported,
    /// No keymap arrived during the handshake.
    KeymapMissing,
    /// A send or flush on the connection failed.
    TransportFailure,
    /// A holder of the device lock failed while holding it.
    LockPoisoned,
    /// A key name that the lookup table does not hold.
    UnknownKey,
    /// A modifier name that is none of the four.
    InvalidArgument,
}

/// When a failure happens: while the device is set up, or while it serves calls.
#[derive(Clone, Copy, Debug, PartialEq, Eq, Structural)]
pub enum Phase {
    Startup,
    Serving,
}

/// What a failure does to the daemon.
#[derive(Clone, Copy, Debug, PartialEq, Eq, Structural)]
pub enum Reach {
    /// The process ends with a nonzero status.
    Fatal,
    /// The one call is answered with an internal error; the daemon goes on.
    Internal,
    /// The caller's input was wrong; the caller is told, the daemon goes on.
    Caller,
}

impl Error {
    /// Whether the caller's own input caused the failure.
    pub open spec fn is_caller_error(self) -> bool {
        self is UnknownKey || self is InvalidArgument
    }

    /// How far the failure reaches, by the phase in which it happens.
    pub open spec fn spec_reach(self, phase: Phase) -> Reach {
        if self.is_caller_error() {
            Reach::Caller
        } else if phase is Startup || self is TransportFailure {
            Reach::Fatal
        } else {
            Reach::Internal
        }
    }

    /// How far the failure reaches: a caller's mistake never ends the daemon,
    /// anything else is fatal at startup, and while serving only a transport
    /// failure is.
    pub fn reach(self, phase: Phase) -> (r: Reach)
        ensures
            r == self.spec_reach(phase),
    {
        match self {
            Error::UnknownKey | Error::InvalidArgument => Reach::Caller,
            Error::TransportFailure => Reach::Fatal,
            _ => match phase {
                Phase::Startup => Reach::Fatal,
                Phase::Serving => Reach::Internal,
            },
        }
    }

    /// The text shown for the failure.
    pub fn message(self) -> (r: &'static str)
        ensures
            r@ == (match self {
                Error::CapabilityMissing => "required interface not found"@,
                Error::VersionUnsupported => "interface exceeds the max supported version"@,
                Error::KeymapMissing => "Keymap not found"@,
                Error::TransportFailure => "Wayland request failed"@,
                Error::LockPoisoned => "RwLock poisoned"@,
                Error::UnknownKey => "Unrecognised key"@,
                Error::InvalidArgument => "Invalid modifier"@,
            }),
    {
        match self {
            Error::CapabilityMissing => "required interface not found",
            Error::VersionUnsupported => "interface exceeds the max supported version",
            Error::KeymapMissing => "Keymap not found",
            Error::TransportFailure => "Wayland request failed",
            Error::LockPoisoned => "RwLock poisoned",
            Error::UnknownKey => "Unrecognised key",
            Error::InvalidArgument => "Invalid modifier",
        }
    }
}

} // verus!
