//! The messages of the socket protocol.

use crate::daemon::Rpc;
use vstd::prelude::*;

verus! {

/// A message from the command line to the daemon.
#[derive(Clone, Copy, Debug, PartialEq, Eq, Structural)]
pub enum Msg {
    /// Tap the key of this code.
    Key(u32),
    /// Turn the input detection on.
    AutoEnable,
    /// Turn the input detection off.
    AutoDisable,
    /// Flip the input detection.
    AutoToggle,
    /// Stop the daemon.
    Stop,
}

impl Msg {
    /// The call that the message asks for.
    pub open spec fn spec_rpc(self) -> Rpc {
        match self {
            Msg::Key(key) => Rpc::SendKey { key },
            Msg::AutoEnable => Rpc::AutoEnable,
            Msg::AutoDisable => Rpc::AutoDisable,
            Msg::AutoToggle => Rpc::AutoToggle,
            Msg::Stop => Rpc::Stop,
        }
    }

    /// The call that the message asks for.
    pub fn rpc(self) -> (r: Rpc)
        ensures
            r == self.spec_rpc(),
    {
        match self {
            Msg::Key(key) => Rpc::SendKey { key },
            Msg::AutoEnable => Rpc::AutoEnable,
            Msg::AutoDisable => Rpc::AutoDisable,
            Msg::AutoToggle => Rpc::AutoToggle,
            Msg::Stop => Rpc::Stop,
        }
    }
}

} // verus!
