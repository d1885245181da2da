//! The commands of the command line.

use crate::daemon::Rpc;
use crate::error::Error;
use crate::keycode::{key_code, str_to_key};
use crate::modifiers::Modifier;
use vstd::prelude::*;

verus! {

/// What to do with the daemon.
#[derive(Clone, Copy, Debug, PartialEq, Eq, Structural)]
pub enum DaemonCmd {
    /// Run the daemon.
    Start,
    /// Stop the daemon if it is running.
    Stop,
    /// List what the compositor advertises.
    Protocols,
}

/// What to do with the input detection.
#[derive(Clone, Copy, Debug, PartialEq, Eq, Structural)]
pub enum AutoCmd {
    Enable,
    Disable,
    Toggle,
    /// Ask whether the input detection is on.
    Query,
}

/// What to do with the panel.
#[derive(Clone, Copy, Debug, PartialEq, Eq, Structural)]
pub enum UiCmd {
    Open,
    Close,
    Toggle,
}

/// What to do with a modifier, which is given by its name.
#[derive(Debug, PartialEq, Eq)]
pub enum ModCmd {
    Press { modifier: String },
    Release { modifier: String },
    Toggle { modifier: String },
    /// Ask whether the modifier is held.
    Query { modifier: String },
}

/// A command of the command line.
#[derive(Debug, PartialEq, Eq)]
pub enum Command {
    Daemon(DaemonCmd),
    Auto(AutoCmd),
    Ui(UiCmd),
    Mod(ModCmd),
    /// Tap the key of this name.
    Key { key: String },
}

/// What a command comes to.
#[derive(Clone, Copy, Debug, PartialEq, Eq, Structural)]
pub enum Task {
    /// Run the daemon in this process.
    StartDaemon,
    /// Make this call of the running daemon.
    Call(Rpc),
    /// Run this command of the panel.
    Panel(UiCmd),
}

impl AutoCmd {
    /// The call that the command makes.
    pub open spec fn spec_rpc(self) -> Rpc {
        match self {
            AutoCmd::Enable => Rpc::AutoEnable,
            AutoCmd::Disable => Rpc::AutoDisable,
            AutoCmd::Toggle => Rpc::AutoToggle,
            AutoCmd::Query => Rpc::AutoQuery,
        }
    }

    /// The call that the command makes.
    pub fn rpc(self) -> (r: Rpc)
        ensures
            r == self.spec_rpc(),
    {
        match self {
            AutoCmd::Enable => Rpc::AutoEnable,
            AutoCmd::Disable => Rpc::AutoDisable,
            AutoCmd::Toggle => Rpc::AutoToggle,
            AutoCmd::Query => Rpc::AutoQuery,
        }
    }
}

impl ModCmd {
    /// The name that the command gives its modifier.
    pub open spec fn spec_name(self) -> Seq<char> {
        match self {
            ModCmd::Press { modifier } => modifier@,
            ModCmd::Release { modifier } => modifier@,
            ModCmd::Toggle { modifier } => modifier@,
            ModCmd::Query { modifier } => modifier@,
        }
    }

    /// The call that the command makes for `modifier`.
    pub open spec fn spec_rpc(self, modifier: Modifier) -> Rpc {
        match self {
            ModCmd::Press { .. } => Rpc::ModPress(modifier),
            ModCmd::Release { .. } => Rpc::ModRelease(modifier),
            ModCmd::Toggle { .. } => Rpc::ModToggle(modifier),
            ModCmd::Query { .. } => Rpc::ModQuery(modifier),
        }
    }

    /// The call that the command makes, if its modifier's name is one of
    /// the four.
    pub open spec fn spec_task(self) -> Result<Task, Error> {
        match Modifier::spec_from_name(self.spec_name()) {
            Some(modifier) => Ok(Task::Call(self.spec_rpc(modifier))),
            None => Err(Error::InvalidArgument),
        }
    }

    /// The name that the command gives its modifier.
    pub fn name(&self) -> (r: &String)
        ensures
            r@ == self.spec_name(),
    {
        match self {
            ModCmd::Press { modifier } => modifier,
            ModCmd::Release { modifier } => modifier,
            ModCmd::Toggle { modifier } => modifier,
            ModCmd::Query { modifier } => modifier,
        }
    }

    /// The call that the command makes for `modifier`.
    pub fn rpc(&self, modifier: Modifier) -> (r: Rpc)
        ensures
            r == self.spec_rpc(modifier),
    {
        match self {
            ModCmd::Press { .. } => Rpc::ModPress(modifier),
            ModCmd::Release { .. } => Rpc::ModRelease(modifier),
            ModCmd::Toggle { .. } => Rpc::ModToggle(modifier),
            ModCmd::Query { .. } => Rpc::ModQuery(modifier),
        }
    }

    /// The call that the command makes. A modifier's name that is none of
    /// the four is answered with `InvalidArgument`, and no call is made.
    pub fn task(&self) -> (r: Result<Task, Error>)
        ensures
            r == self.spec_task(),
    {
        match Modifier::from_str_name(self.name().as_str()) {
            Ok(modifier) => Ok(Task::Call(self.rpc(modifier))),
            Err(e) => Err(e),
        }
    }
}

impl Command {
    /// What the command comes to, if its names are known.
    pub open spec fn spec_task(self) -> Result<Task, Error> {
        match self {
            Command::Daemon(DaemonCmd::Start) => Ok(Task::StartDaemon),
            Command::Daemon(DaemonCmd::Stop) => Ok(Task::Call(Rpc::Stop)),
            Command::Daemon(DaemonCmd::Protocols) => Ok(Task::Call(Rpc::GetProtocols)),
            Command::Auto(cmd) => Ok(Task::Call(cmd.spec_rpc())),
            Command::Ui(cmd) => Ok(Task::Panel(cmd)),
            Command::Mod(cmd) => cmd.spec_task(),
            Command::Key { key } => match key_code(key@) {
                Some(code) => Ok(Task::Call(Rpc::SendKey { key: code })),
                None => Err(Error::UnknownKey),
            },
        }
    }

    /// What the command comes to. A key name that the table does not hold is
    /// answered with `UnknownKey`, a modifier's name that is none of the four
    /// with `InvalidArgument`; no call is made then.
    pub fn task(&self) -> (r: Result<Task, Error>)
        ensures
            r == self.spec_task(),
    {
        match self {
            Command::Daemon(cmd) => match cmd {
                DaemonCmd::Start => Ok(Task::StartDaemon),
                DaemonCmd::Stop => Ok(Task::Call(Rpc::Stop)),
                DaemonCmd::Protocols => Ok(Task::Call(Rpc::GetProtocols)),
            },
            Command::Auto(cmd) => Ok(Task::Call(cmd.rpc())),
            Command::Ui(cmd) => Ok(Task::Panel(*cmd)),
            Command::Mod(cmd) => cmd.task(),
            Command::Key { key } => match str_to_key(key.as_str()) {
                Ok(code) => Ok(Task::Call(Rpc::SendKey { key: code })),
                Err(e) => Err(e),
            },
        }
    }
}

} // verus!
