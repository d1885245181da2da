//! What the command line sends over the socket.

use crate::error::Error;
use crate::keycode::{key_code, str_to_key};
use crate::msg::Msg;
use vstd::prelude::*;

verus! {

/// The directory of the daemon's socket.
pub const IPC_DIR: &'static str = "/tmp/wl_keys";

/// The path of the daemon's socket.
pub const IPC_PATH: &'static str = "/tmp/wl_keys/socket.sock";

/// The message that taps the key of a name. A name that the table does not
/// hold is answered with `UnknownKey`, and nothing is to be sent.
pub fn send_key(key_str: &str) -> (r: Result<Msg, Error>)
    ensures
        r == (match key_code(key_str@) {
            Some(key) => Ok::<Msg, Error>(Msg::Key(key)),
            None => Err::<Msg, Error>(Error::UnknownKey),
        }),
{
    match str_to_key(key_str) {
        Ok(key) => Ok(Msg::Key(key)),
        Err(e) => Err(e),
    }
}

/// The message that stops the daemon.
pub fn send_stop() -> (r: Msg)
    ensures
        r == Msg::Stop,
{
    Msg::Stop
}

} // verus!
