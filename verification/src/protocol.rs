//! What goes over the connection, as plain values: the events that the
//! compositor sends, the requests that the device makes, and the descriptions
//! of the interfaces that the device binds.

use vstd::prelude::*;
use wayland_client::protocol::wl_keyboard::KeymapFormat;
use wayland_client::protocol::wl_seat::WlSeat;
use wayland_client::Proxy;
use wayland_protocols_misc::zwp_input_method_v2::client::zwp_input_method_manager_v2::ZwpInputMethodManagerV2;
use wayland_protocols_misc::zwp_virtual_keyboard_v1::client::zwp_virtual_keyboard_manager_v1::ZwpVirtualKeyboardManagerV1;

verus! {

/// The state that a key request carries for a key that went up.
pub const KEY_RELEASED: u32 = 0;

/// The state that a key request carries for a key that went down.
pub const KEY_PRESSED: u32 = 1;

/// The tag of the one keymap format that the device accepts.
pub const KEYMAP_FORMAT_XKB_V1: u32 = 1;

/// An interface as this client implements it: its name, and the newest
/// version of it that the client understands.
#[derive(Debug, PartialEq, Eq)]
pub struct Interface {
    pub name: String,
    pub version: u32,
}

/// The objects that the device binds.
#[derive(Clone, Copy, Debug, PartialEq, Eq, Structural)]
pub enum Object {
    Seat,
    InputMethodManager,
    VirtualKeyboardManager,
}

/// An event from the compositor, whichever object it was sent to.
#[derive(Debug, PartialEq, Eq)]
pub enum Event {
    /// The registry announces an object.
    Global { name: u32, interface: String, version: u32 },
    /// The seat's keyboard hands over its keymap: the format tag, the
    /// descriptor of the shared memory that holds it, and its size in bytes.
    Keymap { format: u32, descriptor: i32, size: u32 },
    /// A text entry became active.
    Activate,
    /// A text entry became inactive.
    Deactivate,
    /// Anything else.
    Other,
}

/// A request of the virtual keyboard.
#[derive(Clone, Copy, Debug, PartialEq, Eq, Structural)]
pub enum Request {
    /// A key went down or up at `time`.
    Key { time: u32, key: u32, state: u32 },
    /// The modifier masks changed.
    Modifiers { depressed: u32, latched: u32, locked: u32, group: u32 },
}

/// One thing for the owner of the connection to do during the handshake.
#[derive(Clone, Copy, Debug, PartialEq, Eq, Structural)]
pub enum Action {
    /// Subscribe to the registry.
    GetRegistry,
    /// Send what is queued and dispatch what has arrived.
    Roundtrip,
    /// Bind the advertised object `name` as `object`, at `version`.
    Bind { object: Object, name: u32, version: u32 },
    /// Ask the seat for its keyboard.
    GetKeyboard,
    /// Ask the input-method manager for the seat's input method.
    GetInputMethod,
    /// Ask the virtual-keyboard manager for a keyboard on the seat.
    CreateVirtualKeyboard,
    /// Give the virtual keyboard its keymap.
    InstallKeymap { format: u32, descriptor: i32, size: u32 },
}

/// `Proxy::interface` of wayland-client for `WlSeat`: the description that
/// the crate generates from the core protocol, which names the interface
/// `wl_seat` at version 11.
#[verifier::external_body]
fn seat_interface() -> (r: Interface)
    ensures
        r.name@ == "wl_seat"@,
        r.version == 11,
{
    let described = WlSeat::interface();
    Interface { name: described.name.to_string(), version: described.version }
}

/// `Proxy::interface` of wayland-client for `ZwpInputMethodManagerV2` of
/// wayland-protocols-misc: the description generated from the input-method
/// protocol, which names the interface `zwp_input_method_manager_v2` at
/// version 1.
#[verifier::external_body]
fn input_method_manager_interface() -> (r: Interface)
    ensures
        r.name@ == "zwp_input_method_manager_v2"@,
        r.version == 1,
{
    let described = ZwpInputMethodManagerV2::interface();
    Interface { name: described.name.to_string(), version: described.version }
}

/// `Proxy::interface` of wayland-client for `ZwpVirtualKeyboardManagerV1` of
/// wayland-protocols-misc: the description generated from the
/// virtual-keyboard protocol, which names the interface
/// `zwp_virtual_keyboard_manager_v1` at version 1.
#[verifier::external_body]
fn virtual_keyboard_manager_interface() -> (r: Interface)
    ensures
        r.name@ == "zwp_virtual_keyboard_manager_v1"@,
        r.version == 1,
{
    let described = ZwpVirtualKeyboardManagerV1::interface();
    Interface { name: described.name.to_string(), version: described.version }
}

/// The conversion of wayland-client's `KeymapFormat` to `u32`, for the
/// variant `XkbV1`: the core protocol gives that format the tag 1.
#[verifier::external_body]
pub(crate) fn xkb_v1_tag() -> (r: u32)
    ensures
        r == KEYMAP_FORMAT_XKB_V1,
{
    u32::from(KeymapFormat::XkbV1)
}

impl Object {
    /// The name under which the compositor advertises the object.
    pub open spec fn spec_interface_name(self) -> Seq<char> {
        match self {
            Object::Seat => "wl_seat"@,
            Object::InputMethodManager => "zwp_input_method_manager_v2"@,
            Object::VirtualKeyboardManager => "zwp_virtual_keyboard_manager_v1"@,
        }
    }

    /// The newest version of the object's interface that this client
    /// implements.
    pub open spec fn spec_max_version(self) -> u32 {
        match self {
            Object::Seat => 11,
            Object::InputMethodManager => 1,
            Object::VirtualKeyboardManager => 1,
        }
    }

    /// The interface of the object as this client implements it.
    pub fn interface(self) -> (r: Interface)
        ensures
            r.name@ == self.spec_interface_name(),
            r.version == self.spec_max_version(),
    {
        match self {
            Object::Seat => seat_interface(),
            Object::InputMethodManager => input_method_manager_interface(),
            Object::VirtualKeyboardManager => virtual_keyboard_manager_interface(),
        }
    }
}

/// The state that a key request carries.
pub open spec fn spec_key_state(pressed: bool) -> u32 {
    if pressed {
        KEY_PRESSED
    } else {
        KEY_RELEASED
    }
}

/// The state that a key request carries.
pub fn key_state(pressed: bool) -> (r: u32)
    ensures
        r == spec_key_state(pressed),
{
    if pressed {
        KEY_PRESSED
    } else {
        KEY_RELEASED
    }
}

} // verus!
