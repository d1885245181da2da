//! The handshake that makes the device ready: what to ask of the compositor
//! at each stage, decided from what it has said so far.

use crate::args::UiCmd;
use crate::error::Error;
use crate::protocol::{xkb_v1_tag, Action, Event, Interface, Object, KEYMAP_FORMAT_XKB_V1};
use crate::registry::Global;
use crate::state::{State, StateView};
use vstd::prelude::*;

verus! {

/// How far the handshake has come.
#[derive(Clone, Copy, Debug, PartialEq, Eq, Structural)]
pub enum Stage {
    /// Nothing was asked yet.
    Connect,
    /// The registry was subscribed to, and its announcements were taken in.
    Discover,
    /// The seat is bound and its keyboard was asked for; the keymap should
    /// have arrived.
    Transfer,
    /// Everything is bound and the virtual keyboard has its keymap.
    Ready,
    /// The handshake ended with this failure.
    Failed(Error),
}

/// An interface as plain values.
pub ghost struct InterfaceView {
    pub name: Seq<char>,
    pub version: u32,
}

/// The handshake as plain values.
pub ghost struct HandshakeView {
    pub stage: Stage,
    pub state: StateView,
    pub seat: InterfaceView,
    pub input_method: InterfaceView,
    pub keyboard: InterfaceView,
}

impl HandshakeView {
    /// What binding the three objects and installing the keymap takes, if
    /// all of it can be done: the input-method manager is looked at first,
    /// then the virtual-keyboard manager, then the keymap.
    pub open spec fn transfer(self) -> Result<Seq<Action>, Error> {
        match self.state.bind(self.input_method.name, self.input_method.version) {
            Err(e) => Err(e),
            Ok(input_method) => match self.state.bind(self.keyboard.name, self.keyboard.version) {
                Err(e) => Err(e),
                Ok(keyboard) => match self.state.keymap {
                    None => Err(Error::KeymapMissing),
                    Some(keymap) => Ok(
                        seq![
                            Action::Bind {
                                object: Object::InputMethodManager,
                                name: input_method.name,
                                version: input_method.version,
                            },
                            Action::GetInputMethod,
                            Action::Bind {
                                object: Object::VirtualKeyboardManager,
                                name: keyboard.name,
                                version: keyboard.version,
                            },
                            Action::CreateVirtualKeyboard,
                            Action::InstallKeymap {
                                format: KEYMAP_FORMAT_XKB_V1,
                                descriptor: keymap.descriptor,
                                size: keymap.size,
                            },
                            Action::Roundtrip,
                        ],
                    ),
                },
            },
        }
    }

    /// What to do next, in order, or the failure that ends the handshake.
    pub open spec fn plan(self) -> Result<Seq<Action>, Error> {
        match self.stage {
            Stage::Connect => Ok(seq![Action::GetRegistry, Action::Roundtrip]),
            Stage::Discover => match self.state.bind(self.seat.name, self.seat.version) {
                Err(e) => Err(e),
                Ok(seat) => Ok(
                    seq![
                        Action::Bind { object: Object::Seat, name: seat.name, version: seat.version },
                        Action::GetKeyboard,
                        Action::Roundtrip,
                    ],
                ),
            },
            Stage::Transfer => self.transfer(),
            Stage::Ready => Ok(Seq::empty()),
            Stage::Failed(e) => Err(e),
        }
    }

    /// The handshake after the plan was handed out: one stage further, or
    /// failed. The keymap leaves the state when it is handed out for
    /// installing.
    pub open spec fn next(self) -> HandshakeView {
        match self.plan() {
            Err(e) => HandshakeView { stage: Stage::Failed(e), ..self },
            Ok(_) => match self.stage {
                Stage::Connect => HandshakeView { stage: Stage::Discover, ..self },
                Stage::Discover => HandshakeView { stage: Stage::Transfer, ..self },
                Stage::Transfer => HandshakeView {
                    stage: Stage::Ready,
                    state: StateView { keymap: None, ..self.state },
                    ..self
                },
                _ => self,
            },
        }
    }
}

/// Whether `got` is the plan `want`, or the failure `want`.
pub open spec fn is_plan(got: Result<Vec<Action>, Error>, want: Result<Seq<Action>, Error>) -> bool {
    match (got, want) {
        (Ok(actions), Ok(planned)) => actions@ == planned,
        (Err(e), Err(f)) => e == f,
        _ => false,
    }
}

/// The handshake of one device.
pub struct Handshake {
    stage: Stage,
    state: State,
    seat: Interface,
    input_method: Interface,
    keyboard: Interface,
}

impl Handshake {
    /// The handshake as plain values.
    pub closed spec fn view(&self) -> HandshakeView {
        HandshakeView {
            stage: self.stage,
            state: self.state@,
            seat: InterfaceView { name: self.seat.name@, version: self.seat.version },
            input_method: InterfaceView {
                name: self.input_method.name@,
                version: self.input_method.version,
            },
            keyboard: InterfaceView { name: self.keyboard.name@, version: self.keyboard.version },
        }
    }

    /// A handshake that has not begun, for the three interfaces as this
    /// client implements them.
    pub fn new() -> (r: Handshake)
        ensures
            r@.stage == Stage::Connect,
            r@.state == StateView::initial(),
            r@.seat == (InterfaceView {
                name: Object::Seat.spec_interface_name(),
                version: Object::Seat.spec_max_version(),
            }),
            r@.input_method == (InterfaceView {
                name: Object::InputMethodManager.spec_interface_name(),
                version: Object::InputMethodManager.spec_max_version(),
            }),
            r@.keyboard == (InterfaceView {
                name: Object::VirtualKeyboardManager.spec_interface_name(),
                version: Object::VirtualKeyboardManager.spec_max_version(),
            }),
    {
        Handshake::with_interfaces(
            Object::Seat.interface(),
            Object::InputMethodManager.interface(),
            Object::VirtualKeyboardManager.interface(),
        )
    }

    /// A handshake that has not begun, for interfaces of the caller's choice.
    pub fn with_interfaces(seat: Interface, input_method: Interface, keyboard: Interface) -> (r:
        Handshake)
        ensures
            r@.stage == Stage::Connect,
            r@.state == StateView::initial(),
            r@.seat == (InterfaceView { name: seat.name@, version: seat.version }),
            r@.input_method == (InterfaceView {
                name: input_method.name@,
                version: input_method.version,
            }),
            r@.keyboard == (InterfaceView { name: keyboard.name@, version: keyboard.version }),
    {
        Handshake { stage: Stage::Connect, state: State::new(), seat, input_method, keyboard }
    }

    /// How far the handshake has come.
    pub fn stage(&self) -> (r: Stage)
        ensures
            r == self@.stage,
    {
        self.stage
    }

    /// Takes in the events that one roundtrip delivered, and says what to do
    /// with the panel. The stage stays.
    pub fn roundtrip(&mut self, events: &Vec<Event>) -> (r: Vec<UiCmd>)
        ensures
            final(self)@ == (HandshakeView {
                state: old(self)@.state.after_all(events@),
                ..old(self)@
            }),
            r@ == old(self)@.state.reactions(events@),
    {
        self.state.roundtrip(events)
    }

    fn transfer(&mut self) -> (r: Result<Vec<Action>, Error>)
        requires
            old(self)@.stage == Stage::Transfer,
        ensures
            is_plan(r, old(self)@.plan()),
            final(self)@ == old(self)@.next(),
    {
        let input_method = match self.state.bind_global(&self.input_method) {
            Ok(global) => global,
            Err(e) => {
                self.stage = Stage::Failed(e);
                return Err(e);
            },
        };
        let keyboard = match self.state.bind_global(&self.keyboard) {
            Ok(global) => global,
            Err(e) => {
                self.stage = Stage::Failed(e);
                return Err(e);
            },
        };
        match self.state.keymap.take() {
            None => {
                self.stage = Stage::Failed(Error::KeymapMissing);
                Err(Error::KeymapMissing)
            },
            Some(keymap) => {
                self.stage = Stage::Ready;
                Ok(
                    vec![
                        Action::Bind {
                            object: Object::InputMethodManager,
                            name: input_method.name,
                            version: input_method.version,
                        },
                        Action::GetInputMethod,
                        Action::Bind {
                            object: Object::VirtualKeyboardManager,
                            name: keyboard.name,
                            version: keyboard.version,
                        },
                        Action::CreateVirtualKeyboard,
                        Action::InstallKeymap {
                            format: xkb_v1_tag(),
                            descriptor: keymap.descriptor,
                            size: keymap.size,
                        },
                        Action::Roundtrip,
                    ],
                )
            },
        }
    }

    /// Hands out what to do next, in order, and moves one stage on; or ends
    /// the handshake with the failure that stands in the way. Once ready
    /// there is nothing left to do; once failed the failure stays.
    pub fn advance(&mut self) -> (r: Result<Vec<Action>, Error>)
        ensures
            is_plan(r, old(self)@.plan()),
            final(self)@ == old(self)@.next(),
    {
        match self.stage {
            Stage::Connect => {
                self.stage = Stage::Discover;
                Ok(vec![Action::GetRegistry, Action::Roundtrip])
            },
            Stage::Discover => match self.state.bind_global(&self.seat) {
                Err(e) => {
                    self.stage = Stage::Failed(e);
                    Err(e)
                },
                Ok(seat) => {
                    self.stage = Stage::Transfer;
                    Ok(
                        vec![
                            Action::Bind {
                                object: Object::Seat,
                                name: seat.name,
                                version: seat.version,
                            },
                            Action::GetKeyboard,
                            Action::Roundtrip,
                        ],
                    )
                },
            },
            Stage::Transfer => self.transfer(),
            Stage::Ready => Ok(Vec::new()),
            Stage::Failed(e) => Err(e),
        }
    }

    /// Gives up the state that the handshake gathered, if it is ready.
    pub(crate) fn into_state(self) -> (r: Result<State, Error>)
        ensures
            r is Ok <==> self@.stage == Stage::Ready,
            r matches Ok(state) ==> state@ == self@.state,
            r matches Err(e) ==> e == (match self@.stage {
                Stage::Failed(f) => f,
                _ => Error::KeymapMissing,
            }),
    {
        match self.stage {
            Stage::Ready => Ok(self.state),
            Stage::Failed(e) => Err(e),
            _ => Err(Error::KeymapMissing),
        }
    }
}

/// A handshake becomes ready only by handing out the keymap for installing:
/// the step that makes it ready begins where the seat is bound, finds both
/// managers advertised at versions that this client implements, finds a
/// keymap, and plans its installation.
pub proof fn lemma_ready_only_with_keymap(h: HandshakeView)
    requires
        h.stage != Stage::Ready,
        h.next().stage == Stage::Ready,
    ensures
        h.stage == Stage::Transfer,
        h.state.keymap is Some,
        h.state.bind(h.input_method.name, h.input_method.version) is Ok,
        h.state.bind(h.keyboard.name, h.keyboard.version) is Ok,
        h.plan() is Ok,
        h.plan().unwrap().len() == 6,
        h.plan().unwrap()[4] == (Action::InstallKeymap {
            format: KEYMAP_FORMAT_XKB_V1,
            descriptor: h.state.keymap.unwrap().descriptor,
            size: h.state.keymap.unwrap().size,
        }),
        h.next().state.keymap is None,
{
}

/// Binding goes by the versions alone: an advertised interface is refused as
/// too new exactly if its version is above the client's, and is otherwise
/// bound as advertised.
pub proof fn lemma_bind_version_guard(state: StateView, interface: Seq<char>, max: u32)
    requires
        state.globals.contains_key(interface),
    ensures
        state.bind(interface, max) == Err::<Global, Error>(Error::VersionUnsupported)
            <==> state.globals[interface].version > max,
        state.globals[interface].version <= max ==> state.bind(interface, max) == Ok::<
            Global,
            Error,
        >(state.globals[interface]),
{
}

/// Nothing is bound before the registry was heard: the first plan subscribes
/// to the registry and makes a roundtrip, and binds nothing. Every plan that
/// asks for anything ends with a roundtrip, so that the next one is made
/// from what the compositor answered.
pub proof fn lemma_plans_end_with_roundtrip(h: HandshakeView)
    requires
        h.plan() is Ok,
        h.plan().unwrap().len() > 0,
    ensures
        h.plan().unwrap().last() == Action::Roundtrip,
        h.stage == Stage::Connect ==> h.plan().unwrap() == seq![
            Action::GetRegistry,
            Action::Roundtrip,
        ],
{
}

/// A handshake in which nothing stands in the way is ready after three
/// plans, and not before.
pub proof fn lemma_three_plans_to_ready(h: HandshakeView)
    requires
        h.stage == Stage::Connect,
        h.next().plan() is Ok,
        h.next().next().plan() is Ok,
    ensures
        h.next().stage == Stage::Discover,
        h.next().next().stage == Stage::Transfer,
        h.next().next().next().stage == Stage::Ready,
{
}

/// A failed handshake stays failed, with the same failure, whatever is
/// asked of it.
pub proof fn lemma_failure_is_final(h: HandshakeView, e: Error)
    requires
        h.stage == Stage::Failed(e),
    ensures
        h.next() == h,
        h.plan() == Err::<Seq<Action>, Error>(e),
{
}

} // verus!
