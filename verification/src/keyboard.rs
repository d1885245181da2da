//! The virtual keyboard once it is bound: what each operation does to the
//! state, and which request it makes of the compositor.

use crate::args::UiCmd;
use crate::error::Error;
use crate::handshake::{Handshake, Stage};
use crate::modifiers::{ModState, Modifier};
use crate::protocol::{key_state, spec_key_state, Event, Request};
use crate::registry::is_listing;
use crate::state::{State, StateView};
use vstd::prelude::*;

verus! {

/// The request that tells the compositor which modifiers are held: they are
/// latched, and nothing is ever depressed or locked, in group zero.
pub open spec fn modifiers_request(mods: ModState) -> Request {
    Request::Modifiers { depressed: 0, latched: mods.mask() as u32, locked: 0, group: 0 }
}

/// The virtual keyboard.
pub struct Keyboard {
    state: State,
}

impl Keyboard {
    /// What the keyboard knows, as plain values.
    pub closed spec fn view(&self) -> StateView {
        self.state@
    }

    /// Makes the keyboard of a handshake that is ready. One that failed
    /// gives its failure; one that is not through has installed no keymap.
    pub fn new(handshake: Handshake) -> (r: Result<Keyboard, Error>)
        ensures
            r is Ok <==> handshake@.stage == Stage::Ready,
            r matches Ok(keyboard) ==> keyboard@ == handshake@.state,
            r matches Err(e) ==> e == (match handshake@.stage {
                Stage::Failed(f) => f,
                _ => Error::KeymapMissing,
            }),
    {
        match handshake.into_state() {
            Ok(state) => Ok(Keyboard { state }),
            Err(e) => Err(e),
        }
    }

    /// The timestamp of a key event: the milliseconds since the epoch, cut
    /// to 32 bits.
    pub fn time(millis: u128) -> (r: u32)
        ensures
            r as int == millis as int % 0x1_0000_0000,
    {
        (millis % 0x1_0000_0000) as u32
    }

    /// The request that sets the state of a key.
    pub fn key(&self, time: u32, key: u32, pressed: bool) -> (r: Request)
        ensures
            r == (Request::Key { time, key, state: spec_key_state(pressed) }),
    {
        Request::Key { time, key, state: key_state(pressed) }
    }

    /// The request that puts a key down.
    pub fn press(&self, time: u32, key: u32) -> (r: Request)
        ensures
            r == (Request::Key { time, key, state: spec_key_state(true) }),
    {
        self.key(time, key, true)
    }

    /// The request that lets a key up.
    pub fn release(&self, time: u32, key: u32) -> (r: Request)
        ensures
            r == (Request::Key { time, key, state: spec_key_state(false) }),
    {
        self.key(time, key, false)
    }

    /// Takes in the events that one roundtrip delivered, in their order, and
    /// says what to do with the panel, in that order.
    pub fn roundtrip(&mut self, events: &Vec<Event>) -> (r: Vec<UiCmd>)
        ensures
            final(self)@ == old(self)@.after_all(events@),
            r@ == old(self)@.reactions(events@),
    {
        self.state.roundtrip(events)
    }

    /// Turns the input detection on.
    pub fn auto_enable(&mut self)
        ensures
            final(self)@ == (StateView { auto: true, ..old(self)@ }),
    {
        self.state.auto = true;
    }

    /// Turns the input detection off.
    pub fn auto_disable(&mut self)
        ensures
            final(self)@ == (StateView { auto: false, ..old(self)@ }),
    {
        self.state.auto = false;
    }

    /// Flips the input detection.
    pub fn auto_toggle(&mut self)
        ensures
            final(self)@ == (StateView { auto: !old(self)@.auto, ..old(self)@ }),
    {
        self.state.auto = !self.state.auto;
    }

    /// Whether the input detection is on.
    pub fn auto_query(&self) -> (r: bool)
        ensures
            r == self@.auto,
    {
        self.state.auto
    }

    /// The request that tells the compositor which modifiers are held.
    pub fn send_mods(&self) -> (r: Request)
        ensures
            r == modifiers_request(self@.mods),
    {
        Request::Modifiers { depressed: 0, latched: self.state.mods.to_bitflags(), locked: 0, group: 0 }
    }

    /// Holds or lets go of a modifier, and gives the request that says so.
    pub fn mod_set(&mut self, modifier: Modifier, pressed: bool) -> (r: Request)
        ensures
            final(self)@ == (StateView {
                mods: old(self)@.mods.with(modifier, pressed),
                ..old(self)@
            }),
            r == modifiers_request(final(self)@.mods),
    {
        self.state.mods.set(modifier, pressed);
        self.send_mods()
    }

    /// Holds a modifier, and gives the request that says so.
    pub fn mod_press(&mut self, modifier: Modifier) -> (r: Request)
        ensures
            final(self)@ == (StateView {
                mods: old(self)@.mods.with(modifier, true),
                ..old(self)@
            }),
            r == modifiers_request(final(self)@.mods),
    {
        self.mod_set(modifier, true)
    }

    /// Lets go of a modifier, and gives the request that says so.
    pub fn mod_release(&mut self, modifier: Modifier) -> (r: Request)
        ensures
            final(self)@ == (StateView {
                mods: old(self)@.mods.with(modifier, false),
                ..old(self)@
            }),
            r == modifiers_request(final(self)@.mods),
    {
        self.mod_set(modifier, false)
    }

    /// Flips a modifier, and gives the request that says so.
    pub fn mod_toggle(&mut self, modifier: Modifier) -> (r: Request)
        ensures
            final(self)@ == (StateView {
                mods: old(self)@.mods.with(modifier, !old(self)@.mods.held(modifier)),
                ..old(self)@
            }),
            r == modifiers_request(final(self)@.mods),
    {
        self.state.mods.toggle(modifier);
        self.send_mods()
    }

    /// Whether a modifier is held.
    pub fn mod_query(&self, modifier: Modifier) -> (r: bool)
        ensures
            r == self@.mods.held(modifier),
    {
        self.state.mods.query(modifier)
    }

    /// Lets go of all modifiers, and gives the request that says so: its
    /// mask is zero, whatever was held before.
    pub fn mod_release_all(&mut self) -> (r: Request)
        ensures
            final(self)@ == (StateView { mods: ModState::released(), ..old(self)@ }),
            r == modifiers_request(ModState::released()),
            r == (Request::Modifiers { depressed: 0, latched: 0, locked: 0, group: 0 }),
    {
        self.state.mods.release_all();
        self.send_mods()
    }

    /// The names of the interfaces that the compositor advertises, each
    /// once.
    pub fn protocols(&self) -> (r: Vec<String>)
        ensures
            is_listing(r@, self@.globals),
    {
        self.state.globals.names()
    }
}

} // verus!
