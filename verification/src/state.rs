//! What the device knows: the advertised objects, the keymap that is waiting
//! to be installed, the input detection flag and the modifiers.

use crate::args::UiCmd;
use crate::error::Error;
use crate::modifiers::ModState;
use crate::protocol::{xkb_v1_tag, Event, Interface, KEYMAP_FORMAT_XKB_V1};
use crate::registry::{Global, Registry};
use vstd::prelude::*;

verus! {

/// The keymap of the seat's keyboard: the descriptor of the shared memory
/// that holds it, and its size in bytes.
#[derive(Clone, Copy, Debug, PartialEq, Eq, Structural)]
pub struct Keymap {
    pub descriptor: i32,
    pub size: u32,
}

/// What the device knows.
pub struct State {
    pub globals: Registry,
    pub keymap: Option<Keymap>,
    /// Whether the panel follows the text entries.
    pub auto: bool,
    pub mods: ModState,
}

/// The state as plain values.
pub ghost struct StateView {
    pub globals: Map<Seq<char>, Global>,
    pub keymap: Option<Keymap>,
    pub auto: bool,
    pub mods: ModState,
}

impl StateView {
    /// The state before anything was heard from the compositor.
    pub open spec fn initial() -> StateView {
        StateView {
            globals: Map::empty(),
            keymap: None,
            auto: false,
            mods: ModState::released(),
        }
    }

    /// The state after one event: an announcement is recorded under its
    /// interface name, a keymap is kept if it is in the supported format, and
    /// nothing else changes anything.
    pub open spec fn after(self, event: Event) -> StateView {
        match event {
            Event::Global { name, interface, version } => StateView {
                globals: self.globals.insert(interface@, Global { name, version }),
                ..self
            },
            Event::Keymap { format, descriptor, size } => if format == KEYMAP_FORMAT_XKB_V1 {
                StateView { keymap: Some(Keymap { descriptor, size }), ..self }
            } else {
                self
            },
            _ => self,
        }
    }

    /// What to do with the panel on one event: while the input detection is
    /// on, it opens when a text entry becomes active and closes when one
    /// becomes inactive.
    pub open spec fn reaction(self, event: Event) -> Option<UiCmd> {
        if !self.auto {
            None
        } else {
            match event {
                Event::Activate => Some(UiCmd::Open),
                Event::Deactivate => Some(UiCmd::Close),
                _ => None,
            }
        }
    }

    /// The state after the events, taken in order.
    pub open spec fn after_all(self, events: Seq<Event>) -> StateView
        decreases events.len(),
    {
        if events.len() == 0 {
            self
        } else {
            self.after_all(events.drop_last()).after(events.last())
        }
    }

    /// What to do with the panel on the events, in their order.
    pub open spec fn reactions(self, events: Seq<Event>) -> Seq<UiCmd>
        decreases events.len(),
    {
        if events.len() == 0 {
            Seq::empty()
        } else {
            let earlier = self.reactions(events.drop_last());
            match self.after_all(events.drop_last()).reaction(events.last()) {
                Some(cmd) => earlier.push(cmd),
                None => earlier,
            }
        }
    }

    /// Whether `interface` can be bound, and as what: the advertised object of
    /// that name, unless there is none or its version is newer than `max`.
    pub open spec fn bind(self, interface: Seq<char>, max: u32) -> Result<Global, Error> {
        if !self.globals.contains_key(interface) {
            Err(Error::CapabilityMissing)
        } else if self.globals[interface].version > max {
            Err(Error::VersionUnsupported)
        } else {
            Ok(self.globals[interface])
        }
    }
}

/// Events change neither the input detection nor the modifiers.
pub proof fn lemma_events_keep_flags(s: StateView, events: Seq<Event>)
    ensures
        s.after_all(events).auto == s.auto,
        s.after_all(events).mods == s.mods,
    decreases events.len(),
{
    if events.len() > 0 {
        lemma_events_keep_flags(s, events.drop_last());
    }
}

/// While the input detection is off, no event does anything to the panel.
pub proof fn lemma_no_reaction_without_auto(s: StateView, events: Seq<Event>)
    requires
        !s.auto,
    ensures
        s.reactions(events) == Seq::<UiCmd>::empty(),
    decreases events.len(),
{
    if events.len() > 0 {
        lemma_no_reaction_without_auto(s, events.drop_last());
        lemma_events_keep_flags(s, events.drop_last());
    }
}

/// Announcements are never forgotten: what was advertised before the events
/// is advertised after them.
pub proof fn lemma_events_keep_globals(s: StateView, events: Seq<Event>, interface: Seq<char>)
    requires
        s.globals.contains_key(interface),
    ensures
        s.after_all(events).globals.contains_key(interface),
    decreases events.len(),
{
    if events.len() > 0 {
        lemma_events_keep_globals(s, events.drop_last(), interface);
    }
}

impl State {
    /// The state as plain values.
    pub open spec fn view(&self) -> StateView {
        StateView {
            globals: self.globals@,
            keymap: self.keymap,
            auto: self.auto,
            mods: self.mods,
        }
    }

    /// The state before anything was heard from the compositor.
    pub fn new() -> (r: State)
        ensures
            r@ == StateView::initial(),
    {
        State { globals: Registry::new(), keymap: None, auto: false, mods: ModState::default() }
    }

    /// Takes in one event, and says what to do with the panel.
    pub fn event(&mut self, event: &Event) -> (r: Option<UiCmd>)
        ensures
            final(self)@ == old(self)@.after(*event),
            r == old(self)@.reaction(*event),
    {
        match event {
            Event::Global { name, interface, version } => {
                self.globals.insert(interface.clone(), Global { name: *name, version: *version });
                None
            },
            Event::Keymap { format, descriptor, size } => {
                if *format == xkb_v1_tag() {
                    self.keymap = Some(Keymap { descriptor: *descriptor, size: *size });
                }
                None
            },
            Event::Activate => if self.auto {
                Some(UiCmd::Open)
            } else {
                None
            },
            Event::Deactivate => if self.auto {
                Some(UiCmd::Close)
            } else {
                None
            },
            Event::Other => None,
        }
    }

    /// Takes in the events that one roundtrip delivered, in their order, and
    /// says what to do with the panel, in that order.
    pub fn roundtrip(&mut self, events: &Vec<Event>) -> (r: Vec<UiCmd>)
        ensures
            final(self)@ == old(self)@.after_all(events@),
            r@ == old(self)@.reactions(events@),
    {
        let mut out: Vec<UiCmd> = Vec::new();
        let mut i: usize = 0;
        while i < events.len()
            invariant
                i <= events@.len(),
                self@ == old(self)@.after_all(events@.take(i as int)),
                out@ == old(self)@.reactions(events@.take(i as int)),
            decreases events@.len() - i,
        {
            proof {
                assert(events@.take(i + 1).drop_last() =~= events@.take(i as int));
                assert(events@.take(i + 1).last() == events@[i as int]);
            }
            match self.event(&events[i]) {
                Some(cmd) => {
                    out.push(cmd);
                },
                None => {},
            }
            i = i + 1;
        }
        proof {
            assert(events@.take(events@.len() as int) =~= events@);
        }
        out
    }

    /// Decides whether `interface` can be bound: the advertised object of
    /// that name is handed out for binding at the advertised version, unless
    /// the compositor advertises none, or a version newer than the
    /// interface's own.
    pub fn bind_global(&self, interface: &Interface) -> (r: Result<Global, Error>)
        ensures
            r == self@.bind(interface.name@, interface.version),
    {
        match self.globals.find(interface.name.as_str()) {
            None => Err(Error::CapabilityMissing),
            Some(global) => if global.version > interface.version {
                Err(Error::VersionUnsupported)
            } else {
                Ok(global)
            },
        }
    }
}

} // verus!
