//! The daemon's side of each call: which lock it takes, what it does to the
//! keyboard, what is to be sent, and what is answered.

use crate::error::Error;
use crate::keyboard::{modifiers_request, Keyboard};
use crate::keycode::{key_code, str_to_key};
use crate::modifiers::Modifier;
use crate::protocol::Request;
use crate::registry::is_listing;
use crate::state::StateView;
use vstd::prelude::*;
use vstd::string::*;

verus! {

/// How long a key stays down in a tap, in milliseconds.
pub const TAP_DELAY_MS: u64 = 10;

/// How long the daemon waits between two roundtrips of its own, in
/// milliseconds.
pub const PUMP_INTERVAL_MS: u64 = 15;

/// A call of the daemon.
#[derive(Clone, Copy, Debug, PartialEq, Eq, Structural)]
pub enum Rpc {
    SendKey { key: u32 },
    AutoEnable,
    AutoDisable,
    AutoToggle,
    AutoQuery,
    ModPress(Modifier),
    ModRelease(Modifier),
    ModToggle(Modifier),
    ModQuery(Modifier),
    GetProtocols,
    Stop,
}

/// How a call holds the keyboard.
#[derive(Clone, Copy, Debug, PartialEq, Eq, Structural)]
pub enum Lock {
    /// With other readers.
    Shared,
    /// Alone.
    Exclusive,
    /// Not at all.
    Unlocked,
}

/// One thing for the owner of the connection to do for a call.
#[derive(Clone, Copy, Debug, PartialEq, Eq, Structural)]
pub enum Step {
    /// Stamp a key request with the current time, send it and flush.
    Key { key: u32, pressed: bool },
    /// Wait.
    Sleep { millis: u64 },
    /// Send a request and flush.
    Send(Request),
    /// Tell the server loop to end.
    Quit,
}

/// The answer to a call.
#[derive(Debug, PartialEq, Eq)]
pub enum Reply {
    Empty,
    Auto { enabled: bool },
    Mod { pressed: bool },
    Protocols { protocols: Vec<String> },
}

/// How a flag is printed.
pub open spec fn flag_text(flag: bool) -> Seq<char> {
    if flag {
        "true"@
    } else {
        "false"@
    }
}

impl Reply {
    /// Whether `lines` is what the command line prints for the answer:
    /// nothing for an empty one, the flag for a status, and the interface
    /// names one by one.
    pub open spec fn printed_as(self, lines: Seq<String>) -> bool {
        match self {
            Reply::Empty => lines.len() == 0,
            Reply::Auto { enabled } => lines.len() == 1 && lines[0]@ == flag_text(enabled),
            Reply::Mod { pressed } => lines.len() == 1 && lines[0]@ == flag_text(pressed),
            Reply::Protocols { protocols } => {
                &&& lines.len() == protocols@.len()
                &&& forall|i: int| 0 <= i < lines.len() ==> lines[i]@ == protocols@[i]@
            },
        }
    }

    /// The lines that the command line prints for the answer.
    pub fn lines(&self) -> (r: Vec<String>)
        ensures
            self.printed_as(r@),
    {
        match self {
            Reply::Empty => Vec::new(),
            Reply::Auto { enabled } => vec![String::from_str(if *enabled { "true" } else { "false" })],
            Reply::Mod { pressed } => vec![String::from_str(if *pressed { "true" } else { "false" })],
            Reply::Protocols { protocols } => {
                let mut out: Vec<String> = Vec::new();
                let mut i: usize = 0;
                while i < protocols.len()
                    invariant
                        i <= protocols@.len(),
                        out@.len() == i,
                        forall|j: int| 0 <= j < i ==> out@[j]@ == protocols@[j]@,
                    decreases protocols@.len() - i,
                {
                    out.push(protocols[i].clone());
                    i = i + 1;
                }
                out
            },
        }
    }
}

/// What a call comes to: what to do, in order, while the lock is held, and
/// what to answer once all of it is done.
#[derive(Debug, PartialEq, Eq)]
pub struct Served {
    pub steps: Vec<Step>,
    pub reply: Reply,
}

impl Lock {
    /// Whether the keyboard may be used once the lock was taken: not if an
    /// earlier holder failed while holding it. A call that takes no lock is
    /// not held up.
    pub fn taken(self, poisoned: bool) -> (r: Result<(), Error>)
        ensures
            r == (if poisoned && self != Lock::Unlocked {
                Err::<(), Error>(Error::LockPoisoned)
            } else {
                Ok::<(), Error>(())
            }),
    {
        match self {
            Lock::Unlocked => Ok(()),
            _ => if poisoned {
                Err(Error::LockPoisoned)
            } else {
                Ok(())
            },
        }
    }
}

impl Served {
    /// The one response to the call, once every step was carried out,
    /// whether or not an earlier one failed: `sent` holds for each step
    /// whether it went through. The answer is given if all did, and
    /// `TransportFailure` if any did not.
    pub fn conclude(self, sent: &Vec<bool>) -> (r: Result<Reply, Error>)
        ensures
            (forall|i: int| 0 <= i < sent@.len() ==> sent@[i]) ==> r == Ok::<Reply, Error>(
                self.reply,
            ),
            (exists|i: int| 0 <= i < sent@.len() && !sent@[i]) ==> r == Err::<Reply, Error>(
                Error::TransportFailure,
            ),
    {
        let mut i: usize = 0;
        while i < sent.len()
            invariant
                i <= sent@.len(),
                forall|j: int| 0 <= j < i ==> sent@[j],
            decreases sent@.len() - i,
        {
            if !sent[i] {
                return Err(Error::TransportFailure);
            }
            i = i + 1;
        }
        Ok(self.reply)
    }
}

/// A tap: the key goes down, stays down for a moment, and goes up.
pub open spec fn tap(key: u32) -> Seq<Step> {
    seq![
        Step::Key { key, pressed: true },
        Step::Sleep { millis: TAP_DELAY_MS },
        Step::Key { key, pressed: false },
    ]
}

/// The keys that are down after `steps`, if `before` were down before them.
pub open spec fn pressed_after(before: Set<u32>, steps: Seq<Step>) -> Set<u32>
    decreases steps.len(),
{
    if steps.len() == 0 {
        before
    } else {
        let earlier = pressed_after(before, steps.drop_last());
        match steps.last() {
            Step::Key { key, pressed } => if pressed {
                earlier.insert(key)
            } else {
                earlier.remove(key)
            },
            _ => earlier,
        }
    }
}

impl Rpc {
    /// How the call holds the keyboard: a call that only reads shares it, a
    /// call that changes the state or sends anything holds it alone, and the
    /// call that stops the daemon does not touch it.
    pub open spec fn spec_lock(self) -> Lock {
        match self {
            Rpc::AutoQuery | Rpc::ModQuery(_) | Rpc::GetProtocols => Lock::Shared,
            Rpc::Stop => Lock::Unlocked,
            _ => Lock::Exclusive,
        }
    }

    /// The state after the call.
    pub open spec fn served(self, s: StateView) -> StateView {
        match self {
            Rpc::AutoEnable => StateView { auto: true, ..s },
            Rpc::AutoDisable => StateView { auto: false, ..s },
            Rpc::AutoToggle => StateView { auto: !s.auto, ..s },
            Rpc::ModPress(m) => StateView { mods: s.mods.with(m, true), ..s },
            Rpc::ModRelease(m) => StateView { mods: s.mods.with(m, false), ..s },
            Rpc::ModToggle(m) => StateView { mods: s.mods.with(m, !s.mods.held(m)), ..s },
            _ => s,
        }
    }

    /// What the call has the owner of the connection do, in order.
    pub open spec fn steps(self, s: StateView) -> Seq<Step> {
        match self {
            Rpc::SendKey { key } => tap(key),
            Rpc::ModPress(_) | Rpc::ModRelease(_) | Rpc::ModToggle(_) => seq![
                Step::Send(modifiers_request(self.served(s).mods)),
            ],
            Rpc::Stop => seq![Step::Quit],
            _ => Seq::empty(),
        }
    }

    /// Whether `reply` answers the call.
    pub open spec fn answered_by(self, s: StateView, reply: Reply) -> bool {
        match self {
            Rpc::AutoQuery => reply == (Reply::Auto { enabled: s.auto }),
            Rpc::ModQuery(m) => reply == (Reply::Mod { pressed: s.mods.held(m) }),
            Rpc::GetProtocols => reply matches Reply::Protocols { protocols } && is_listing(
                protocols@,
                s.globals,
            ),
            _ => reply == Reply::Empty,
        }
    }

    /// Serves the call if it does not touch the keyboard: the call that
    /// stops the daemon, and no other.
    pub fn serve_unlocked(self) -> (r: Option<Served>)
        ensures
            r is Some <==> self.spec_lock() == Lock::Unlocked,
            r matches Some(served) ==> served.steps@ == seq![Step::Quit] && served.reply
                == Reply::Empty,
    {
        match self {
            Rpc::Stop => Some(Served { steps: vec![Step::Quit], reply: Reply::Empty }),
            _ => None,
        }
    }

    /// How the call holds the keyboard.
    pub fn lock(self) -> (r: Lock)
        ensures
            r == self.spec_lock(),
    {
        match self {
            Rpc::AutoQuery | Rpc::ModQuery(_) | Rpc::GetProtocols => Lock::Shared,
            Rpc::Stop => Lock::Unlocked,
            _ => Lock::Exclusive,
        }
    }
}

/// The daemon's keyboard with the calls that it serves.
pub struct MyDaemon {
    keyboard: Keyboard,
}

impl MyDaemon {
    /// What the keyboard knows, as plain values.
    pub closed spec fn view(&self) -> StateView {
        self.keyboard@
    }

    /// A daemon that serves `keyboard`.
    pub fn new(keyboard: Keyboard) -> (r: MyDaemon)
        ensures
            r@ == keyboard@,
    {
        MyDaemon { keyboard }
    }

    /// The keyboard, to stamp and build the key requests of a tap.
    pub fn keyboard(&self) -> (r: &Keyboard)
        ensures
            r@ == self@,
    {
        &self.keyboard
    }

    /// Taps a key: down, a moment's wait, up. The state stays.
    pub fn send_key(&self, key: u32) -> (r: Vec<Step>)
        ensures
            r@ == tap(key),
    {
        vec![
            Step::Key { key, pressed: true },
            Step::Sleep { millis: TAP_DELAY_MS },
            Step::Key { key, pressed: false },
        ]
    }

    /// Serves the call that taps the key of a name. A name that the table
    /// does not hold is answered with `UnknownKey`, and nothing is to be
    /// sent. Either way the modifiers, the input detection and all else that
    /// the keyboard knows stay as they are.
    pub fn send_key_named(&mut self, name: &str) -> (r: Result<Served, Error>)
        ensures
            final(self)@ == old(self)@,
            key_code(name@) is None ==> r == Err::<Served, Error>(Error::UnknownKey),
            key_code(name@) matches Some(key) ==> r matches Ok(served) && served.steps@ == tap(key)
                && served.reply == Reply::Empty,
    {
        match str_to_key(name) {
            Ok(key) => Ok(self.handle(Rpc::SendKey { key })),
            Err(e) => Err(e),
        }
    }

    /// Turns the input detection on.
    pub fn auto_enable(&mut self)
        ensures
            final(self)@ == Rpc::AutoEnable.served(old(self)@),
    {
        self.keyboard.auto_enable();
    }

    /// Turns the input detection off.
    pub fn auto_disable(&mut self)
        ensures
            final(self)@ == Rpc::AutoDisable.served(old(self)@),
    {
        self.keyboard.auto_disable();
    }

    /// Flips the input detection.
    pub fn auto_toggle(&mut self)
        ensures
            final(self)@ == Rpc::AutoToggle.served(old(self)@),
    {
        self.keyboard.auto_toggle();
    }

    /// Whether the input detection is on.
    pub fn auto_query(&self) -> (r: bool)
        ensures
            r == self@.auto,
    {
        self.keyboard.auto_query()
    }

    /// Holds a modifier, and gives the request to send.
    pub fn mod_press(&mut self, modifier: Modifier) -> (r: Request)
        ensures
            final(self)@ == Rpc::ModPress(modifier).served(old(self)@),
            r == modifiers_request(final(self)@.mods),
    {
        self.keyboard.mod_press(modifier)
    }

    /// Lets go of a modifier, and gives the request to send.
    pub fn mod_release(&mut self, modifier: Modifier) -> (r: Request)
        ensures
            final(self)@ == Rpc::ModRelease(modifier).served(old(self)@),
            r == modifiers_request(final(self)@.mods),
    {
        self.keyboard.mod_release(modifier)
    }

    /// Flips a modifier, and gives the request to send.
    pub fn mod_toggle(&mut self, modifier: Modifier) -> (r: Request)
        ensures
            final(self)@ == Rpc::ModToggle(modifier).served(old(self)@),
            r == modifiers_request(final(self)@.mods),
    {
        self.keyboard.mod_toggle(modifier)
    }

    /// Whether a modifier is held.
    pub fn mod_query(&self, modifier: Modifier) -> (r: bool)
        ensures
            r == self@.mods.held(modifier),
    {
        self.keyboard.mod_query(modifier)
    }

    /// The names of the interfaces that the compositor advertises.
    pub fn get_protocols(&self) -> (r: Vec<String>)
        ensures
            is_listing(r@, self@.globals),
    {
        self.keyboard.protocols()
    }

    /// What ends the server loop.
    pub fn stop(&self) -> (r: Vec<Step>)
        ensures
            r@ == seq![Step::Quit],
    {
        vec![Step::Quit]
    }

    /// Answers a call that only reads, without a change to anything; any
    /// other call is not answered here.
    pub fn answer_shared(&self, rpc: Rpc) -> (r: Option<Reply>)
        ensures
            r is Some <==> rpc.spec_lock() == Lock::Shared,
            r matches Some(reply) ==> rpc.answered_by(self@, reply),
    {
        match rpc {
            Rpc::AutoQuery => Some(Reply::Auto { enabled: self.auto_query() }),
            Rpc::ModQuery(modifier) => Some(Reply::Mod { pressed: self.mod_query(modifier) }),
            Rpc::GetProtocols => Some(Reply::Protocols { protocols: self.get_protocols() }),
            _ => None,
        }
    }

    /// Serves one call: one operation on the keyboard, and one answer.
    pub fn handle(&mut self, rpc: Rpc) -> (r: Served)
        ensures
            final(self)@ == rpc.served(old(self)@),
            r.steps@ == rpc.steps(old(self)@),
            rpc.answered_by(old(self)@, r.reply),
    {
        match rpc {
            Rpc::SendKey { key } => Served { steps: self.send_key(key), reply: Reply::Empty },
            Rpc::AutoEnable => {
                self.auto_enable();
                Served { steps: Vec::new(), reply: Reply::Empty }
            },
            Rpc::AutoDisable => {
                self.auto_disable();
                Served { steps: Vec::new(), reply: Reply::Empty }
            },
            Rpc::AutoToggle => {
                self.auto_toggle();
                Served { steps: Vec::new(), reply: Reply::Empty }
            },
            Rpc::AutoQuery => Served {
                steps: Vec::new(),
                reply: Reply::Auto { enabled: self.auto_query() },
            },
            Rpc::ModPress(modifier) => {
                let request = self.mod_press(modifier);
                Served { steps: vec![Step::Send(request)], reply: Reply::Empty }
            },
            Rpc::ModRelease(modifier) => {
                let request = self.mod_release(modifier);
                Served { steps: vec![Step::Send(request)], reply: Reply::Empty }
            },
            Rpc::ModToggle(modifier) => {
                let request = self.mod_toggle(modifier);
                Served { steps: vec![Step::Send(request)], reply: Reply::Empty }
            },
            Rpc::ModQuery(modifier) => Served {
                steps: Vec::new(),
                reply: Reply::Mod { pressed: self.mod_query(modifier) },
            },
            Rpc::GetProtocols => Served {
                steps: Vec::new(),
                reply: Reply::Protocols { protocols: self.get_protocols() },
            },
            Rpc::Stop => Served { steps: self.stop(), reply: Reply::Empty },
        }
    }

    /// The daemon's own roundtrip: takes in what arrived, and says what to
    /// do with the panel.
    pub fn pump(&mut self, events: &Vec<crate::protocol::Event>) -> (r: Vec<crate::args::UiCmd>)
        ensures
            final(self)@ == old(self)@.after_all(events@),
            r@ == old(self)@.reactions(events@),
    {
        self.keyboard.roundtrip(events)
    }
}

/// A call that does not hold the keyboard alone changes nothing and sends
/// nothing to the compositor.
pub proof fn lemma_readers_change_nothing(rpc: Rpc, s: StateView)
    requires
        rpc.spec_lock() != Lock::Exclusive,
    ensures
        rpc.served(s) == s,
        rpc.steps(s) == Seq::<Step>::empty() || rpc.steps(s) == seq![Step::Quit],
{
}

/// A tap holds the keyboard alone for all of its steps, and changes neither
/// the modifiers nor the input detection, nor anything else that the
/// keyboard knows.
pub proof fn lemma_tap_is_exclusive(key: u32, s: StateView)
    ensures
        (Rpc::SendKey { key }).spec_lock() == Lock::Exclusive,
        (Rpc::SendKey { key }).steps(s) == tap(key),
        (Rpc::SendKey { key }).served(s) == s,
{
}

/// Flipping the input detection twice leaves it as it was, and after one
/// flip it is the opposite.
pub proof fn lemma_auto_toggle_twice(s: StateView)
    ensures
        Rpc::AutoToggle.served(Rpc::AutoToggle.served(s)) == s,
        Rpc::AutoToggle.served(s).auto == !s.auto,
{
}

/// What is down after two runs of steps is what is down after the second,
/// begun with what the first left down.
pub proof fn lemma_pressed_after_concat(before: Set<u32>, first: Seq<Step>, second: Seq<Step>)
    ensures
        pressed_after(before, first + second) == pressed_after(
            pressed_after(before, first),
            second,
        ),
    decreases second.len(),
{
    if second.len() == 0 {
        assert(first + second =~= first);
    } else {
        lemma_pressed_after_concat(before, first, second.drop_last());
        assert((first + second).drop_last() =~= first + second.drop_last());
        assert((first + second).last() == second.last());
    }
}

/// After a tap its key is up, whatever was down before, and every other key
/// is as it was.
pub proof fn lemma_tap_leaves_key_up(before: Set<u32>, key: u32)
    ensures
        pressed_after(before, tap(key)) == before.remove(key),
        !pressed_after(before, tap(key)).contains(key),
{
    let t = tap(key);
    let t2 = t.drop_last();
    let t1 = t2.drop_last();
    let t0 = t1.drop_last();
    assert(t0.len() == 0);
    assert(pressed_after(before, t0) == before);
    assert(pressed_after(before, t1) == before.insert(key));
    assert(pressed_after(before, t2) == before.insert(key));
    assert(pressed_after(before, t) == before.insert(key).remove(key));
    assert(before.insert(key).remove(key) =~= before.remove(key));
}

/// Two taps of one key leave it up, whatever was down before them and
/// whatever was done between them.
pub proof fn lemma_taps_leave_key_up(before: Set<u32>, key: u32, between: Seq<Step>)
    ensures
        !pressed_after(before, tap(key) + between + tap(key)).contains(key),
        !pressed_after(before, tap(key) + tap(key)).contains(key),
{
    lemma_pressed_after_concat(before, tap(key) + between, tap(key));
    lemma_tap_leaves_key_up(pressed_after(before, tap(key) + between), key);
    lemma_pressed_after_concat(before, tap(key), tap(key));
    lemma_tap_leaves_key_up(pressed_after(before, tap(key)), key);
}

} // verus!
