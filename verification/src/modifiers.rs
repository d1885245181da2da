//! The four modifiers and the mask that tells the compositor which are held.

use crate::error::Error;
use crate::keycode::same_text;
use vstd::prelude::*;

verus! {

/// A modifier key.
#[derive(Clone, Copy, Debug, PartialEq, Eq, Structural)]
pub enum Modifier {
    Shift,
    Ctrl,
    Alt,
    Cmd,
}

/// The bit of shift in the latched mask.
pub const SHIFT_BIT: u32 = 0x01;

/// The bit of ctrl in the latched mask.
pub const CTRL_BIT: u32 = 0x04;

/// The bit of alt in the latched mask.
pub const ALT_BIT: u32 = 0x08;

/// The bit of cmd in the latched mask.
pub const CMD_BIT: u32 = 0x40;

impl Modifier {
    /// The bit that the modifier contributes to the mask while held.
    pub open spec fn spec_bit(self) -> u32 {
        match self {
            Modifier::Shift => SHIFT_BIT,
            Modifier::Ctrl => CTRL_BIT,
            Modifier::Alt => ALT_BIT,
            Modifier::Cmd => CMD_BIT,
        }
    }

    /// The modifier that a name stands for, if any: the names are `SHIFT`,
    /// `CTRL`, `ALT` and `CMD`.
    pub open spec fn spec_from_name(name: Seq<char>) -> Option<Modifier> {
        if name == seq!['S', 'H', 'I', 'F', 'T'] {
            Some(Modifier::Shift)
        } else if name == seq!['C', 'T', 'R', 'L'] {
            Some(Modifier::Ctrl)
        } else if name == seq!['A', 'L', 'T'] {
            Some(Modifier::Alt)
        } else if name == seq!['C', 'M', 'D'] {
            Some(Modifier::Cmd)
        } else {
            None
        }
    }

    /// Reads a modifier's name. A name that is none of the four is answered
    /// with `InvalidArgument`.
    pub fn from_str_name(name: &str) -> (r: Result<Modifier, Error>)
        ensures
            r == (match Modifier::spec_from_name(name@) {
                Some(modifier) => Ok::<Modifier, Error>(modifier),
                None => Err::<Modifier, Error>(Error::InvalidArgument),
            }),
    {
        proof {
            reveal_strlit("SHIFT");
            reveal_strlit("CTRL");
            reveal_strlit("ALT");
            reveal_strlit("CMD");
            assert("SHIFT"@ =~= seq!['S', 'H', 'I', 'F', 'T']);
            assert("CTRL"@ =~= seq!['C', 'T', 'R', 'L']);
            assert("ALT"@ =~= seq!['A', 'L', 'T']);
            assert("CMD"@ =~= seq!['C', 'M', 'D']);
        }
        if same_text(name, "SHIFT") {
            Ok(Modifier::Shift)
        } else if same_text(name, "CTRL") {
            Ok(Modifier::Ctrl)
        } else if same_text(name, "ALT") {
            Ok(Modifier::Alt)
        } else if same_text(name, "CMD") {
            Ok(Modifier::Cmd)
        } else {
            Err(Error::InvalidArgument)
        }
    }

    /// The bit that the modifier contributes to the mask while held.
    pub fn bit(self) -> (r: u32)
        ensures
            r == self.spec_bit(),
    {
        match self {
            Modifier::Shift => SHIFT_BIT,
            Modifier::Ctrl => CTRL_BIT,
            Modifier::Alt => ALT_BIT,
            Modifier::Cmd => CMD_BIT,
        }
    }
}

/// Which modifiers are held.
#[derive(Clone, Copy, Debug, PartialEq, Eq, Structural)]
pub struct ModState {
    pub shift: bool,
    pub ctrl: bool,
    pub alt: bool,
    pub cmd: bool,
}

impl Default for ModState {
    fn default() -> (r: ModState)
        ensures
            r == ModState::released(),
    {
        ModState { shift: false, ctrl: false, alt: false, cmd: false }
    }
}

impl ModState {
    /// The state in which no modifier is held.
    pub open spec fn released() -> ModState {
        ModState { shift: false, ctrl: false, alt: false, cmd: false }
    }

    /// Whether `modifier` is held.
    pub open spec fn held(self, modifier: Modifier) -> bool {
        match modifier {
            Modifier::Shift => self.shift,
            Modifier::Ctrl => self.ctrl,
            Modifier::Alt => self.alt,
            Modifier::Cmd => self.cmd,
        }
    }

    /// The state with `modifier` held or not, and the other three as they are.
    pub open spec fn with(self, modifier: Modifier, pressed: bool) -> ModState {
        match modifier {
            Modifier::Shift => ModState { shift: pressed, ..self },
            Modifier::Ctrl => ModState { ctrl: pressed, ..self },
            Modifier::Alt => ModState { alt: pressed, ..self },
            Modifier::Cmd => ModState { cmd: pressed, ..self },
        }
    }

    /// The latched mask: the sum of the bits of the modifiers that are held.
    pub open spec fn mask(self) -> int {
        (if self.shift { 0x01int } else { 0 })
            + (if self.ctrl { 0x04int } else { 0 })
            + (if self.alt { 0x08int } else { 0 })
            + (if self.cmd { 0x40int } else { 0 })
    }

    /// Encodes the state as the latched mask. The result depends on the four
    /// flags alone, and each flag can be read back from its bit.
    pub fn to_bitflags(&self) -> (r: u32)
        ensures
            r == self.mask(),
            (r & SHIFT_BIT != 0) == self.shift,
            (r & CTRL_BIT != 0) == self.ctrl,
            (r & ALT_BIT != 0) == self.alt,
            (r & CMD_BIT != 0) == self.cmd,
            r & !(SHIFT_BIT | CTRL_BIT | ALT_BIT | CMD_BIT) == 0,
    {
        let s: u32 = if self.shift { SHIFT_BIT } else { 0 };
        let c: u32 = if self.ctrl { CTRL_BIT } else { 0 };
        let a: u32 = if self.alt { ALT_BIT } else { 0 };
        let m: u32 = if self.cmd { CMD_BIT } else { 0 };
        let r: u32 = s | c | a | m;
        assert(r == s + c + a + m && (r & 0x01 != 0) == (s != 0) && (r & 0x04 != 0) == (c != 0)
            && (r & 0x08 != 0) == (a != 0) && (r & 0x40 != 0) == (m != 0)
            && r & !(0x01u32 | 0x04 | 0x08 | 0x40) == 0) by (bit_vector)
            requires
                s == 0 || s == 0x01,
                c == 0 || c == 0x04,
                a == 0 || a == 0x08,
                m == 0 || m == 0x40,
                r == s | c | a | m,
        ;
        r
    }

    /// Whether `modifier` is held.
    pub fn query(&self, modifier: Modifier) -> (r: bool)
        ensures
            r == self.held(modifier),
    {
        match modifier {
            Modifier::Shift => self.shift,
            Modifier::Ctrl => self.ctrl,
            Modifier::Alt => self.alt,
            Modifier::Cmd => self.cmd,
        }
    }

    /// Holds or lets go of `modifier`; the other three stay.
    pub fn set(&mut self, modifier: Modifier, pressed: bool)
        ensures
            *final(self) == old(self).with(modifier, pressed),
    {
        match modifier {
            Modifier::Shift => self.shift = pressed,
            Modifier::Ctrl => self.ctrl = pressed,
            Modifier::Alt => self.alt = pressed,
            Modifier::Cmd => self.cmd = pressed,
        }
    }

    /// Flips `modifier`; the other three stay.
    pub fn toggle(&mut self, modifier: Modifier)
        ensures
            *final(self) == old(self).with(modifier, !old(self).held(modifier)),
    {
        let held = self.query(modifier);
        self.set(modifier, !held);
    }

    /// Lets go of all four.
    pub fn release_all(&mut self)
        ensures
            *final(self) == ModState::released(),
            final(self).mask() == 0,
    {
        *self = ModState { shift: false, ctrl: false, alt: false, cmd: false };
    }
}

/// The mask is a function of the flags: two states with the same flags have
/// the same mask, however they were reached.
pub proof fn lemma_mask_is_function_of_flags(a: ModState, b: ModState)
    requires
        a.shift == b.shift,
        a.ctrl == b.ctrl,
        a.alt == b.alt,
        a.cmd == b.cmd,
    ensures
        a == b,
        a.mask() == b.mask(),
{
}

/// The mask tells the states apart: two states with the same mask hold the
/// same modifiers.
pub proof fn lemma_mask_is_injective(a: ModState, b: ModState)
    requires
        a.mask() == b.mask(),
    ensures
        a == b,
{
}

/// Changes to two different modifiers can be made in either order: the state,
/// and so the mask, comes out the same.
pub proof fn lemma_changes_commute(
    s: ModState,
    first: Modifier,
    first_pressed: bool,
    second: Modifier,
    second_pressed: bool,
)
    requires
        first != second,
    ensures
        s.with(first, first_pressed).with(second, second_pressed) == s.with(
            second,
            second_pressed,
        ).with(first, first_pressed),
        s.with(first, first_pressed).with(second, second_pressed).mask() == s.with(
            second,
            second_pressed,
        ).with(first, first_pressed).mask(),
{
}

/// Making the same change twice is making it once.
pub proof fn lemma_change_is_idempotent(s: ModState, modifier: Modifier, pressed: bool)
    ensures
        s.with(modifier, pressed).with(modifier, pressed) == s.with(modifier, pressed),
        s.with(modifier, pressed).held(modifier) == pressed,
        forall|other: Modifier|
            other != modifier ==> s.with(modifier, pressed).held(other) == s.held(other),
{
}

} // verus!
