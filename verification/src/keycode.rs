//! The fixed table from key names to the codes of the kernel's input events.

use crate::error::Error;
use vstd::prelude::*;
use vstd::string::*;

verus! {

/// The code of `ENTER`.
pub const KEY_ENTER: u32 = 28;

/// The code of `BACKSPACE`.
pub const KEY_BACKSPACE: u32 = 14;

/// The code of `SPACE`.
pub const KEY_SPACE: u32 = 57;

/// The code of the key that bears the letter or digit `c`, if `c` is a lower
/// case letter or a digit. The codes follow the rows of the keyboard: the
/// digits `1` to `9` and then `0`, then the three rows of letters.
pub open spec fn char_code(c: char) -> Option<u32> {
    match c {
        '1' => Some(2u32),
        '2' => Some(3u32),
        '3' => Some(4u32),
        '4' => Some(5u32),
        '5' => Some(6u32),
        '6' => Some(7u32),
        '7' => Some(8u32),
        '8' => Some(9u32),
        '9' => Some(10u32),
        '0' => Some(11u32),
        'q' => Some(16u32),
        'w' => Some(17u32),
        'e' => Some(18u32),
        'r' => Some(19u32),
        't' => Some(20u32),
        'y' => Some(21u32),
        'u' => Some(22u32),
        'i' => Some(23u32),
        'o' => Some(24u32),
        'p' => Some(25u32),
        'a' => Some(30u32),
        's' => Some(31u32),
        'd' => Some(32u32),
        'f' => Some(33u32),
        'g' => Some(34u32),
        'h' => Some(35u32),
        'j' => Some(36u32),
        'k' => Some(37u32),
        'l' => Some(38u32),
        'z' => Some(44u32),
        'x' => Some(45u32),
        'c' => Some(46u32),
        'v' => Some(47u32),
        'b' => Some(48u32),
        'n' => Some(49u32),
        'm' => Some(50u32),
        _ => None,
    }
}

/// The code that a key name stands for, if the table holds the name: a single
/// lower case letter or digit, or one of `ENTER`, `BACKSPACE` and `SPACE`.
pub open spec fn key_code(name: Seq<char>) -> Option<u32> {
    if name.len() == 1 {
        char_code(name[0])
    } else if name == seq!['E', 'N', 'T', 'E', 'R'] {
        Some(KEY_ENTER)
    } else if name == seq!['B', 'A', 'C', 'K', 'S', 'P', 'A', 'C', 'E'] {
        Some(KEY_BACKSPACE)
    } else if name == seq!['S', 'P', 'A', 'C', 'E'] {
        Some(KEY_SPACE)
    } else {
        None
    }
}

/// Whether two strings hold the same characters.
pub fn same_text(a: &str, b: &str) -> (r: bool)
    ensures
        r == (a@ == b@),
{
    let n = a.unicode_len();
    if b.unicode_len() != n {
        return false;
    }
    let mut i: usize = 0;
    while i < n
        invariant
            n == a@.len(),
            n == b@.len(),
            i <= n,
            forall|j: int| 0 <= j < i ==> a@[j] == b@[j],
        decreases n - i,
    {
        if a.get_char(i) != b.get_char(i) {
            return false;
        }
        i = i + 1;
    }
    assert(a@ =~= b@);
    true
}

fn code_of_char(c: char) -> (r: Option<u32>)
    ensures
        r == char_code(c),
{
    match c {
        '1' => Some(2),
        '2' => Some(3),
        '3' => Some(4),
        '4' => Some(5),
        '5' => Some(6),
        '6' => Some(7),
        '7' => Some(8),
        '8' => Some(9),
        '9' => Some(10),
        '0' => Some(11),
        'q' => Some(16),
        'w' => Some(17),
        'e' => Some(18),
        'r' => Some(19),
        't' => Some(20),
        'y' => Some(21),
        'u' => Some(22),
        'i' => Some(23),
        'o' => Some(24),
        'p' => Some(25),
        'a' => Some(30),
        's' => Some(31),
        'd' => Some(32),
        'f' => Some(33),
        'g' => Some(34),
        'h' => Some(35),
        'j' => Some(36),
        'k' => Some(37),
        'l' => Some(38),
        'z' => Some(44),
        'x' => Some(45),
        'c' => Some(46),
        'v' => Some(47),
        'b' => Some(48),
        'n' => Some(49),
        'm' => Some(50),
        _ => None,
    }
}

/// Looks a key name up in the table. A name that the table does not hold is
/// answered with `UnknownKey`.
pub fn str_to_key(key: &str) -> (r: Result<u32, Error>)
    ensures
        r == (match key_code(key@) {
            Some(code) => Ok::<u32, Error>(code),
            None => Err::<u32, Error>(Error::UnknownKey),
        }),
{
    proof {
        reveal_strlit("ENTER");
        reveal_strlit("BACKSPACE");
        reveal_strlit("SPACE");
        assert("ENTER"@ =~= seq!['E', 'N', 'T', 'E', 'R']);
        assert("BACKSPACE"@ =~= seq!['B', 'A', 'C', 'K', 'S', 'P', 'A', 'C', 'E']);
        assert("SPACE"@ =~= seq!['S', 'P', 'A', 'C', 'E']);
    }
    let found = if key.unicode_len() == 1 {
        code_of_char(key.get_char(0))
    } else if same_text(key, "ENTER") {
        Some(KEY_ENTER)
    } else if same_text(key, "BACKSPACE") {
        Some(KEY_BACKSPACE)
    } else if same_text(key, "SPACE") {
        Some(KEY_SPACE)
    } else {
        None
    };
    match found {
        Some(code) => Ok(code),
        None => Err(Error::UnknownKey),
    }
}

} // verus!
