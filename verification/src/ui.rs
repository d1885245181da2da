//! The panel: where its configuration lies, and the command lines that open
//! and close it.

use crate::args::UiCmd;
use crate::keycode::same_text;
use vstd::prelude::*;
use vstd::string::*;

verus! {

/// Why no command line for the panel can be made.
#[derive(Clone, Copy, Debug, PartialEq, Eq, Structural)]
pub enum UiError {
    /// No directory from the program's own upwards holds the configuration.
    ConfigNotFound,
    /// A directory on the way up could not be listed.
    Unreadable,
}

/// The name of the configuration's directory, `eww`.
pub open spec fn config_name() -> Seq<char> {
    seq!['e', 'w', 'w']
}

/// Whether a directory with these entries holds the configuration.
pub open spec fn holds_config(names: Seq<String>) -> bool {
    exists|i: int| 0 <= i < names.len() && names[i]@ == config_name()
}

/// Whether the directory `i` steps up was listed and does not hold the
/// configuration.
pub open spec fn passed(listings: Seq<Option<Vec<String>>>, i: int) -> bool {
    listings[i] matches Some(names) && !holds_config(names@)
}

/// Whether a directory with these entries holds the configuration.
pub fn is_config_here(names: &Vec<String>) -> (r: bool)
    ensures
        r == holds_config(names@),
{
    proof {
        reveal_strlit("eww");
        assert("eww"@ =~= config_name());
    }
    let mut i: usize = 0;
    while i < names.len()
        invariant
            i <= names@.len(),
            "eww"@ == config_name(),
            forall|j: int| 0 <= j < i ==> names@[j]@ != config_name(),
        decreases names@.len() - i,
    {
        if same_text(names[i].as_str(), "eww") {
            return true;
        }
        i = i + 1;
    }
    false
}

/// Finds the configuration on the way up from the program's directory.
/// `listings` holds the entries of that directory, of its parent, and so on
/// up to the root, or nothing for a directory that could not be listed. The
/// result is the number of steps up to the first directory that holds the
/// configuration. The search ends without one at the first directory that
/// could not be listed, or at the root.
pub fn find_config_path(listings: &Vec<Option<Vec<String>>>) -> (r: Result<usize, UiError>)
    ensures
        match r {
            Ok(at) => {
                &&& at < listings@.len()
                &&& listings@[at as int] matches Some(names) && holds_config(names@)
                &&& forall|j: int| 0 <= j < at ==> passed(listings@, j)
            },
            Err(UiError::Unreadable) => exists|at: int|
                {
                    &&& 0 <= at < listings@.len()
                    &&& listings@[at] is None
                    &&& forall|j: int| 0 <= j < at ==> passed(listings@, j)
                },
            Err(UiError::ConfigNotFound) => forall|j: int|
                0 <= j < listings@.len() ==> passed(listings@, j),
        },
{
    let mut i: usize = 0;
    while i < listings.len()
        invariant
            i <= listings@.len(),
            forall|j: int| 0 <= j < i ==> passed(listings@, j),
        decreases listings@.len() - i,
    {
        match &listings[i] {
            None => {
                return Err(UiError::Unreadable);
            },
            Some(names) => {
                if is_config_here(names) {
                    return Ok(i);
                }
            },
        }
        i = i + 1;
    }
    Err(UiError::ConfigNotFound)
}

/// The path of the configuration in the directory `dir`.
pub fn config_path(dir: &str) -> (r: String)
    ensures
        r@ == dir@ + "/eww"@,
{
    let mut path = String::from_str(dir);
    path.append("/eww");
    path
}

/// The command line that opens the panel.
pub fn open(config: &str) -> (r: String)
    ensures
        r@ == "eww --config "@ + config@ + " open keyboard"@,
{
    let mut line = String::from_str("eww --config ");
    line.append(config);
    line.append(" open keyboard");
    line
}

/// The command line that closes the panel.
pub fn close(config: &str) -> (r: String)
    ensures
        r@ == "eww --config "@ + config@ + " close keyboard"@,
{
    let mut line = String::from_str("eww --config ");
    line.append(config);
    line.append(" close keyboard");
    line
}

/// The command line that opens the panel if it is closed and closes it if it
/// is open.
pub fn toggle(config: &str) -> (r: String)
    ensures
        r@ == "eww --config "@ + config@ + " open --toggle keyboard"@,
{
    let mut line = String::from_str("eww --config ");
    line.append(config);
    line.append(" open --toggle keyboard");
    line
}

impl UiCmd {
    /// The command line of the command.
    pub open spec fn spec_command_line(self, config: Seq<char>) -> Seq<char> {
        match self {
            UiCmd::Open => "eww --config "@ + config + " open keyboard"@,
            UiCmd::Close => "eww --config "@ + config + " close keyboard"@,
            UiCmd::Toggle => "eww --config "@ + config + " open --toggle keyboard"@,
        }
    }

    /// The command line of the command.
    pub fn command_line(self, config: &str) -> (r: String)
        ensures
            r@ == self.spec_command_line(config@),
    {
        match self {
            UiCmd::Open => open(config),
            UiCmd::Close => close(config),
            UiCmd::Toggle => toggle(config),
        }
    }
}

/// The words of a command line: the stretches between its spaces, empty
/// ones too. There is always a first word, the program.
pub open spec fn words(line: Seq<char>) -> Seq<Seq<char>>
    decreases line.len(),
{
    if line.len() == 0 {
        seq![Seq::empty()]
    } else {
        let earlier = words(line.drop_last());
        if line.last() == ' ' {
            earlier.push(Seq::empty())
        } else {
            earlier.drop_last().push(earlier.last().push(line.last()))
        }
    }
}

/// The words put together again, with one space between each two.
pub open spec fn joined(parts: Seq<Seq<char>>) -> Seq<char>
    decreases parts.len(),
{
    if parts.len() == 0 {
        Seq::empty()
    } else if parts.len() == 1 {
        parts[0]
    } else {
        joined(parts.drop_last()).push(' ') + parts.last()
    }
}

/// The words of a line are what splitting at spaces means: there is at
/// least one, none of them holds a space, and with the spaces put back
/// between them they are the line.
pub proof fn lemma_words_split_at_spaces(line: Seq<char>)
    ensures
        words(line).len() >= 1,
        forall|i: int, j: int|
            0 <= i < words(line).len() && 0 <= j < words(line)[i].len() ==> words(line)[i][j]
                != ' ',
        joined(words(line)) == line,
    decreases line.len(),
{
    if line.len() == 0 {
        assert(joined(words(line)) =~= line);
    } else {
        let shorter = line.drop_last();
        let earlier = words(shorter);
        lemma_words_split_at_spaces(shorter);
        if line.last() == ' ' {
            let now = earlier.push(Seq::empty());
            assert(now.drop_last() =~= earlier);
            assert(joined(now) =~= joined(earlier).push(' '));
            assert(shorter.push(' ') =~= line);
        } else {
            let word = earlier.last().push(line.last());
            let now = earlier.drop_last().push(word);
            assert(now.drop_last() =~= earlier.drop_last());
            if earlier.len() == 1 {
                assert(joined(earlier) == earlier[0]);
                assert(joined(now) == word);
            } else {
                assert(joined(earlier) == joined(earlier.drop_last()).push(' ') + earlier.last());
                assert(joined(now) == joined(earlier.drop_last()).push(' ') + word);
                assert(joined(earlier.drop_last()).push(' ') + word =~= (joined(
                    earlier.drop_last(),
                ).push(' ') + earlier.last()).push(line.last()));
            }
            assert(shorter.push(line.last()) =~= line);
        }
    }
}

/// Splits a command line at its spaces into the program and its arguments.
pub fn command_words(cmd: &str) -> (r: Vec<String>)
    ensures
        r@.len() == words(cmd@).len(),
        r@.len() >= 1,
        forall|i: int| 0 <= i < r@.len() ==> r@[i]@ == words(cmd@)[i],
{
    let n = cmd.unicode_len();
    let mut out: Vec<String> = Vec::new();
    let mut start: usize = 0;
    let mut i: usize = 0;
    proof {
        assert(cmd@.take(0) =~= Seq::<char>::empty());
        assert(cmd@.subrange(0, 0) =~= Seq::<char>::empty());
    }
    while i < n
        invariant
            n == cmd@.len(),
            start <= i <= n,
            words(cmd@.take(i as int)).len() == out@.len() + 1,
            forall|j: int| 0 <= j < out@.len() ==> out@[j]@ == words(cmd@.take(i as int))[j],
            words(cmd@.take(i as int)).last() == cmd@.subrange(start as int, i as int),
        decreases n - i,
    {
        let ghost before = words(cmd@.take(i as int));
        proof {
            assert(cmd@.take(i + 1).drop_last() =~= cmd@.take(i as int));
            assert(cmd@.take(i + 1).last() == cmd@[i as int]);
        }
        if cmd.get_char(i) == ' ' {
            out.push(String::from_str(cmd.substring_char(start, i)));
            start = i + 1;
            proof {
                assert(cmd@.subrange(start as int, i + 1) =~= Seq::<char>::empty());
            }
        } else {
            proof {
                assert(cmd@.subrange(start as int, i + 1) =~= cmd@.subrange(
                    start as int,
                    i as int,
                ).push(cmd@[i as int]));
            }
        }
        i = i + 1;
    }
    proof {
        assert(cmd@.take(n as int) =~= cmd@);
    }
    out.push(String::from_str(cmd.substring_char(start, n)));
    out
}

} // verus!
