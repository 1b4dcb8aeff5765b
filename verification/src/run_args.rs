//! The command line that a program is run with.

use vstd::prelude::*;
use vstd::string::*;

use crate::text;

verus! {

/// The dproj's run parameters and the saved start parameters on one command
/// line.
pub open spec fn fused(dproj: Option<Seq<char>>, saved: Option<Seq<char>>) -> Option<Seq<char>> {
    match (dproj, saved) {
        (Some(d), Some(s)) => Some(d + " "@ + s),
        (Some(d), None) => Some(d),
        (None, Some(s)) => Some(s),
        (None, None) => None,
    }
}

/// The dproj's run parameters and the saved start parameters on one command
/// line, those of the dproj first.
pub fn fuse_run_params(dproj: &Option<String>, saved: &Option<String>) -> (res: Option<String>)
    ensures
        text::opt(res) == fused(text::opt(*dproj), text::opt(*saved)),
{
    match (dproj, saved) {
        (Some(d), Some(s)) => Some(d.clone().concat(" ").concat(s.as_str())),
        (Some(d), None) => Some(d.clone()),
        (None, Some(s)) => Some(s.clone()),
        (None, None) => None,
    }
}

/// How far a command line has been read.
#[verifier::ext_equal]
pub struct Reading {
    /// The arguments that are complete.
    pub done: Seq<Seq<char>>,
    /// The argument being read.
    pub current: Option<Seq<char>>,
    /// Whether a quotation is open.
    pub quoted: bool,
}

/// The argument read so far, begun where none was.
pub open spec fn begun(current: Option<Seq<char>>) -> Seq<char> {
    match current {
        Some(c) => c,
        None => Seq::empty(),
    }
}

/// One character further: a double quote opens or closes a quotation and
/// counts as the beginning of an argument, white space outside of a quotation
/// ends one, and any other character belongs to it.
pub open spec fn read_on(reading: Reading, c: char) -> Reading {
    if c == '"' {
        Reading { current: Some(begun(reading.current)), quoted: !reading.quoted, ..reading }
    } else if text::white_space(c) && !reading.quoted {
        match reading.current {
            Some(argument) => Reading { done: reading.done.push(argument), current: None, ..reading },
            None => reading,
        }
    } else {
        Reading { current: Some(begun(reading.current).push(c)), ..reading }
    }
}

/// How far a command line is read after the characters of `s`.
pub open spec fn reading_of(s: Seq<char>) -> Reading
    decreases s.len(),
{
    if s.len() == 0 {
        Reading { done: Seq::empty(), current: None, quoted: false }
    } else {
        read_on(reading_of(s.drop_last()), s.last())
    }
}

/// The arguments on a command line: separated by white space, except within
/// double quotes, which are not part of an argument.
pub open spec fn arguments_of(s: Seq<char>) -> Seq<Seq<char>> {
    let reading = reading_of(s);
    match reading.current {
        Some(argument) => reading.done.push(argument),
        None => reading.done,
    }
}

/// The arguments on a command line.
pub fn split_run_args(line: &str) -> (res: Vec<String>)
    ensures
        text::texts(res@) == arguments_of(line@),
{
    let chars = text::to_chars(line);
    let mut done: Vec<String> = Vec::new();
    let mut current: Option<String> = None;
    let mut quoted: bool = false;
    let mut i: usize = 0;
    proof {
        assert(chars@.take(0) == Seq::<char>::empty());
        assert(text::texts(done@) =~= Seq::<Seq<char>>::empty());
    }
    while i < chars.len()
        invariant
            i <= chars@.len(),
            chars@ == line@,
            reading_of(chars@.take(i as int)) == (Reading {
                done: text::texts(done@),
                current: text::opt(current),
                quoted,
            }),
        decreases chars@.len() - i,
    {
        let c = chars[i];
        proof {
            assert(chars@.take(i + 1).drop_last() == chars@.take(i as int));
            assert(chars@.take(i + 1).last() == c);
        }
        if c == '"' {
            current = match current {
                Some(argument) => Some(argument),
                None => Some(String::new()),
            };
            quoted = !quoted;
        } else if text::is_white_space(c) && !quoted {
            match current {
                Some(argument) => {
                    let ghost before = text::texts(done@);
                    done.push(argument);
                    proof {
                        assert(text::texts(done@) =~= before.push(argument@));
                    }
                    current = None;
                },
                None => {
                    current = None;
                },
            }
        } else {
            let mut argument = match current {
                Some(argument) => argument,
                None => String::new(),
            };
            argument.push(c);
            current = Some(argument);
        }
        i = i + 1;
    }
    proof {
        assert(chars@.take(i as int) == line@);
    }
    match current {
        Some(argument) => {
            let ghost before = text::texts(done@);
            done.push(argument);
            proof {
                assert(text::texts(done@) =~= before.push(argument@));
            }
        },
        None => {},
    }
    done
}

/// The arguments a project is run with; none where nothing is configured.
pub open spec fn run_arguments(dproj: Option<Seq<char>>, saved: Option<Seq<char>>) -> Seq<
    Seq<char>,
> {
    match fused(dproj, saved) {
        Some(line) => arguments_of(line),
        None => Seq::empty(),
    }
}

/// The arguments a project is run with: [`fuse_run_params`], split.
pub fn run_args(dproj: &Option<String>, saved: &Option<String>) -> (res: Vec<String>)
    ensures
        text::texts(res@) == run_arguments(text::opt(*dproj), text::opt(*saved)),
{
    match fuse_run_params(dproj, saved) {
        Some(line) => split_run_args(line.as_str()),
        None => {
            let none: Vec<String> = Vec::new();
            proof {
                assert(text::texts(none@) =~= Seq::<Seq<char>>::empty());
            }
            none
        },
    }
}

} // verus!
