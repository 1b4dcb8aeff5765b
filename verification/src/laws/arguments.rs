//! Laws of the command line.

use vstd::prelude::*;

use crate::run_args;
use crate::text;

verus! {

/// How far a command line is read that goes on with `s`, from a reading.
pub open spec fn read_all(reading: run_args::Reading, s: Seq<char>) -> run_args::Reading
    decreases s.len(),
{
    if s.len() == 0 {
        reading
    } else {
        run_args::read_on(read_all(reading, s.drop_last()), s.last())
    }
}

proof fn reading_goes_on(a: Seq<char>, b: Seq<char>)
    ensures
        run_args::reading_of(a + b) == read_all(run_args::reading_of(a), b),
    decreases b.len(),
{
    if b.len() == 0 {
        assert(a + b =~= a);
    } else {
        reading_goes_on(a, b.drop_last());
        assert((a + b).drop_last() =~= a + b.drop_last());
        assert((a + b).last() == b.last());
    }
}

/// How many double quotes `s` holds.
pub open spec fn quotes_in(s: Seq<char>) -> nat
    decreases s.len(),
{
    if s.len() == 0 {
        0
    } else {
        quotes_in(s.drop_last()) + (if s.last() == '"' {
            1nat
        } else {
            0nat
        })
    }
}

proof fn quotes_toggle(s: Seq<char>)
    ensures
        run_args::reading_of(s).quoted == (quotes_in(s) % 2 == 1),
    decreases s.len(),
{
    if s.len() > 0 {
        quotes_toggle(s.drop_last());
    }
}

/// A reading that starts on `b` with `done` already read has read `done` and
/// what it would have read of `b` alone.
proof fn earlier_arguments_stay(done: Seq<Seq<char>>, b: Seq<char>)
    ensures
        ({
            let start = run_args::Reading { done, current: None, quoted: false };
            let alone = run_args::reading_of(b);
            read_all(start, b) == (run_args::Reading {
                done: done + alone.done,
                current: alone.current,
                quoted: alone.quoted,
            })
        }),
    decreases b.len(),
{
    let start = run_args::Reading { done, current: None, quoted: false };
    if b.len() == 0 {
        assert(done + run_args::reading_of(b).done =~= done);
    } else {
        earlier_arguments_stay(done, b.drop_last());
        let before = run_args::reading_of(b.drop_last());
        let c = b.last();
        if c != '"' && text::white_space(c) && !before.quoted && before.current is Some {
            assert((done + before.done).push(before.current->0) =~= done + before.done.push(
                before.current->0,
            ));
        }
    }
}

/// White space outside of a quotation separates arguments and does no more: the
/// arguments of two command lines with it between them are those of the one
/// and then those of the other, where the first closes its quotations.
pub proof fn command_lines_chain(a: Seq<char>, space: char, b: Seq<char>)
    requires
        text::white_space(space),
        space != '"',
        quotes_in(a) % 2 == 0,
    ensures
        run_args::arguments_of(a + seq![space] + b) == run_args::arguments_of(a)
            + run_args::arguments_of(b),
{
    let front = a + seq![space];
    quotes_toggle(a);
    reading_goes_on(front, b);
    assert(front.drop_last() =~= a);
    assert(front.last() == space);
    let done = run_args::arguments_of(a);
    assert(run_args::reading_of(front) =~= run_args::Reading {
        done,
        current: None,
        quoted: false,
    });
    earlier_arguments_stay(done, b);
    let alone = run_args::reading_of(b);
    match alone.current {
        Some(last) => {
            assert((done + alone.done).push(last) =~= done + alone.done.push(last));
        },
        None => {},
    }
}

proof fn characters_are_read(x: Seq<char>, s: Seq<char>, quoted: bool)
    requires
        forall|i: int|
            0 <= i < s.len() ==> #[trigger] s[i] != '"' && (quoted || !text::white_space(s[i])),
    ensures
        read_all(run_args::Reading { done: Seq::empty(), current: Some(x), quoted }, s) == (
        run_args::Reading { done: Seq::empty(), current: Some(x + s), quoted }),
    decreases s.len(),
{
    if s.len() == 0 {
        assert(x + s =~= x);
    } else {
        let before = s.drop_last();
        assert forall|i: int| 0 <= i < before.len() implies #[trigger] before[i] != '"' && (quoted
            || !text::white_space(before[i])) by {
            assert(before[i] == s[i]);
        }
        characters_are_read(x, before, quoted);
        assert(s[s.len() - 1] == s.last());
        assert((x + before).push(s.last()) =~= x + s);
    }
}

/// Whether a text holds neither quotes nor white space.
pub open spec fn is_word(s: Seq<char>) -> bool {
    forall|i: int| 0 <= i < s.len() ==> #[trigger] s[i] != '"' && !text::white_space(s[i])
}

/// An argument is made of words and of quotations without space between them;
/// the quotes are no part of it: `<a>"<s>"<b>` is the one argument `<a><s><b>`.
pub proof fn arguments_are_words_and_quotations(a: Seq<char>, s: Seq<char>, b: Seq<char>)
    requires
        is_word(a),
        is_word(b),
        forall|i: int| 0 <= i < s.len() ==> #[trigger] s[i] != '"',
    ensures
        run_args::arguments_of(a + seq!['"'] + s + seq!['"'] + b) == seq![a + s + b],
        a.len() > 0 ==> run_args::arguments_of(a) == seq![a],
        run_args::arguments_of(Seq::empty()).len() == 0,
{
    let none = Seq::<char>::empty();
    let quote = seq!['"'];
    word_is_read(a);
    // The opening quote.
    let one = a + quote;
    assert(one.drop_last() =~= a);
    assert(one.last() == '"');
    assert(run_args::reading_of(one) == (run_args::Reading {
        done: Seq::empty(),
        current: Some(a),
        quoted: true,
    }));
    // What is quoted.
    reading_goes_on(one, s);
    characters_are_read(a, s, true);
    // The closing quote.
    let two = one + s + quote;
    assert(two.drop_last() =~= one + s);
    assert(two.last() == '"');
    assert(run_args::reading_of(two) == (run_args::Reading {
        done: Seq::empty(),
        current: Some(a + s),
        quoted: false,
    }));
    reading_goes_on(two, b);
    characters_are_read(a + s, b, false);
    assert(two + b == a + quote + s + quote + b);
    assert(Seq::<Seq<char>>::empty().push(a + s + b) =~= seq![a + s + b]);
    assert(Seq::<Seq<char>>::empty().push(a) =~= seq![a]);
}

proof fn word_is_read(a: Seq<char>)
    requires
        is_word(a),
    ensures
        run_args::reading_of(a).done == Seq::<Seq<char>>::empty(),
        run_args::reading_of(a).quoted == false,
        run_args::begun(run_args::reading_of(a).current) == a,
        a.len() > 0 ==> run_args::reading_of(a).current == Some(a),
    decreases a.len(),
{
    if a.len() == 0 {
        assert(a =~= Seq::<char>::empty());
    } else {
        let before = a.drop_last();
        assert forall|i: int| 0 <= i < before.len() implies #[trigger] before[i] != '"'
            && !text::white_space(before[i]) by {
            assert(before[i] == a[i]);
        }
        word_is_read(before);
        assert(a[a.len() - 1] == a.last());
        assert(before.push(a.last()) =~= a);
    }
}

/// A project runs with the arguments of its dproj and then the saved ones, where
/// the dproj's close their quotations; where there is one list alone, with that;
/// and with none where there is none.
pub proof fn run_arguments_chain(dproj: Seq<char>, saved: Seq<char>)
    requires
        quotes_in(dproj) % 2 == 0,
    ensures
        run_args::run_arguments(Some(dproj), Some(saved)) == run_args::arguments_of(dproj)
            + run_args::arguments_of(saved),
        run_args::run_arguments(Some(dproj), None) == run_args::arguments_of(dproj),
        run_args::run_arguments(None, Some(saved)) == run_args::arguments_of(saved),
        run_args::run_arguments(None, None).len() == 0,
{
    reveal_strlit(" ");
    assert(" "@ =~= seq![' ']);
    command_lines_chain(dproj, ' ', saved);
}

} // verus!
