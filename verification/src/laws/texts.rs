//! Laws of casing, trimming, lists in one text, and numbers.

use vstd::arithmetic::power::pow;
use vstd::prelude::*;

use crate::text;

verus! {

// ─── Plain values ────────────────────────────────────────────────────────────

/// The plain values of texts have every text, in order, with every character.
pub proof fn plain_values_hide_nothing(
    list: Seq<String>,
    some: String,
    outcome: Result<String, String>,
)
    ensures
        text::texts(list).len() == list.len(),
        forall|i: int| 0 <= i < list.len() ==> #[trigger] text::texts(list)[i] == list[i]@,
        text::opt(Some(some)) == Some(some@),
        text::opt(None) is None,
        match outcome {
            Ok(value) => text::outcome(outcome) == Ok::<Seq<char>, Seq<char>>(value@),
            Err(error) => text::outcome(outcome) == Err::<Seq<char>, Seq<char>>(error@),
        },
{
}

// ─── Casing ──────────────────────────────────────────────────────────────────

/// Raising moves the letters `a` to `z` by thirty-two places and touches
/// nothing else; lowering moves the letters `A` to `Z` back.
pub proof fn casing_moves_ascii_letters_alone(s: Seq<char>, i: int)
    requires
        0 <= i < s.len(),
    ensures
        text::upper(s).len() == s.len(),
        text::lower(s).len() == s.len(),
        'a' <= s[i] <= 'z' ==> text::upper(s)[i] as int == s[i] as int - 32,
        !('a' <= s[i] <= 'z') ==> text::upper(s)[i] == s[i],
        'A' <= s[i] <= 'Z' ==> text::lower(s)[i] as int == s[i] as int + 32,
        !('A' <= s[i] <= 'Z') ==> text::lower(s)[i] == s[i],
{
}

/// Whether two characters are one ASCII letter in two casings.
pub open spec fn are_casings(a: char, b: char) -> bool {
    ||| 'a' <= a <= 'z' && a as int - 32 == b as int
    ||| 'a' <= b <= 'z' && b as int - 32 == a as int
}

/// Two names are the same exactly when they are of one length and differ at
/// each place at most in the casing of an ASCII letter.
pub proof fn same_names_differ_in_casing_alone(a: Seq<char>, b: Seq<char>)
    ensures
        text::same_name(a, b) <==> a.len() == b.len() && (forall|i: int|
            0 <= i < a.len() ==> #[trigger] a[i] == b[i] || are_casings(a[i], b[i])),
{
    if text::same_name(a, b) {
        assert(text::upper(a).len() == a.len());
        assert(text::upper(b).len() == b.len());
        assert forall|i: int| 0 <= i < a.len() implies #[trigger] a[i] == b[i] || are_casings(
            a[i],
            b[i],
        ) by {
            assert(text::upper(a)[i] == text::upper(b)[i]);
            casing_moves_ascii_letters_alone(a, i);
            casing_moves_ascii_letters_alone(b, i);
        }
    }
    if a.len() == b.len() && (forall|i: int|
        0 <= i < a.len() ==> #[trigger] a[i] == b[i] || are_casings(a[i], b[i])) {
        assert forall|i: int| 0 <= i < a.len() implies text::upper(a)[i] == text::upper(b)[i] by {
            assert(a[i] == b[i] || are_casings(a[i], b[i]));
            casing_moves_ascii_letters_alone(a, i);
            casing_moves_ascii_letters_alone(b, i);
        }
        assert(text::upper(a) =~= text::upper(b));
    }
}

// ─── White space ─────────────────────────────────────────────────────────────

/// Whether the characters of `s` from `from` up to `to` are what is left
/// without the white space around them.
pub open spec fn is_core(s: Seq<char>, from: int, to: int) -> bool {
    &&& 0 <= from <= to <= s.len()
    &&& forall|k: int| 0 <= k < from ==> text::white_space(#[trigger] s[k])
    &&& forall|k: int| to <= k < s.len() ==> text::white_space(#[trigger] s[k])
    &&& from < to ==> !text::white_space(s[from]) && !text::white_space(s[to - 1])
}

proof fn start_is_trimmed(s: Seq<char>) -> (from: int)
    ensures
        0 <= from <= s.len(),
        text::trimmed_start(s) == s.skip(from),
        forall|k: int| 0 <= k < from ==> text::white_space(#[trigger] s[k]),
        from < s.len() ==> !text::white_space(s[from]),
    decreases s.len(),
{
    if s.len() > 0 && text::white_space(s[0]) {
        let rest = s.skip(1);
        let from = start_is_trimmed(rest);
        assert(rest.skip(from) =~= s.skip(from + 1));
        assert forall|k: int| 0 <= k < from + 1 implies text::white_space(#[trigger] s[k]) by {
            if k > 0 {
                assert(rest[k - 1] == s[k]);
            }
        }
        from + 1
    } else {
        assert(s.skip(0) =~= s);
        0
    }
}

proof fn end_is_trimmed(s: Seq<char>) -> (to: int)
    ensures
        0 <= to <= s.len(),
        text::trimmed_end(s) == s.take(to),
        forall|k: int| to <= k < s.len() ==> text::white_space(#[trigger] s[k]),
        to > 0 ==> !text::white_space(s[to - 1]),
    decreases s.len(),
{
    if s.len() > 0 && text::white_space(s.last()) {
        let rest = s.drop_last();
        let to = end_is_trimmed(rest);
        assert(rest.take(to) =~= s.take(to));
        assert forall|k: int| to <= k < s.len() implies text::white_space(#[trigger] s[k]) by {
            if k < rest.len() {
                assert(rest[k] == s[k]);
            }
        }
        to
    } else {
        assert(s.take(s.len() as int) =~= s);
        s.len() as int
    }
}

/// Trimming takes away white space at both ends, all of it, and nothing else.
pub proof fn trimming_leaves_the_core(s: Seq<char>) -> (ends: (int, int))
    ensures
        is_core(s, ends.0, ends.1),
        text::trimmed(s) == s.subrange(ends.0, ends.1),
{
    let from = start_is_trimmed(s);
    let rest = s.skip(from);
    let to = end_is_trimmed(rest);
    assert(rest.take(to) =~= s.subrange(from, from + to));
    assert forall|k: int| from + to <= k < s.len() implies text::white_space(#[trigger] s[k]) by {
        assert(rest[k - from] == s[k]);
    }
    if to > 0 {
        assert(rest[to - 1] == s[from + to - 1]);
    }
    (from, from + to)
}

/// A text is blank exactly when it holds white space alone.
pub proof fn blank_texts_are_white(s: Seq<char>)
    ensures
        text::blank(s) <==> forall|i: int| 0 <= i < s.len() ==> text::white_space(#[trigger] s[i]),
{
    let (from, to) = trimming_leaves_the_core(s);
    assert(text::trimmed(s).len() == to - from);
    if from < to {
        assert(!text::white_space(s[from]));
    } else {
        assert forall|i: int| 0 <= i < s.len() implies text::white_space(#[trigger] s[i]) by {
            if i < from {
            } else {
                assert(to <= i);
            }
        }
    }
}

/// A text that begins and ends in something else than white space stays.
pub proof fn trimmed_texts_stay(s: Seq<char>)
    requires
        s.len() > 0 ==> !text::white_space(s[0]) && !text::white_space(s.last()),
    ensures
        text::trimmed(s) == s,
{
    assert(text::trimmed_start(s) == s);
    assert(text::trimmed_end(s) == s);
}

// ─── Lists in one text ───────────────────────────────────────────────────────

/// Joining two lists in a row puts one separator between what each joins to;
/// a list of one text joins to that text, and none to nothing.
pub proof fn joining_lists_in_a_row(a: Seq<Seq<char>>, b: Seq<Seq<char>>, separator: Seq<char>)
    ensures
        a.len() > 0 && b.len() > 0 ==> text::joined(a + b, separator) == text::joined(a, separator)
            + separator + text::joined(b, separator),
        a.len() == 1 ==> text::joined(a, separator) == a[0],
        a.len() == 0 ==> text::joined(a, separator).len() == 0,
    decreases b.len(),
{
    if a.len() > 0 && b.len() > 0 {
        let all = a + b;
        assert(all.drop_last() =~= a + b.drop_last());
        assert(all.last() == b.last());
        if b.len() == 1 {
            assert(a + b.drop_last() =~= a);
        } else {
            joining_lists_in_a_row(a, b.drop_last(), separator);
            assert(text::joined(a, separator) + separator + text::joined(b.drop_last(), separator)
                + separator + b.last() =~= text::joined(a, separator) + separator + (text::joined(
                b.drop_last(),
                separator,
            ) + separator + b.last()));
        }
    }
}

/// Whether no text of the list holds `c`.
pub open spec fn none_holds(list: Seq<Seq<char>>, c: char) -> bool {
    forall|i: int, k: int|
        0 <= i < list.len() && 0 <= k < list[i].len() ==> #[trigger] list[i][k] != c
}

/// The pieces of a text hold no separator, and joined by it they are the text.
pub proof fn pieces_join_to_the_text(s: Seq<char>, separator: char)
    ensures
        text::split_at(s, separator).len() > 0,
        none_holds(text::split_at(s, separator), separator),
        text::joined(text::split_at(s, separator), seq![separator]) == s,
    decreases s.len(),
{
    let pieces = text::split_at(s, separator);
    let between = seq![separator];
    if s.len() == 0 {
        assert(pieces[0] =~= s);
    } else {
        let shorter = s.drop_last();
        let before = text::split_at(shorter, separator);
        pieces_join_to_the_text(shorter, separator);
        if s.last() == separator {
            assert(pieces.drop_last() =~= before);
            assert(text::joined(pieces, between) == text::joined(before, between) + between
                + Seq::<char>::empty());
            assert(shorter + between + Seq::<char>::empty() =~= s);
        } else {
            let last = before.last().push(s.last());
            assert(pieces.drop_last() =~= before.drop_last());
            assert(pieces.last() == last);
            assert forall|i: int, k: int|
                0 <= i < pieces.len() && 0 <= k < pieces[i].len() implies #[trigger] pieces[i][k]
                != separator by {
                if i < before.len() - 1 {
                    assert(before[i][k] != separator);
                } else if k < before.last().len() {
                    assert(before[before.len() - 1][k] != separator);
                }
            }
            if before.len() == 1 {
                assert(before[0] == shorter);
                assert(shorter.push(s.last()) =~= s);
            } else {
                let start = text::joined(before.drop_last(), between);
                assert(text::joined(before, between) == start + between + before.last());
                assert(start + between + last =~= (start + between + before.last()).push(
                    s.last(),
                ));
                assert(shorter.push(s.last()) =~= s);
            }
        }
    }
}

proof fn split_behind_a_separator(s: Seq<char>, tail: Seq<char>, separator: char)
    requires
        forall|k: int| 0 <= k < tail.len() ==> #[trigger] tail[k] != separator,
    ensures
        text::split_at(s + seq![separator] + tail, separator) == text::split_at(
            s,
            separator,
        ).push(tail),
        text::split_at(tail, separator) == seq![tail],
    decreases tail.len(),
{
    let all = s + seq![separator] + tail;
    if tail.len() == 0 {
        assert(all.drop_last() =~= s);
        assert(tail =~= Seq::<char>::empty());
        assert(text::split_at(tail, separator) =~= seq![tail]);
        assert(text::split_at(all, separator) =~= text::split_at(s, separator).push(tail));
    } else {
        let shorter = tail.drop_last();
        split_behind_a_separator(s, shorter, separator);
        assert(all.drop_last() =~= s + seq![separator] + shorter);
        assert(all.last() == tail.last());
        assert(shorter.push(tail.last()) =~= tail);
        let before = text::split_at(s, separator).push(shorter);
        assert(before.drop_last() =~= text::split_at(s, separator));
        assert(seq![shorter].drop_last().push(tail) =~= seq![tail]);
        assert(tail.last() != separator);
    }
}

/// Splitting undoes joining, for texts without the separator.
pub proof fn splitting_undoes_joining(list: Seq<Seq<char>>, separator: char)
    requires
        list.len() > 0,
        none_holds(list, separator),
    ensures
        text::split_at(text::joined(list, seq![separator]), separator) == list,
    decreases list.len(),
{
    let last = list.last();
    assert forall|k: int| 0 <= k < last.len() implies #[trigger] last[k] != separator by {
        assert(list[list.len() - 1][k] != separator);
    }
    if list.len() == 1 {
        split_behind_a_separator(Seq::empty(), last, separator);
        assert(seq![last] =~= list);
    } else {
        let before = list.drop_last();
        assert forall|i: int, k: int|
            0 <= i < before.len() && 0 <= k < before[i].len() implies #[trigger] before[i][k]
            != separator by {
            assert(list[i][k] != separator);
        }
        splitting_undoes_joining(before, separator);
        split_behind_a_separator(text::joined(before, seq![separator]), last, separator);
        assert(before.push(last) =~= list);
    }
}

// ─── Numbers ─────────────────────────────────────────────────────────────────

/// What digits denote is positional: a digit is its distance from `0`, and
/// digits in front of others count ten times as much for each of those.
pub proof fn digits_are_positional(a: Seq<char>, b: Seq<char>, c: char)
    requires
        text::is_digit(c),
    ensures
        text::digits_value(seq![c]) == c as int - '0' as int,
        text::digits_value(a + b) == text::digits_value(a) * pow(10, b.len()) + text::digits_value(
            b,
        ),
    decreases b.len(),
{
    assert(seq![c].drop_last() =~= Seq::<char>::empty());
    assert(seq![c].last() == c);
    assert(text::digits_value(Seq::<char>::empty()) == 0);
    reveal(pow);
    if b.len() == 0 {
        assert(a + b =~= a);
        assert(pow(10, 0) == 1);
    } else {
        digits_are_positional(a, b.drop_last(), c);
        assert((a + b).drop_last() =~= a + b.drop_last());
        assert((a + b).last() == b.last());
        let n = b.drop_last().len();
        assert(pow(10, b.len()) == 10 * pow(10, n));
        let v = text::digits_value(a) as int;
        assert(10 * (v * pow(10, n)) == v * (10 * pow(10, n))) by (nonlinear_arith);
        assert(10 * (v * pow(10, n) + text::digits_value(b.drop_last())) == 10 * (v * pow(10, n))
            + 10 * text::digits_value(b.drop_last()));
    }
}

/// The decimal notation of a number has digits alone, denotes the number, and
/// begins with `0` for zero alone.
pub proof fn decimal_notation_is_canonical(n: nat)
    ensures
        forall|i: int| 0 <= i < text::decimal(n).len() ==> '0' <= #[trigger] text::decimal(n)[i]
            <= '9',
        text::decimal(n).len() > 0,
        text::digits_value(text::decimal(n)) == n,
        text::decimal(n)[0] == '0' <==> n == 0,
    decreases n,
{
    text::decimal_is_digits(n);
    assert forall|i: int| 0 <= i < text::decimal(n).len() implies '0' <= #[trigger] text::decimal(
        n,
    )[i] <= '9' by {
        assert(text::is_digit(text::decimal(n)[i]));
    }
    if n >= 10 {
        decimal_notation_is_canonical(n / 10);
        assert(text::decimal(n)[0] == text::decimal(n / 10)[0]);
    }
}

/// A text is read as a number exactly when it is digits, at least one, behind
/// at most one plus sign, of a number that fits; and it is read as that number.
pub proof fn numbers_are_read_exactly(s: Seq<char>, digits: Seq<char>)
    requires
        s == digits || s == seq!['+'] + digits,
        digits.len() > 0 ==> digits[0] != '+',
    ensures
        text::parsed_usize(s) is Some <==> {
            &&& digits.len() > 0
            &&& forall|i: int| 0 <= i < digits.len() ==> '0' <= #[trigger] digits[i] <= '9'
            &&& text::digits_value(digits) <= usize::MAX
        },
        text::parsed_usize(s) is Some ==> text::parsed_usize(s) == Some(text::digits_value(digits)),
{
    assert(text::unsigned(s) =~= digits);
    if text::parsed_usize(s) is Some {
        assert forall|i: int| 0 <= i < digits.len() implies '0' <= #[trigger] digits[i] <= '9' by {
            assert(text::is_digit(digits[i]));
        }
    }
    if forall|i: int| 0 <= i < digits.len() ==> '0' <= #[trigger] digits[i] <= '9' {
        assert forall|i: int| 0 <= i < digits.len() implies text::is_digit(#[trigger] digits[i]) by {
            assert('0' <= digits[i] <= '9');
        }
    }
}

} // verus!
