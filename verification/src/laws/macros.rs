//! Laws of the `$(NAME)` variables.

use vstd::prelude::*;

use crate::macro_map;
use crate::table;
use crate::text;

verus! {

/// A lookup does not depend on the casing of the name.
pub proof fn lookup_ignores_casing(map: macro_map::MacroView, a: Seq<char>, b: Seq<char>)
    requires
        text::same_name(a, b),
    ensures
        map.get(a) == map.get(b),
{
}

/// A variable that was set is found under every casing of its name, with the
/// value it was set to; every other variable is as it was.
pub proof fn set_is_read_back(
    map: macro_map::MacroView,
    key: Seq<char>,
    value: Seq<char>,
    name: Seq<char>,
)
    ensures
        text::same_name(name, key) ==> map.set(key, value).get(name) == Some(value),
        !text::same_name(name, key) ==> map.set(key, value).get(name) == map.get(name),
{
}

/// A default is taken where the name has no value, and changes nothing where it
/// has one.
pub proof fn default_yields_to_a_value(
    map: macro_map::MacroView,
    key: Seq<char>,
    value: Seq<char>,
    name: Seq<char>,
)
    ensures
        map.get(key) is Some ==> map.set_default(key, value) == map,
        map.get(key) is None ==> map.set_default(key, value).get(key) == Some(value),
        !text::same_name(name, key) ==> map.set_default(key, value).get(name) == map.get(name),
{
}

/// A removed variable is gone under every casing of its name, also for
/// `dproj-rs`; every other variable is as it was.
pub proof fn removed_is_forgotten(map: macro_map::MacroView, key: Seq<char>, name: Seq<char>)
    requires
        map.well_formed(),
    ensures
        text::same_name(name, key) ==> map.remove(key).get(name) is None,
        text::same_name(name, key) ==> !map.remove(key).as_env().contains_key(name),
        !text::same_name(name, key) ==> map.remove(key).get(name) == map.get(name),
        !text::same_name(name, key) ==> map.remove(key).as_env().contains_key(name)
            == map.as_env().contains_key(name),
        !text::same_name(name, key) && map.as_env().contains_key(name) ==> map.remove(
            key,
        ).as_env()[name] == map.as_env()[name],
{
    let after = map.remove(key);
    if text::same_name(name, key) && after.vars.contains_key(name) {
        assert(map.vars.contains_key(name));
        assert(text::upper(name) == name);
    }
    if !text::same_name(name, key) && name == text::upper(key) {
        text::upper_twice(key);
    }
}

/// Removing touches the value of its own name alone.
pub proof fn removed_elsewhere(map: macro_map::MacroView, key: Seq<char>, name: Seq<char>)
    ensures
        text::same_name(name, key) ==> map.remove(key).get(name) is None,
        !text::same_name(name, key) ==> map.remove(key).get(name) == map.get(name),
{
}

/// Removing undoes setting, for a name that had no value.
pub proof fn removing_undoes_setting(map: macro_map::MacroView, key: Seq<char>, value: Seq<char>)
    requires
        map.well_formed(),
        map.get(key) is None,
    ensures
        map.set(key, value).remove(key) == map,
{
    let after = map.set(key, value).remove(key);
    assert forall|k: Seq<char>| map.original_case.contains_key(k) implies !text::same_name(
        k,
        key,
    ) by {
        assert(map.vars.contains_key(text::upper(k)));
    }
    assert(after.vars =~= map.vars);
    assert(after.original_case =~= map.original_case);
    assert(after =~= map);
}

/// A variable that was set is there for `dproj-rs` with its value, both under
/// the spelling that it was set under and under the upper-case name, and under
/// no other spelling of the name.
pub proof fn set_reaches_dproj(
    map: macro_map::MacroView,
    key: Seq<char>,
    value: Seq<char>,
    name: Seq<char>,
)
    ensures
        map.set(key, value).as_env().contains_key(key),
        map.set(key, value).as_env()[key] == value,
        map.set(key, value).as_env().contains_key(text::upper(key)),
        map.set(key, value).as_env()[text::upper(key)] == value,
        map.well_formed() && map.set(key, value).as_env().contains_key(name) && text::same_name(
            name,
            key,
        ) ==> name == key || name == text::upper(key),
{
    text::upper_twice(key);
    if map.well_formed() {
        macro_map::setting_keeps_well_formed(map, key, value);
        assert(map.set(key, value).original_case.contains_key(key));
    }
}

/// Every variable is there for `dproj-rs` with its value, under its upper-case
/// name and under a spelling of its own; and whatever is there is a variable
/// with its value.
pub proof fn environment_has_every_variable(map: macro_map::MacroView, name: Seq<char>)
    requires
        map.well_formed(),
    ensures
        map.vars.contains_key(name) ==> map.as_env().contains_key(name) && map.as_env()[name]
            == map.vars[name],
        map.vars.contains_key(name) ==> exists|key: Seq<char>| #[trigger]
            map.original_case.contains_key(key) && text::upper(key) == name
                && map.as_env().contains_key(key) && map.as_env()[key] == map.vars[name],
        map.as_env().contains_key(name) ==> map.get(name) == Some(map.as_env()[name]),
{
    if map.vars.contains_key(name) {
        assert(map.is_spelled(name));
        let key = choose|k: Seq<char>| #[trigger]
            map.original_case.contains_key(k) && text::upper(k) == name;
        assert(map.as_env().contains_key(key));
    }
}

/// Of the pairs that a map is extended with, the last of a name counts; a name
/// among none of them keeps its value.
pub proof fn last_pair_counts(
    map: macro_map::MacroView,
    pairs: Seq<(Seq<char>, Seq<char>)>,
    key: Seq<char>,
)
    ensures
        map.extend(pairs).get(key) == (match table::named(pairs, key) {
            Some(value) => Some(value),
            None => map.get(key),
        }),
    decreases pairs.len(),
{
    if pairs.len() > 0 {
        last_pair_counts(map, pairs.drop_last(), key);
    }
}

/// Setting pairs and then further ones is setting all of them in order.
pub proof fn extensions_chain(
    map: macro_map::MacroView,
    first: Seq<(Seq<char>, Seq<char>)>,
    further: Seq<(Seq<char>, Seq<char>)>,
)
    ensures
        map.extend(first + further) == map.extend(first).extend(further),
    decreases further.len(),
{
    if further.len() == 0 {
        assert(first + further =~= first);
    } else {
        extensions_chain(map, first, further.drop_last());
        assert((first + further).drop_last() =~= first + further.drop_last());
        assert((first + further).last() == further.last());
    }
}

// ─── Expansion ───────────────────────────────────────────────────────────────

/// A text without references expands to itself.
pub proof fn plain_text_stays(map: macro_map::MacroView, s: Seq<char>)
    requires
        !macro_map::has_reference(s),
    ensures
        map.expand(s) == s,
        macro_map::expanded_once(map.vars, s) == s,
    decreases s.len(),
{
    if s.len() > 0 {
        assert(!macro_map::opens_at(s, 0));
        let rest = s.skip(1);
        assert forall|i: int| !macro_map::opens_at(rest, i) by {
            assert(!macro_map::opens_at(s, i + 1));
        }
        plain_text_stays(map, rest);
        assert(seq![s[0]] + rest =~= s);
    } else {
        assert(s =~= Seq::<char>::empty());
    }
}

/// A pass replaces the first reference of a text by the value of the name, or
/// by the reference itself where the name is unknown, and goes on behind it.
pub proof fn first_reference_is_resolved(
    vars: Map<Seq<char>, Seq<char>>,
    before: Seq<char>,
    name: Seq<char>,
    after: Seq<char>,
)
    requires
        !macro_map::has_reference(before),
        !name.contains(')'),
    ensures
        macro_map::expanded_once(vars, before + "$("@ + name + ")"@ + after) == before
            + macro_map::resolved(vars, name) + macro_map::expanded_once(vars, after),
    decreases before.len(),
{
    reveal_strlit("$(");
    reveal_strlit(")");
    let s = before + "$("@ + name + ")"@ + after;
    if before.len() == 0 {
        let close: int = 2 + name.len() as int;
        assert(macro_map::opens_at(s, 0));
        assert forall|j: int| 2 <= j < close implies s[j] != ')' by {
            assert(s[j] == name[j - 2]);
            assert(name.contains(name[j - 2]));
        }
        assert(s[close] == ')');
        macro_map::closing_is_first(s, 2, close);
        assert(s.subrange(2, close) =~= name);
        assert(s.skip(close + 1) =~= after);
        assert(before =~= Seq::<char>::empty());
        assert(before + macro_map::resolved(vars, name) + macro_map::expanded_once(vars, after)
            =~= macro_map::resolved(vars, name) + macro_map::expanded_once(vars, after));
    } else {
        let rest = before.skip(1);
        assert forall|i: int| !macro_map::opens_at(rest, i) by {
            assert(!macro_map::opens_at(before, i + 1));
        }
        first_reference_is_resolved(vars, rest, name, after);
        assert(!macro_map::opens_at(s, 0)) by {
            if macro_map::opens_at(s, 0) {
                if before.len() > 1 {
                    assert(macro_map::opens_at(before, 0));
                }
            }
        }
        assert(s.skip(1) =~= rest + "$("@ + name + ")"@ + after);
        assert(s[0] == before[0]);
        assert(seq![before[0]] + (rest + macro_map::resolved(vars, name)
            + macro_map::expanded_once(vars, after)) =~= before + macro_map::resolved(vars, name)
            + macro_map::expanded_once(vars, after));
    }
}

/// A reference to a name with a plain value is replaced by the value.
pub proof fn known_reference_is_replaced(
    map: macro_map::MacroView,
    before: Seq<char>,
    name: Seq<char>,
    value: Seq<char>,
    after: Seq<char>,
)
    requires
        map.get(name) == Some(value),
        !name.contains(')'),
        !macro_map::has_reference(before + value + after),
    ensures
        map.expand(before + "$("@ + name + ")"@ + after) == before + value + after,
{
    reveal_strlit("$(");
    reveal_strlit(")");
    let s = before + "$("@ + name + ")"@ + after;
    let plain = before + value + after;
    assert forall|i: int| !macro_map::opens_at(before, i) by {
        assert(!macro_map::opens_at(plain, i));
    }
    let behind = before.len() + value.len();
    assert forall|i: int| !macro_map::opens_at(after, i) by {
        assert(!macro_map::opens_at(plain, behind + i));
    }
    first_reference_is_resolved(map.vars, before, name, after);
    plain_text_stays(map, after);
    assert(macro_map::opens_at(s, before.len() as int));
    assert(macro_map::has_reference(s));
    assert(macro_map::expanded_once(map.vars, s) == plain);
    reveal_with_fuel(macro_map::expanded_within, 2);
}

/// A reference opens in a text exactly where `$(` stands in it.
pub proof fn references_open_with_dollar_and_parenthesis(s: Seq<char>)
    ensures
        macro_map::has_reference(s) <==> exists|before: Seq<char>, after: Seq<char>|
            s == #[trigger] (before + "$("@ + after),
{
    reveal_strlit("$(");
    if macro_map::has_reference(s) {
        let i = choose|i: int| macro_map::opens_at(s, i);
        assert(s =~= s.take(i) + "$("@ + s.skip(i + 2));
    }
    if exists|before: Seq<char>, after: Seq<char>| s == #[trigger] (before + "$("@ + after) {
        let (before, after) = choose|before: Seq<char>, after: Seq<char>|
            s == #[trigger] (before + "$("@ + after);
        assert(macro_map::opens_at(s, before.len() as int));
    }
}

/// A known name stands for its value, an unknown one for its reference.
pub proof fn names_stand_for_values(map: macro_map::MacroView, name: Seq<char>)
    ensures
        map.get(name) matches Some(value) ==> macro_map::resolved(map.vars, name) == value,
        map.get(name) is None ==> macro_map::resolved(map.vars, name) == "$("@ + name + ")"@,
{
}

/// A reference that does not close is no reference: it stays as it is.
pub proof fn open_references_stay(
    vars: Map<Seq<char>, Seq<char>>,
    before: Seq<char>,
    after: Seq<char>,
)
    requires
        !macro_map::has_reference(before),
        !after.contains(')'),
    ensures
        macro_map::expanded_once(vars, before + "$("@ + after) == before + "$("@ + after,
    decreases before.len(),
{
    reveal_strlit("$(");
    let s = before + "$("@ + after;
    if before.len() == 0 {
        assert(s =~= "$("@ + after);
        unclosed_text_stays(vars, s);
    } else {
        let rest = before.skip(1);
        assert forall|i: int| !macro_map::opens_at(rest, i) by {
            assert(!macro_map::opens_at(before, i + 1));
        }
        open_references_stay(vars, rest, after);
        assert(!macro_map::opens_at(s, 0)) by {
            if macro_map::opens_at(s, 0) && before.len() > 1 {
                assert(macro_map::opens_at(before, 0));
            }
        }
        assert(s.skip(1) =~= rest + "$("@ + after);
        assert(seq![s[0]] + s.skip(1) =~= s);
    }
}

proof fn unclosed_text_stays(vars: Map<Seq<char>, Seq<char>>, s: Seq<char>)
    requires
        !s.contains(')'),
    ensures
        macro_map::expanded_once(vars, s) == s,
    decreases s.len(),
{
    if s.len() > 0 {
        if macro_map::opens_at(s, 0) {
            macro_map::closing_bounds(s, 2);
            if macro_map::closing(s, 2) < s.len() {
                assert(s.contains(s[macro_map::closing(s, 2)]));
            }
        }
        let rest = s.skip(1);
        assert forall|c: char| rest.contains(c) implies s.contains(c) by {
            let i = choose|i: int| 0 <= i < rest.len() && rest[i] == c;
            assert(s[i + 1] == c);
        }
        unclosed_text_stays(vars, rest);
        assert(seq![s[0]] + rest =~= s);
    } else {
        assert(s =~= Seq::<char>::empty());
    }
}

/// What `n` passes of replacing references make of `s`.
pub open spec fn after_passes(vars: Map<Seq<char>, Seq<char>>, s: Seq<char>, n: nat) -> Seq<char>
    decreases n,
{
    if n == 0 {
        s
    } else {
        macro_map::expanded_once(vars, after_passes(vars, s, (n - 1) as nat))
    }
}

proof fn passes_go_on(vars: Map<Seq<char>, Seq<char>>, s: Seq<char>, n: nat)
    ensures
        after_passes(vars, macro_map::expanded_once(vars, s), n) == after_passes(vars, s, n + 1),
    decreases n,
{
    reveal_with_fuel(after_passes, 2);
    if n > 0 {
        passes_go_on(vars, s, (n - 1) as nat);
    }
}

proof fn passes_keep_fixed_points(vars: Map<Seq<char>, Seq<char>>, s: Seq<char>, n: nat)
    requires
        macro_map::expanded_once(vars, s) == s,
    ensures
        after_passes(vars, s, n) == s,
    decreases n,
{
    if n > 0 {
        passes_keep_fixed_points(vars, s, (n - 1) as nat);
    }
}

proof fn bounded_passes(map: macro_map::MacroView, s: Seq<char>, n: nat)
    ensures
        macro_map::expanded_within(map.vars, s, n) == after_passes(map.vars, s, n),
    decreases n,
{
    if n > 0 {
        if !macro_map::has_reference(s) {
            plain_text_stays(map, s);
            passes_keep_fixed_points(map.vars, s, n);
        } else if macro_map::expanded_once(map.vars, s) == s {
            passes_keep_fixed_points(map.vars, s, n);
        } else {
            bounded_passes(map, macro_map::expanded_once(map.vars, s), (n - 1) as nat);
            passes_go_on(map.vars, s, (n - 1) as nat);
        }
    }
}

/// An expansion is eight passes over the text, whatever the text and the
/// variables: to end early changes nothing.
pub proof fn expansion_is_eight_passes(map: macro_map::MacroView, s: Seq<char>)
    ensures
        map.expand(s) == after_passes(map.vars, s, 8),
{
    bounded_passes(map, s, 8);
}

/// Where at most eight passes lead to a text without references, the expansion
/// is that text.
pub proof fn expansion_goes_through_to_plain_text(
    map: macro_map::MacroView,
    s: Seq<char>,
    n: nat,
)
    requires
        n <= 8,
        !macro_map::has_reference(after_passes(map.vars, s, n)),
    ensures
        map.expand(s) == after_passes(map.vars, s, n),
{
    expansion_is_eight_passes(map, s);
    plain_text_stays(map, after_passes(map.vars, s, n));
    more_passes_change_nothing(map.vars, s, n, 8);
}

proof fn more_passes_change_nothing(
    vars: Map<Seq<char>, Seq<char>>,
    s: Seq<char>,
    n: nat,
    m: nat,
)
    requires
        n <= m,
        macro_map::expanded_once(vars, after_passes(vars, s, n)) == after_passes(vars, s, n),
    ensures
        after_passes(vars, s, m) == after_passes(vars, s, n),
    decreases m,
{
    if n < m {
        more_passes_change_nothing(vars, s, n, (m - 1) as nat);
    }
}

/// A definition is expanded through: where the value of `name` is `<p>$(inner)<q>`
/// and that of `inner` is plain, a reference to `name` becomes the one with the
/// other in it.
pub proof fn definitions_expand_through(
    map: macro_map::MacroView,
    before: Seq<char>,
    name: Seq<char>,
    after: Seq<char>,
    p: Seq<char>,
    inner: Seq<char>,
    q: Seq<char>,
    value: Seq<char>,
)
    requires
        !name.contains(')'),
        !inner.contains(')'),
        map.get(name) == Some(p + "$("@ + inner + ")"@ + q),
        map.get(inner) == Some(value),
        !macro_map::has_reference(before + p + value + q + after),
    ensures
        map.expand(before + "$("@ + name + ")"@ + after) == before + p + value + q + after,
{
    let s = before + "$("@ + name + ")"@ + after;
    let plain = before + p + value + q + after;
    let front = before + p;
    let back = q + after;
    part_has_no_reference(plain, before, 0);
    part_has_no_reference(plain, front, 0);
    part_has_no_reference(plain, after, (plain.len() - after.len()) as int);
    part_has_no_reference(plain, back, (plain.len() - back.len()) as int);
    first_reference_is_resolved(map.vars, before, name, after);
    plain_text_stays(map, after);
    let middle = front + "$("@ + inner + ")"@ + back;
    assert(before + (p + "$("@ + inner + ")"@ + q) + after =~= middle);
    first_reference_is_resolved(map.vars, front, inner, back);
    plain_text_stays(map, back);
    assert(front + value + back =~= plain);
    assert(after_passes(map.vars, s, 0) == s);
    assert(after_passes(map.vars, s, 1) == middle);
    assert(after_passes(map.vars, s, 2) == plain);
    expansion_goes_through_to_plain_text(map, s, 2);
}

proof fn part_has_no_reference(s: Seq<char>, part: Seq<char>, from: int)
    requires
        !macro_map::has_reference(s),
        0 <= from,
        from + part.len() <= s.len(),
        part =~= s.subrange(from, (from + part.len()) as int),
    ensures
        !macro_map::has_reference(part),
{
    assert forall|i: int| !macro_map::opens_at(part, i) by {
        if macro_map::opens_at(part, i) {
            assert(macro_map::opens_at(s, from + i));
        }
    }
}

/// A text whose references all name unknown variables expands to itself, to
/// the last character.
pub proof fn unknown_references_stay(map: macro_map::MacroView, s: Seq<char>)
    requires
        forall|i: int|
            #![trigger macro_map::opens_at(s, i)]
            macro_map::opens_at(s, i) && macro_map::closing(s, i + 2) < s.len() ==> map.get(
                s.subrange(i + 2, macro_map::closing(s, i + 2)),
            ) is None,
    ensures
        map.expand(s) == s,
{
    unknown_references_stay_from(map.vars, s, 0);
    assert(s.skip(0) =~= s);
}

proof fn closing_behind(s: Seq<char>, from: int, i: int)
    requires
        0 <= from <= i <= s.len(),
    ensures
        macro_map::closing(s.skip(from), i - from) == macro_map::closing(s, i) - from,
    decreases s.len() - i,
{
    if i < s.len() && s[i] != ')' {
        assert(s.skip(from)[i - from] == s[i]);
        closing_behind(s, from, i + 1);
    } else if i < s.len() {
        assert(s.skip(from)[i - from] == s[i]);
    }
}

proof fn unknown_references_stay_from(vars: Map<Seq<char>, Seq<char>>, s: Seq<char>, from: int)
    requires
        0 <= from <= s.len(),
        forall|i: int|
            #![trigger macro_map::opens_at(s, i)]
            macro_map::opens_at(s, i) && macro_map::closing(s, i + 2) < s.len()
                ==> !vars.contains_key(
                text::upper(s.subrange(i + 2, macro_map::closing(s, i + 2))),
            ),
    ensures
        macro_map::expanded_once(vars, s.skip(from)) == s.skip(from),
    decreases s.len() - from,
{
    let rest = s.skip(from);
    if from < s.len() {
        if macro_map::opens_at(rest, 0) {
            assert(macro_map::opens_at(s, from));
            closing_behind(s, from, from + 2);
            macro_map::closing_bounds(s, from + 2);
        }
        if macro_map::opens_at(rest, 0) && macro_map::closing(rest, 2) < rest.len() {
            let close = macro_map::closing(rest, 2);
            let name = rest.subrange(2, close);
            assert(name =~= s.subrange(from + 2, macro_map::closing(s, from + 2)));
            unknown_references_stay_from(vars, s, from + close + 1);
            assert(rest.skip(close + 1) =~= s.skip(from + close + 1));
            reveal_strlit("$(");
            reveal_strlit(")");
            assert(rest[close] == ')');
            assert("$("@ + name + ")"@ + rest.skip(close + 1) =~= rest);
        } else {
            unknown_references_stay_from(vars, s, from + 1);
            assert(rest.skip(1) =~= s.skip(from + 1));
            assert(seq![rest[0]] + rest.skip(1) =~= rest);
        }
    } else {
        assert(rest =~= Seq::<char>::empty());
    }
}

/// Whether every reference that opens in `s` closes in it.
pub open spec fn closes_its_references(s: Seq<char>) -> bool {
    forall|i: int| #[trigger]
        macro_map::opens_at(s, i) ==> macro_map::closing(s, i + 2) < s.len()
}

proof fn closing_ahead(a: Seq<char>, b: Seq<char>, i: int)
    requires
        0 <= i <= a.len(),
        macro_map::closing(a, i) < a.len(),
    ensures
        macro_map::closing(a + b, i) == macro_map::closing(a, i),
    decreases a.len() - i,
{
    assert((a + b)[i] == a[i]);
    if a[i] != ')' {
        closing_ahead(a, b, i + 1);
    }
}

/// A pass over two texts in a row is a pass over each, where no reference
/// reaches from the one into the other.
pub proof fn a_pass_splits(vars: Map<Seq<char>, Seq<char>>, a: Seq<char>, b: Seq<char>)
    requires
        closes_its_references(a),
        !(a.len() > 0 && a.last() == '$' && b.len() > 0 && b[0] == '('),
    ensures
        macro_map::expanded_once(vars, a + b) == macro_map::expanded_once(vars, a)
            + macro_map::expanded_once(vars, b),
    decreases a.len(),
{
    let s = a + b;
    if a.len() == 0 {
        assert(s =~= b);
        assert(macro_map::expanded_once(vars, a) + macro_map::expanded_once(vars, b)
            =~= macro_map::expanded_once(vars, b));
    } else if macro_map::opens_at(a, 0) {
        let close = macro_map::closing(a, 2);
        macro_map::closing_bounds(a, 2);
        closing_ahead(a, b, 2);
        let rest = a.skip(close + 1);
        assert(macro_map::opens_at(s, 0));
        assert(s.subrange(2, close) =~= a.subrange(2, close));
        assert(s.skip(close + 1) =~= rest + b);
        rest_closes_its_references(a, close + 1);
        a_pass_splits(vars, rest, b);
        assert(macro_map::expanded_once(vars, s) =~= macro_map::expanded_once(vars, a)
            + macro_map::expanded_once(vars, b));
    } else {
        let rest = a.skip(1);
        assert(!macro_map::opens_at(s, 0));
        assert(s.skip(1) =~= rest + b);
        rest_closes_its_references(a, 1);
        a_pass_splits(vars, rest, b);
        assert(macro_map::expanded_once(vars, s) =~= macro_map::expanded_once(vars, a)
            + macro_map::expanded_once(vars, b));
    }
}

proof fn rest_closes_its_references(s: Seq<char>, from: int)
    requires
        0 <= from <= s.len(),
        closes_its_references(s),
    ensures
        closes_its_references(s.skip(from)),
{
    let rest = s.skip(from);
    assert forall|i: int| #[trigger] macro_map::opens_at(rest, i) implies macro_map::closing(
        rest,
        i + 2,
    ) < rest.len() by {
        assert(macro_map::opens_at(s, from + i));
        closing_behind(s, from, from + i + 2);
    }
}

/// A text that a pass does not change expands to itself.
pub proof fn fixed_points_stay(map: macro_map::MacroView, s: Seq<char>)
    requires
        macro_map::expanded_once(map.vars, s) == s,
    ensures
        map.expand(s) == s,
{
}

/// What an expansion leaves no reference in expands no further.
pub proof fn full_expansion_is_final(map: macro_map::MacroView, s: Seq<char>)
    requires
        !macro_map::has_reference(map.expand(s)),
    ensures
        map.expand(map.expand(s)) == map.expand(s),
{
}

} // verus!
