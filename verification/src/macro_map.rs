//! Case-insensitive `$(NAME)` variables, and how their references expand.

use vstd::prelude::*;
use vstd::string::*;

use crate::table;
use crate::table::Table;
use crate::text;

verus! {

// ─── References ──────────────────────────────────────────────────────────────

/// Whether a reference opens at index `i` of `s`: a `$` with a `(` behind it.
pub open spec fn opens_at(s: Seq<char>, i: int) -> bool {
    0 <= i && i + 1 < s.len() && s[i] == '$' && s[i + 1] == '('
}

/// Whether a reference opens anywhere in `s`.
pub open spec fn has_reference(s: Seq<char>) -> bool {
    exists|i: int| opens_at(s, i)
}

/// Whether a reference opens anywhere in `s`.
pub fn contains_reference(s: &str) -> (res: bool)
    ensures
        res == has_reference(s@),
{
    let chars = text::to_chars(s);
    let mut i: usize = 0;
    while i < chars.len()
        invariant
            i <= chars@.len(),
            chars@ == s@,
            forall|j: int| 0 <= j < i ==> !opens_at(s@, j),
        decreases chars@.len() - i,
    {
        if chars[i] == '$' && i < chars.len() - 1 && chars[i + 1] == '(' {
            proof {
                assert(opens_at(s@, i as int));
            }
            return true;
        }
        i = i + 1;
    }
    false
}

/// The index of the first `)` of `s` from index `from` on; the length of `s`
/// where there is none.
pub open spec fn closing(s: Seq<char>, from: int) -> int
    decreases s.len() - from,
{
    if from >= s.len() || s[from] == ')' {
        from
    } else {
        closing(s, from + 1)
    }
}

/// Where a reference closes, if it does.
pub proof fn closing_bounds(s: Seq<char>, from: int)
    requires
        0 <= from <= s.len(),
    ensures
        from <= closing(s, from) <= s.len(),
        closing(s, from) < s.len() ==> s[closing(s, from)] == ')',
        forall|j: int| from <= j < closing(s, from) ==> s[j] != ')',
    decreases s.len() - from,
{
    if from < s.len() && s[from] != ')' {
        closing_bounds(s, from + 1);
    }
}

/// A reference closes at the first `)`.
pub proof fn closing_is_first(s: Seq<char>, from: int, close: int)
    requires
        0 <= from <= close <= s.len(),
        forall|j: int| from <= j < close ==> s[j] != ')',
        close < s.len() ==> s[close] == ')',
    ensures
        closing(s, from) == close,
    decreases s.len() - from,
{
    if from < close {
        closing_is_first(s, from + 1, close);
    }
}

/// What stands for the reference to `name`: the value it has, or the
/// reference itself where it has none.
pub open spec fn resolved(vars: Map<Seq<char>, Seq<char>>, name: Seq<char>) -> Seq<char> {
    if vars.contains_key(text::upper(name)) {
        vars[text::upper(name)]
    } else {
        "$("@ + name + ")"@
    }
}

/// `s` with every reference that closes replaced once, from the left. Upper-case
/// names key the variables.
pub open spec fn expanded_once(vars: Map<Seq<char>, Seq<char>>, s: Seq<char>) -> Seq<char>
    decreases s.len(),
{
    if s.len() == 0 {
        Seq::empty()
    } else if opens_at(s, 0) && 2 <= closing(s, 2) < s.len() {
        let close = closing(s, 2);
        resolved(vars, s.subrange(2, close)) + expanded_once(vars, s.skip(close + 1))
    } else {
        seq![s[0]] + expanded_once(vars, s.skip(1))
    }
}

/// `s` after up to `passes` passes of replacing references, ended early by a
/// pass with nothing to replace or nothing changed.
pub open spec fn expanded_within(
    vars: Map<Seq<char>, Seq<char>>,
    s: Seq<char>,
    passes: nat,
) -> Seq<char>
    decreases passes,
{
    if passes == 0 || !has_reference(s) || expanded_once(vars, s) == s {
        s
    } else {
        expanded_within(vars, expanded_once(vars, s), (passes - 1) as nat)
    }
}

/// How many passes [`MacroMap::expand`] makes at most: enough for nested
/// definitions, and an end to a self-referential one.
pub const MAX_PASSES: usize = 8;

// ─── The map ─────────────────────────────────────────────────────────────────

/// The variables of a [`MacroMap`].
#[verifier::ext_equal]
pub struct MacroView {
    /// The value of each name, in upper case.
    pub vars: Map<Seq<char>, Seq<char>>,
    /// The same values, each under the spelling that it was set under.
    pub original_case: Map<Seq<char>, Seq<char>>,
}

impl MacroView {
    /// No variables.
    pub open spec fn empty() -> MacroView {
        MacroView { vars: Map::empty(), original_case: Map::empty() }
    }

    /// What holds of every map that comes about by setting and removing: names
    /// are kept in upper case, every spelling is one of a name and has its
    /// value, and every name has one spelling.
    pub open spec fn well_formed(self) -> bool {
        &&& forall|name: Seq<char>| #[trigger]
            self.vars.contains_key(name) ==> text::upper(name) == name
        &&& forall|key: Seq<char>| #[trigger]
            self.original_case.contains_key(key) ==> self.vars.contains_key(text::upper(key))
                && self.original_case[key] == self.vars[text::upper(key)]
        &&& forall|a: Seq<char>, b: Seq<char>| #[trigger]
            self.original_case.contains_key(a) && #[trigger] self.original_case.contains_key(b)
                && text::same_name(a, b) ==> a == b
        &&& forall|name: Seq<char>| #[trigger] self.vars.contains_key(name) ==> self.is_spelled(name)
    }

    /// Whether `name` has a spelling.
    pub open spec fn is_spelled(self, name: Seq<char>) -> bool {
        exists|key: Seq<char>| #[trigger]
            self.original_case.contains_key(key) && text::upper(key) == name
    }

    /// The value of `key`, in whatever casing.
    pub open spec fn get(self, key: Seq<char>) -> Option<Seq<char>> {
        if self.vars.contains_key(text::upper(key)) {
            Some(self.vars[text::upper(key)])
        } else {
            None
        }
    }

    /// With `key` set to `value`, in place of any value that the name had, in
    /// whatever casing.
    pub open spec fn set(self, key: Seq<char>, value: Seq<char>) -> MacroView {
        MacroView {
            vars: self.vars.insert(text::upper(key), value),
            original_case: table::without_spellings(self.original_case, key).insert(key, value),
        }
    }

    /// With `key` set to `value` unless it has one.
    pub open spec fn set_default(self, key: Seq<char>, value: Seq<char>) -> MacroView {
        if self.get(key) is Some {
            self
        } else {
            self.set(key, value)
        }
    }

    /// Without `key`, in whatever casing.
    pub open spec fn remove(self, key: Seq<char>) -> MacroView {
        MacroView {
            vars: self.vars.remove(text::upper(key)),
            original_case: table::without_spellings(self.original_case, key),
        }
    }

    /// With every pair set, in order.
    pub open spec fn extend(self, pairs: Seq<(Seq<char>, Seq<char>)>) -> MacroView
        decreases pairs.len(),
    {
        if pairs.len() == 0 {
            self
        } else {
            self.extend(pairs.drop_last()).set(pairs.last().0, pairs.last().1)
        }
    }

    /// `s` with its references expanded.
    pub open spec fn expand(self, s: Seq<char>) -> Seq<char> {
        expanded_within(self.vars, s, MAX_PASSES as nat)
    }

    /// Every variable under its upper-case name and under its spelling.
    pub open spec fn as_env(self) -> Map<Seq<char>, Seq<char>> {
        self.vars.union_prefer_right(self.original_case)
    }
}

/// Setting a variable keeps a map well formed.
pub proof fn setting_keeps_well_formed(map: MacroView, key: Seq<char>, value: Seq<char>)
    requires
        map.well_formed(),
    ensures
        map.set(key, value).well_formed(),
{
    let after = map.set(key, value);
    text::upper_twice(key);
    assert forall|name: Seq<char>| #[trigger] after.vars.contains_key(name) implies after.is_spelled(
        name,
    ) by {
        if name == text::upper(key) {
            assert(after.original_case.contains_key(key));
        } else {
            assert(map.vars.contains_key(name));
            assert(map.is_spelled(name));
            let spelling = choose|k: Seq<char>| #[trigger]
                map.original_case.contains_key(k) && text::upper(k) == name;
            assert(after.original_case.contains_key(spelling));
        }
    }
}

/// Removing a variable keeps a map well formed.
pub proof fn removing_keeps_well_formed(map: MacroView, key: Seq<char>)
    requires
        map.well_formed(),
    ensures
        map.remove(key).well_formed(),
{
    let after = map.remove(key);
    assert forall|name: Seq<char>| #[trigger] after.vars.contains_key(name) implies after.is_spelled(
        name,
    ) by {
        assert(map.vars.contains_key(name));
        assert(map.is_spelled(name));
        let spelling = choose|k: Seq<char>| #[trigger]
            map.original_case.contains_key(k) && text::upper(k) == name;
        assert(after.original_case.contains_key(spelling));
    }
}

/// Setting pairs keeps a map well formed.
pub proof fn extending_keeps_well_formed(map: MacroView, pairs: Seq<(Seq<char>, Seq<char>)>)
    requires
        map.well_formed(),
    ensures
        map.extend(pairs).well_formed(),
    decreases pairs.len(),
{
    if pairs.len() > 0 {
        extending_keeps_well_formed(map, pairs.drop_last());
        setting_keeps_well_formed(
            map.extend(pairs.drop_last()),
            pairs.last().0,
            pairs.last().1,
        );
    }
}

/// The characters of a list of name and value pairs.
pub open spec fn pair_texts(pairs: Seq<(String, String)>) -> Seq<(Seq<char>, Seq<char>)> {
    pairs.map_values(|p: (String, String)| (p.0@, p.1@))
}

/// A copy of a list of name and value pairs.
pub fn clone_pairs(pairs: &Vec<(String, String)>) -> (res: Vec<(String, String)>)
    ensures
        pair_texts(res@) == pair_texts(pairs@),
{
    let mut out: Vec<(String, String)> = Vec::new();
    let mut i: usize = 0;
    while i < pairs.len()
        invariant
            i <= pairs@.len(),
            out@.len() == i,
            forall|j: int|
                0 <= j < i ==> (#[trigger] out@[j]).0@ == pairs@[j].0@ && out@[j].1@
                    == pairs@[j].1@,
        decreases pairs@.len() - i,
    {
        out.push((pairs[i].0.clone(), pairs[i].1.clone()));
        i = i + 1;
    }
    proof {
        assert(pair_texts(out@) =~= pair_texts(pairs@));
    }
    out
}

/// A case-insensitive `$(NAME)` variable map (Windows environment semantics).
///
/// Names are also kept in their original spelling because `dproj-rs` resolves
/// `$(NAME)` through a **case-sensitive** map: seeding it needs the exact
/// casing the `.dproj` files use (`DCC_UnitSearchPath`, not
/// `DCC_UNITSEARCHPATH`).
#[derive(Debug, Clone)]
pub struct MacroMap {
    /// Upper-cased names: the lookup used by [`MacroMap::expand`].
    vars: Table<String>,
    /// The same entries under their original spelling.
    original_case: Table<String>,
}

impl View for MacroMap {
    type V = MacroView;

    closed spec fn view(&self) -> MacroView {
        MacroView { vars: self.vars@, original_case: self.original_case@ }
    }
}

impl Default for MacroMap {
    fn default() -> (res: Self)
        ensures
            res@ == MacroView::empty(),
            res@.well_formed(),
    {
        MacroMap::new()
    }
}

impl MacroMap {
    /// A map without variables.
    pub fn new() -> (res: Self)
        ensures
            res@ == MacroView::empty(),
            res@.well_formed(),
    {
        MacroMap { vars: Table::new(), original_case: Table::new() }
    }

    /// Insert a variable, overwriting any previous value.
    pub fn set(&mut self, key: &str, value: String)
        ensures
            final(self)@ == old(self)@.set(key@, value@),
            old(self)@.well_formed() ==> final(self)@.well_formed(),
    {
        proof {
            if self@.well_formed() {
                setting_keeps_well_formed(self@, key@, value@);
            }
        }
        self.vars.insert(text::to_upper(key), value.clone());
        self.original_case.remove_spellings(key);
        self.original_case.insert(key.to_owned(), value);
    }

    /// Insert a variable only when that name is not already defined.
    pub fn set_default(&mut self, key: &str, value: String)
        ensures
            final(self)@ == old(self)@.set_default(key@, value@),
            old(self)@.well_formed() ==> final(self)@.well_formed(),
    {
        if self.get(key).is_none() {
            self.set(key, value);
        }
    }

    /// Forget a variable, whatever casing it was defined with.
    pub fn remove(&mut self, key: &str)
        ensures
            final(self)@ == old(self)@.remove(key@),
            old(self)@.well_formed() ==> final(self)@.well_formed(),
    {
        proof {
            if self@.well_formed() {
                removing_keeps_well_formed(self@, key@);
            }
        }
        let upper = text::to_upper(key);
        self.vars.remove_name(upper.as_str());
        self.original_case.remove_spellings(key);
    }

    /// The value of a variable, in whatever casing.
    pub fn get(&self, key: &str) -> (res: Option<&String>)
        ensures
            res is Some <==> self@.get(key@) is Some,
            res matches Some(v) ==> self@.get(key@) == Some(v@),
    {
        self.vars.get(text::to_upper(key).as_str())
    }

    /// Insert every pair, in order.
    pub fn extend(&mut self, entries: &Vec<(String, String)>)
        ensures
            final(self)@ == old(self)@.extend(pair_texts(entries@)),
            old(self)@.well_formed() ==> final(self)@.well_formed(),
    {
        let ghost pairs = pair_texts(entries@);
        let ghost before = self@;
        let mut i: usize = 0;
        proof {
            assert(pairs.take(0) == Seq::<(Seq<char>, Seq<char>)>::empty());
        }
        while i < entries.len()
            invariant
                i <= entries@.len(),
                pairs == pair_texts(entries@),
                self@ == before.extend(pairs.take(i as int)),
                before.well_formed() ==> self@.well_formed(),
            decreases entries@.len() - i,
        {
            proof {
                assert(pairs.take(i + 1).drop_last() == pairs.take(i as int));
                assert(pairs.take(i + 1).last() == pairs[i as int]);
            }
            self.set(entries[i].0.as_str(), entries[i].1.clone());
            i = i + 1;
        }
        proof {
            assert(pairs.take(i as int) == pairs);
        }
    }

    /// Expand every `$(NAME)` reference. Unknown names are left **verbatim**
    /// so callers can detect (and report) unresolved macros.
    ///
    /// Expansion is iterative (a resolved value may itself contain macros) and
    /// bounded so a self-referential definition cannot loop forever.
    pub fn expand(&self, value: &str) -> (res: String)
        ensures
            res@ == self@.expand(value@),
    {
        let mut current = value.to_owned();
        let mut pass: usize = 0;
        while pass < MAX_PASSES
            invariant_except_break
                pass <= MAX_PASSES,
                self@.expand(value@) == expanded_within(
                    self@.vars,
                    current@,
                    (MAX_PASSES - pass) as nat,
                ),
            ensures
                current@ == self@.expand(value@),
            decreases MAX_PASSES - pass,
        {
            if !contains_reference(current.as_str()) {
                break;
            }
            let next = self.expand_once(current.as_str());
            if next == current {
                break;
            }
            current = next;
            pass = pass + 1;
        }
        current
    }

    /// One pass of [`MacroMap::expand`].
    pub fn expand_once(&self, value: &str) -> (res: String)
        ensures
            res@ == expanded_once(self@.vars, value@),
    {
        let chars = text::to_chars(value);
        let mut out = String::new();
        let mut i: usize = 0;
        let ghost vars = self@.vars;
        proof {
            assert(chars@.skip(0) == chars@);
        }
        while i < chars.len()
            invariant
                i <= chars@.len(),
                vars == self@.vars,
                chars@ == value@,
                expanded_once(vars, value@) == out@ + expanded_once(vars, chars@.skip(i as int)),
            decreases chars@.len() - i,
        {
            let ghost rest = chars@.skip(i as int);
            let ghost done = out@;
            if chars[i] == '$' && i < chars.len() - 1 && chars[i + 1] == '(' {
                let mut close: usize = i + 2;
                while close < chars.len() && chars[close] != ')'
                    invariant
                        i + 2 <= close <= chars@.len(),
                        forall|j: int| i + 2 <= j < close ==> chars@[j] != ')',
                    decreases chars@.len() - close,
                {
                    close = close + 1;
                }
                proof {
                    assert forall|j: int| 2 <= j < close - i implies rest[j] != ')' by {
                        assert(rest[j] == chars@[i + j]);
                    }
                    closing_is_first(rest, 2, close - i);
                }
                if close < chars.len() {
                    let name = text::text_between(&chars, i + 2, close);
                    proof {
                        assert(name@ == rest.subrange(2, close - i));
                        assert(rest.skip(close - i + 1) == chars@.skip(close + 1));
                    }
                    match self.get(name.as_str()) {
                        Some(value) => out.append(value.as_str()),
                        None => {
                            out.append("$(".to_owned().concat(name.as_str()).concat(")").as_str())
                        },
                    }
                    proof {
                        assert(out@ == done + resolved(vars, name@));
                        assert(out@ + expanded_once(vars, chars@.skip(close + 1)) == done
                            + expanded_once(vars, rest));
                    }
                    i = close + 1;
                    continue;
                }
            }
            out.push(chars[i]);
            proof {
                assert(rest.skip(1) == chars@.skip(i + 1));
                assert(out@ + expanded_once(vars, chars@.skip(i + 1)) == done + expanded_once(
                    vars,
                    rest,
                ));
            }
            i = i + 1;
        }
        proof {
            assert(expanded_once(vars, chars@.skip(i as int)) == Seq::<char>::empty());
        }
        out
    }

    /// Seed environment for `dproj-rs` property-group evaluation. Every entry
    /// appears both upper-cased and in its original spelling, because that
    /// lookup is case-sensitive.
    pub fn as_env(&self) -> (res: Table<String>)
        ensures
            res@ == self@.as_env(),
    {
        let mut env: Table<String> = Table::new();
        env.insert_all(&self.vars);
        env.insert_all(&self.original_case);
        proof {
            assert(env@ == self@.as_env());
        }
        env
    }
}

} // verus!
