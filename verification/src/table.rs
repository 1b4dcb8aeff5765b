//! A table from names to values, kept in the order the names came in.

use vstd::prelude::*;

use crate::text;

verus! {

/// What a list of pairs holds for each name: the value of the last pair with
/// that name.
pub open spec fn pairs_map<V: View>(pairs: Seq<(String, V)>) -> Map<Seq<char>, V::V>
    decreases pairs.len(),
{
    if pairs.len() == 0 {
        Map::empty()
    } else {
        pairs_map(pairs.drop_last()).insert(pairs.last().0@, pairs.last().1@)
    }
}

/// The value of the last pair whose name is `name` up to the casing of ASCII
/// letters.
pub open spec fn named<A>(pairs: Seq<(Seq<char>, A)>, name: Seq<char>) -> Option<A>
    decreases pairs.len(),
{
    if pairs.len() == 0 {
        None
    } else if text::same_name(pairs.last().0, name) {
        Some(pairs.last().1)
    } else {
        named(pairs.drop_last(), name)
    }
}

/// The last pair of a name has its value.
pub proof fn last_spelled_counts<A>(pairs: Seq<(Seq<char>, A)>, name: Seq<char>, i: int)
    requires
        0 <= i < pairs.len(),
        text::same_name(pairs[i].0, name),
        forall|j: int| i < j < pairs.len() ==> !text::same_name((#[trigger] pairs[j]).0, name),
    ensures
        named(pairs, name) == Some(pairs[i].1),
    decreases pairs.len(),
{
    if i < pairs.len() - 1 {
        assert(!text::same_name(pairs[pairs.len() - 1].0, name));
        let before = pairs.drop_last();
        assert forall|j: int| i < j < before.len() implies !text::same_name(
            (#[trigger] before[j]).0,
            name,
        ) by {
            assert(before[j] == pairs[j]);
        }
        last_spelled_counts(before, name, i);
    }
}

/// A name without a pair has no value.
pub proof fn unspelled_is_absent<A>(pairs: Seq<(Seq<char>, A)>, name: Seq<char>)
    requires
        forall|j: int| 0 <= j < pairs.len() ==> !text::same_name((#[trigger] pairs[j]).0, name),
    ensures
        named(pairs, name) is None,
    decreases pairs.len(),
{
    if pairs.len() > 0 {
        assert(!text::same_name(pairs[pairs.len() - 1].0, name));
        let before = pairs.drop_last();
        assert forall|j: int| 0 <= j < before.len() implies !text::same_name(
            (#[trigger] before[j]).0,
            name,
        ) by {
            assert(before[j] == pairs[j]);
        }
        unspelled_is_absent(before, name);
    }
}

/// The index of the last pair whose name is `name` up to the casing of ASCII
/// letters.
pub fn last_spelled<V>(pairs: &Vec<(String, V)>, name: &str) -> (res: Option<usize>)
    ensures
        match res {
            Some(i) => {
                &&& i < pairs@.len()
                &&& text::same_name(pairs@[i as int].0@, name@)
                &&& forall|j: int|
                    i < j < pairs@.len() ==> !text::same_name((#[trigger] pairs@[j]).0@, name@)
            },
            None => forall|j: int|
                0 <= j < pairs@.len() ==> !text::same_name((#[trigger] pairs@[j]).0@, name@),
        },
{
    let mut i: usize = pairs.len();
    while i > 0
        invariant
            i <= pairs@.len(),
            forall|j: int|
                i <= j < pairs@.len() ==> !text::same_name((#[trigger] pairs@[j]).0@, name@),
        decreases i,
    {
        if text::is_same_name(pairs[i - 1].0.as_str(), name) {
            return Some(i - 1);
        }
        i = i - 1;
    }
    None
}

/// A table from names to values. Names are told apart by every character.
#[derive(Debug, Clone)]
pub struct Table<V> {
    /// The pairs; where a name comes up more than once, the last one counts.
    pub pairs: Vec<(String, V)>,
}

impl<V: View> View for Table<V> {
    type V = Map<Seq<char>, V::V>;

    open spec fn view(&self) -> Map<Seq<char>, V::V> {
        pairs_map(self.pairs@)
    }
}

/// The index of the last pair named `name`, if there is one.
pub open spec fn is_last_named<V>(pairs: Seq<(String, V)>, name: Seq<char>, i: int) -> bool {
    &&& 0 <= i < pairs.len()
    &&& pairs[i].0@ == name
    &&& forall|j: int| i < j < pairs.len() ==> (#[trigger] pairs[j]).0@ != name
}

proof fn last_named_counts<V: View>(pairs: Seq<(String, V)>, name: Seq<char>, i: int)
    requires
        is_last_named(pairs, name, i),
    ensures
        pairs_map(pairs).contains_key(name),
        pairs_map(pairs)[name] == pairs[i].1@,
    decreases pairs.len(),
{
    if i < pairs.len() - 1 {
        assert(pairs[pairs.len() - 1].0@ != name);
        let before = pairs.drop_last();
        assert forall|j: int| i < j < before.len() implies (#[trigger] before[j]).0@ != name by {
            assert(before[j] == pairs[j]);
        }
        last_named_counts(before, name, i);
    }
}

proof fn unnamed_is_absent<V: View>(pairs: Seq<(String, V)>, name: Seq<char>)
    requires
        forall|j: int| 0 <= j < pairs.len() ==> (#[trigger] pairs[j]).0@ != name,
    ensures
        !pairs_map(pairs).contains_key(name),
    decreases pairs.len(),
{
    if pairs.len() > 0 {
        let before = pairs.drop_last();
        assert forall|j: int| 0 <= j < before.len() implies (#[trigger] before[j]).0@ != name by {
            assert(before[j] == pairs[j]);
        }
        assert(pairs[pairs.len() - 1].0@ != name);
        unnamed_is_absent(before, name);
    }
}

proof fn replacing_the_last_named<V: View>(
    pairs: Seq<(String, V)>,
    name: Seq<char>,
    i: int,
    pair: (String, V),
)
    requires
        is_last_named(pairs, name, i),
        pair.0@ == name,
    ensures
        pairs_map(pairs.update(i, pair)) == pairs_map(pairs).insert(name, pair.1@),
    decreases pairs.len(),
{
    let before = pairs.drop_last();
    if i == pairs.len() - 1 {
        assert(pairs.update(i, pair).drop_last() == before);
        assert(pairs_map(pairs.update(i, pair)) =~= pairs_map(pairs).insert(name, pair.1@));
    } else {
        assert forall|j: int| i < j < before.len() implies (#[trigger] before[j]).0@ != name by {
            assert(before[j] == pairs[j]);
        }
        assert(pairs[pairs.len() - 1].0@ != name);
        replacing_the_last_named(before, name, i, pair);
        assert(pairs.update(i, pair).drop_last() == before.update(i, pair));
        assert(pairs_map(pairs.update(i, pair)) =~= pairs_map(pairs).insert(name, pair.1@));
    }
}

proof fn dropping_the_last_named<V: View>(pairs: Seq<(String, V)>, name: Seq<char>, i: int)
    requires
        is_last_named(pairs, name, i),
    ensures
        pairs_map(pairs.remove(i)).remove(name) == pairs_map(pairs).remove(name),
    decreases pairs.len(),
{
    let before = pairs.drop_last();
    if i == pairs.len() - 1 {
        assert(pairs.remove(i) == before);
    } else {
        assert forall|j: int| i < j < before.len() implies (#[trigger] before[j]).0@ != name by {
            assert(before[j] == pairs[j]);
        }
        dropping_the_last_named(before, name, i);
        assert(pairs.remove(i).drop_last() == before.remove(i));
        assert(pairs.remove(i).last() == pairs.last());
        let last = pairs.last().0@;
        let value = pairs.last().1@;
        assert(pairs[pairs.len() - 1].0@ != name);
        assert(pairs_map(before.remove(i)).insert(last, value).remove(name)
            =~= pairs_map(before.remove(i)).remove(name).insert(last, value));
        assert(pairs_map(before).insert(last, value).remove(name)
            =~= pairs_map(before).remove(name).insert(last, value));
    }
    assert(pairs_map(pairs.remove(i)).remove(name) =~= pairs_map(pairs).remove(name));
}

/// `map` without the names that are `name` up to the casing of ASCII letters.
pub open spec fn without_spellings<A>(map: Map<Seq<char>, A>, name: Seq<char>) -> Map<
    Seq<char>,
    A,
> {
    Map::new(|k: Seq<char>| map.contains_key(k) && !text::same_name(k, name), |k: Seq<char>| map[k])
}

/// The pairs whose name is not a spelling of `name`.
spec fn other_spellings<V>(pairs: Seq<(String, V)>, name: Seq<char>) -> Seq<(String, V)> {
    pairs.filter(|p: (String, V)| !text::same_name(p.0@, name))
}

proof fn other_spellings_map<V: View>(pairs: Seq<(String, V)>, name: Seq<char>)
    ensures
        pairs_map(other_spellings(pairs, name)) == without_spellings(pairs_map(pairs), name),
    decreases pairs.len(),
{
    reveal(Seq::filter);
    if pairs.len() == 0 {
        assert(pairs_map(other_spellings(pairs, name)) =~= without_spellings(
            pairs_map(pairs),
            name,
        ));
    } else {
        let before = pairs.drop_last();
        other_spellings_map(before, name);
        if !text::same_name(pairs.last().0@, name) {
            let kept = other_spellings(before, name);
            assert(other_spellings(pairs, name) == kept.push(pairs.last()));
            assert(kept.push(pairs.last()).drop_last() == kept);
        } else {
            assert(other_spellings(pairs, name) == other_spellings(before, name));
        }
        assert(pairs_map(other_spellings(pairs, name)) =~= without_spellings(
            pairs_map(pairs),
            name,
        ));
    }
}

impl<V: View> Table<V> {
    /// A table with no names.
    pub fn new() -> (res: Self)
        ensures
            res@ == Map::<Seq<char>, V::V>::empty(),
    {
        Table { pairs: Vec::new() }
    }

    fn last_named(&self, name: &str) -> (res: Option<usize>)
        ensures
            match res {
                Some(i) => is_last_named(self.pairs@, name@, i as int),
                None => forall|j: int|
                    0 <= j < self.pairs@.len() ==> (#[trigger] self.pairs@[j]).0@ != name@,
            },
    {
        let wanted = name.to_owned();
        let mut i: usize = self.pairs.len();
        while i > 0
            invariant
                i <= self.pairs@.len(),
                wanted@ == name@,
                forall|j: int|
                    i <= j < self.pairs@.len() ==> (#[trigger] self.pairs@[j]).0@ != name@,
            decreases i,
        {
            if self.pairs[i - 1].0 == wanted {
                return Some(i - 1);
            }
            i = i - 1;
        }
        None
    }

    /// The value that `name` has.
    pub fn get(&self, name: &str) -> (res: Option<&V>)
        ensures
            res is Some <==> self@.contains_key(name@),
            res matches Some(v) ==> v@ == self@[name@],
    {
        match self.last_named(name) {
            Some(i) => {
                proof {
                    last_named_counts(self.pairs@, name@, i as int);
                }
                Some(&self.pairs[i].1)
            },
            None => {
                proof {
                    unnamed_is_absent(self.pairs@, name@);
                }
                None
            },
        }
    }

    /// Gives `name` the value `value`, in place of the one it had.
    pub fn insert(&mut self, name: String, value: V)
        ensures
            final(self)@ == old(self)@.insert(name@, value@),
    {
        match self.last_named(name.as_str()) {
            Some(i) => {
                proof {
                    replacing_the_last_named(self.pairs@, name@, i as int, (name, value));
                }
                self.pairs.set(i, (name, value));
            },
            None => {
                let ghost before = self.pairs@;
                self.pairs.push((name, value));
                proof {
                    assert(self.pairs@.drop_last() == before);
                }
            },
        }
    }

    /// Forgets `name`.
    pub fn remove_name(&mut self, name: &str)
        ensures
            final(self)@ == old(self)@.remove(name@),
    {
        loop
            invariant
                self@.remove(name@) == old(self)@.remove(name@),
            ensures
                self@ == old(self)@.remove(name@),
            decreases self.pairs@.len(),
        {
            match self.last_named(name) {
                Some(i) => {
                    proof {
                        dropping_the_last_named(self.pairs@, name@, i as int);
                    }
                    self.pairs.remove(i);
                },
                None => {
                    proof {
                        unnamed_is_absent(self.pairs@, name@);
                        assert(self@.remove(name@) == self@);
                    }
                    break;
                },
            }
        }
    }

    /// Forgets every name that is `name` up to the casing of ASCII letters.
    pub fn remove_spellings(&mut self, name: &str)
        ensures
            final(self)@ == without_spellings(old(self)@, name@),
    {
        let ghost all = self.pairs@;
        let mut i: usize = self.pairs.len();
        proof {
            assert(all.take(i as int) == all);
            reveal(Seq::filter);
            assert(all.skip(i as int) == Seq::<(String, V)>::empty());
            assert(other_spellings(all.skip(i as int), name@) == Seq::<(String, V)>::empty());
            assert(self.pairs@ == all.take(i as int) + other_spellings(all.skip(i as int), name@));
        }
        while i > 0
            invariant
                i <= all.len(),
                self.pairs@ == all.take(i as int) + other_spellings(all.skip(i as int), name@),
            decreases i,
        {
            let ghost kept = other_spellings(all.skip(i as int), name@);
            i = i - 1;
            proof {
                let pair = all[i as int];
                assert(all.skip(i as int) == seq![pair] + all.skip(i + 1));
                let keep = |p: (String, V)| !text::same_name(p.0@, name@);
                Seq::filter_distributes_over_add(seq![pair], all.skip(i + 1), keep);
                reveal_with_fuel(Seq::filter, 2);
                assert(seq![pair].drop_last() == Seq::<(String, V)>::empty());
                assert(seq![pair].filter(keep) == if keep(pair) {
                    seq![pair]
                } else {
                    Seq::empty()
                });
                assert(self.pairs@[i as int] == pair);
            }
            if text::is_same_name(self.pairs[i].0.as_str(), name) {
                self.pairs.remove(i);
                proof {
                    assert(self.pairs@ == all.take(i as int) + kept);
                }
            } else {
                proof {
                    assert(self.pairs@ == all.take(i as int) + (seq![all[i as int]] + kept));
                }
            }
        }
        proof {
            assert(all.skip(0) == all);
            assert(self.pairs@ == other_spellings(all, name@));
            other_spellings_map(all, name@);
        }
    }
}

impl Table<String> {
    /// Gives every name of `other` the value it has there.
    pub fn insert_all(&mut self, other: &Table<String>)
        ensures
            final(self)@ == old(self)@.union_prefer_right(other@),
    {
        let mut i: usize = 0;
        proof {
            assert(other.pairs@.take(0) == Seq::<(String, String)>::empty());
            assert(self@ == old(self)@.union_prefer_right(pairs_map(other.pairs@.take(0))));
        }
        while i < other.pairs.len()
            invariant
                i <= other.pairs@.len(),
                self@ == old(self)@.union_prefer_right(pairs_map(other.pairs@.take(i as int))),
            decreases other.pairs@.len() - i,
        {
            let ghost before = self@;
            proof {
                let so_far = other.pairs@.take(i + 1);
                assert(so_far.drop_last() == other.pairs@.take(i as int));
                assert(so_far.last() == other.pairs@[i as int]);
            }
            self.insert(other.pairs[i].0.clone(), other.pairs[i].1.clone());
            i = i + 1;
            proof {
                assert(self@ == old(self)@.union_prefer_right(
                    pairs_map(other.pairs@.take(i as int)),
                ));
            }
        }
        proof {
            assert(other.pairs@.take(i as int) == other.pairs@);
        }
    }
}

} // verus!
