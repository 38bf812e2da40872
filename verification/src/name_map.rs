//! Maps from names to values whose entries are walked in dictionary order of their names.
use vstd::prelude::*;

use crate::names::{
    precedes, same_text, text_less, text_less_irreflexive, text_less_total, text_less_transitive,
    ClarityName,
};

verus! {

/// What a list of named entries holds under `name`: the first entry of that name.
pub open spec fn lookup<W>(pairs: Seq<(Seq<char>, W)>, name: Seq<char>) -> Option<W>
    decreases pairs.len(),
{
    if pairs.len() == 0 {
        None
    } else if pairs[0].0 == name {
        Some(pairs[0].1)
    } else {
        lookup(pairs.drop_first(), name)
    }
}

/// `pairs` with `value` under `name`: in place of the entry of that name where there is one,
/// else before the first entry whose name does not stand before `name`.
pub open spec fn insert_pair<W>(pairs: Seq<(Seq<char>, W)>, name: Seq<char>, value: W) -> Seq<
    (Seq<char>, W),
>
    decreases pairs.len(),
{
    if pairs.len() == 0 {
        seq![(name, value)]
    } else if text_less(pairs[0].0, name) {
        seq![pairs[0]] + insert_pair(pairs.drop_first(), name, value)
    } else if pairs[0].0 == name {
        seq![(name, value)] + pairs.drop_first()
    } else {
        seq![(name, value)] + pairs
    }
}

/// The map that a list of named entries stands for.
pub open spec fn pairs_map<W>(pairs: Seq<(Seq<char>, W)>) -> Map<Seq<char>, W> {
    Map::new(
        |name: Seq<char>| lookup(pairs, name) is Some,
        |name: Seq<char>| lookup(pairs, name)->0,
    )
}

/// Whether the names of a list of entries ascend strictly, so that none occurs twice.
pub open spec fn ascending<W>(pairs: Seq<(Seq<char>, W)>) -> bool {
    forall|i: int, j: int|
        0 <= i < j < pairs.len() ==> text_less(
            #[trigger] pairs[i].0,
            #[trigger] pairs[j].0,
        )
}

/// Names and values, the entries in dictionary order of the names.
pub struct NameMap<V> {
    pub(crate) entries: Vec<(ClarityName, V)>,
}

/// Whether the names of stored entries ascend strictly.
pub(crate) open spec fn ordered<V>(entries: Seq<(ClarityName, V)>) -> bool {
    forall|i: int, j: int|
        0 <= i < j < entries.len() ==> text_less(
            #[trigger] entries[i].0@,
            #[trigger] entries[j].0@,
        )
}

impl<V> NameMap<V> {
    #[verifier::type_invariant]
    pub(crate) open spec fn names_ascend(self) -> bool {
        ordered(self.entries@)
    }
}

impl<V: View> NameMap<V> {
    /// The entries, in the order in which they are walked.
    pub open(crate) spec fn pairs(&self) -> Seq<(Seq<char>, V::V)> {
        Seq::new(self.entries@.len(), |i: int| (self.entries@[i].0@, self.entries@[i].1@))
    }
}

impl<V: View> View for NameMap<V> {
    type V = Map<Seq<char>, V::V>;

    open spec fn view(&self) -> Map<Seq<char>, V::V> {
        pairs_map(self.pairs())
    }
}

impl<V: View> NameMap<V> {
    pub fn new() -> (map: NameMap<V>)
        ensures
            map.pairs() == Seq::<(Seq<char>, V::V)>::empty(),
            map@ == Map::<Seq<char>, V::V>::empty(),
    {
        let map = NameMap { entries: Vec::new() };
        assert(map.pairs() =~= Seq::<(Seq<char>, V::V)>::empty());
        assert(map@ =~= Map::<Seq<char>, V::V>::empty());
        map
    }

    /// The number of entries. Their names ascend, so that none occurs twice.
    pub fn len(&self) -> (len: usize)
        ensures
            len == self.pairs().len(),
            ascending(self.pairs()),
    {
        proof {
            use_type_invariant(self);
        }
        self.entries.len()
    }

    /// The name of the entry at position `i`.
    pub fn name_at(&self, i: usize) -> (name: &ClarityName)
        requires
            i < self.pairs().len(),
        ensures
            name@ == self.pairs()[i as int].0,
    {
        &self.entries[i].0
    }

    /// The value of the entry at position `i`.
    pub fn value_at(&self, i: usize) -> (value: &V)
        requires
            i < self.pairs().len(),
        ensures
            value@ == self.pairs()[i as int].1,
    {
        &self.entries[i].1
    }

    pub fn get(&self, name: &str) -> (found: Option<&V>)
        ensures
            match found {
                Some(value) => lookup(self.pairs(), name@) == Some(value@) && self@.dom().contains(
                    name@,
                ) && self@[name@] == value@,
                None => lookup(self.pairs(), name@) is None && !self@.dom().contains(name@),
            },
    {
        let mut i: usize = 0;
        assert(self.pairs().skip(0) =~= self.pairs());
        while i < self.entries.len()
            invariant
                i <= self.entries@.len(),
                lookup(self.pairs(), name@) == lookup(self.pairs().skip(i as int), name@),
            decreases self.entries@.len() - i,
        {
            assert(self.pairs().skip(i as int).drop_first() =~= self.pairs().skip(i + 1));
            if same_text(self.entries[i].0.as_str(), name) {
                return Some(&self.entries[i].1);
            }
            i += 1;
        }
        None
    }

    pub fn contains_key(&self, name: &str) -> (present: bool)
        ensures
            present == self@.dom().contains(name@),
            present == (lookup(self.pairs(), name@) is Some),
    {
        match self.get(name) {
            Some(_) => true,
            None => false,
        }
    }

    /// Puts `value` under `name`.
    pub fn insert(&mut self, name: ClarityName, value: V)
        ensures
            final(self).pairs() == insert_pair(old(self).pairs(), name@, value@),
            final(self)@ == old(self)@.insert(name@, value@),
    {
        proof {
            use_type_invariant(&*self);
        }
        let ghost before = self.pairs();
        let mut entries: Vec<(ClarityName, V)> = Vec::new();
        std::mem::swap(&mut self.entries, &mut entries);
        let ghost held = entries@;
        let mut i: usize = 0;
        while i < entries.len() && precedes(entries[i].0.as_str(), name.as_str())
            invariant
                i <= entries@.len(),
                entries@ == held,
                before.len() == held.len(),
                forall|j: int|
                    0 <= j < held.len() ==> #[trigger] before[j] == (held[j].0@, held[j].1@),
                forall|j: int| 0 <= j < i ==> text_less(#[trigger] before[j].0, name@),
            decreases entries@.len() - i,
        {
            i += 1;
        }
        let ghost after = insert_pair(before, name@, value@);
        proof {
            insert_pair_at(before, i as int, name@, value@);
            insert_pair_map(before, name@, value@);
            assert(ascending(before));
            insert_keeps_ascending(before, name@, value@);
        }
        if i < entries.len() && same_text(entries[i].0.as_str(), name.as_str()) {
            entries.set(i, (name, value));
        } else {
            entries.insert(i, (name, value));
        }
        proof {
            assert(after.len() == entries@.len());
            assert forall|j: int| 0 <= j < after.len() implies #[trigger] after[j] == (
                entries@[j].0@,
                entries@[j].1@,
            ) by {}
            assert(ordered(entries@)) by {
                assert forall|j: int, k: int| 0 <= j < k < entries@.len() implies text_less(
                    #[trigger] entries@[j].0@,
                    #[trigger] entries@[k].0@,
                ) by {
                    assert(text_less(after[j].0, after[k].0));
                }
            }
        }
        self.entries = entries;
        assert(self.pairs() =~= after);
    }
}

impl<V: Duplicate> NameMap<V> {
    /// Puts every entry of `other` into the map.
    pub fn absorb(&mut self, other: &NameMap<V>)
        ensures
            final(self)@ == old(self)@.union_prefer_right(other@),
    {
        proof {
            use_type_invariant(other);
        }
        let ghost pairs = other.pairs();
        let ghost before = self@;
        assert(pairs_map(pairs.take(0)) =~= Map::<Seq<char>, V::V>::empty());
        assert(before.union_prefer_right(pairs_map(pairs.take(0))) =~= before);
        let mut i: usize = 0;
        while i < other.entries.len()
            invariant
                i <= other.entries@.len(),
                pairs == other.pairs(),
                ascending(pairs),
                self@ == before.union_prefer_right(pairs_map(pairs.take(i as int))),
            decreases other.entries@.len() - i,
        {
            let entry = &other.entries[i];
            proof {
                assert(pairs[i as int] == (entry.0@, entry.1@));
                pairs_map_grows(pairs, i as int);
            }
            let copied = entry.1.duplicate();
            self.insert(entry.0.clone(), copied);
            assert(self@ =~= before.union_prefer_right(pairs_map(pairs.take(i + 1))));
            i += 1;
        }
        assert(pairs.take(i as int) =~= pairs);
    }
}

/// Values that can be copied so that the copy stands for the same thing.
pub trait Duplicate: View + Sized {
    fn duplicate(&self) -> (copy: Self)
        ensures
            copy@ == self@,
    ;
}

impl<V: Duplicate> Duplicate for NameMap<V> {
    fn duplicate(&self) -> (copy: Self)
        ensures
            copy.pairs() == self.pairs(),
    {
        proof {
            use_type_invariant(self);
        }
        let mut entries: Vec<(ClarityName, V)> = Vec::new();
        let mut i: usize = 0;
        while i < self.entries.len()
            invariant
                i <= self.entries@.len(),
                entries@.len() == i,
                forall|j: int|
                    0 <= j < i ==> (#[trigger] entries@[j]).0@ == self.entries@[j].0@
                        && entries@[j].1@ == self.entries@[j].1@,
            decreases self.entries@.len() - i,
        {
            let entry = &self.entries[i];
            let copied = entry.1.duplicate();
            entries.push((entry.0.clone(), copied));
            i += 1;
        }
        let copy = NameMap { entries };
        assert(copy.pairs() =~= self.pairs());
        copy
    }
}

impl Duplicate for () {
    fn duplicate(&self) -> (copy: Self) {
    }
}

/// What a list of entries holds under a name, once one more entry stands at its end.
proof fn lookup_push<W>(pairs: Seq<(Seq<char>, W)>, last: (Seq<char>, W), name: Seq<char>)
    ensures
        lookup(pairs.push(last), name) == match lookup(pairs, name) {
            Some(value) => Some(value),
            None => if last.0 == name {
                Some(last.1)
            } else {
                None
            },
        },
    decreases pairs.len(),
{
    if pairs.len() == 0 {
        reveal_with_fuel(lookup, 2);
    } else {
        assert(pairs.push(last).drop_first() =~= pairs.drop_first().push(last));
        lookup_push(pairs.drop_first(), last, name);
    }
}

/// A name under which a list of entries holds something is that of one of its entries.
pub proof fn lookup_position<W>(pairs: Seq<(Seq<char>, W)>, name: Seq<char>) -> (at: int)
    requires
        lookup(pairs, name) is Some,
    ensures
        0 <= at < pairs.len(),
        pairs[at] == (name, lookup(pairs, name)->0),
    decreases pairs.len(),
{
    if pairs[0].0 == name {
        0
    } else {
        1 + lookup_position(pairs.drop_first(), name)
    }
}

/// The map of one more entry of an ascending list.
proof fn pairs_map_grows<W>(pairs: Seq<(Seq<char>, W)>, i: int)
    requires
        0 <= i < pairs.len(),
        ascending(pairs),
    ensures
        pairs_map(pairs.take(i + 1)) == pairs_map(pairs.take(i)).insert(pairs[i].0, pairs[i].1),
{
    let before = pairs.take(i);
    let last = pairs[i];
    assert(pairs.take(i + 1) =~= before.push(last));
    if lookup(before, last.0) is Some {
        let at = lookup_position(before, last.0);
        assert(pairs[at].0 == last.0);
        text_less_irreflexive(last.0);
    }
    assert forall|name: Seq<char>| #[trigger]
        lookup(pairs.take(i + 1), name) == (if name == last.0 {
            Some(last.1)
        } else {
            lookup(before, name)
        }) by {
        lookup_push(before, last, name);
    }
    assert(pairs_map(pairs.take(i + 1)) =~= pairs_map(before).insert(last.0, last.1));
}

/// Where an entry lands, once the names that stand before its own have been passed.
pub proof fn insert_pair_at<W>(pairs: Seq<(Seq<char>, W)>, at: int, name: Seq<char>, value: W)
    requires
        0 <= at <= pairs.len(),
        forall|j: int| 0 <= j < at ==> text_less(#[trigger] pairs[j].0, name),
        at < pairs.len() ==> !text_less(pairs[at].0, name),
    ensures
        insert_pair(pairs, name, value) == if at < pairs.len() && pairs[at].0 == name {
            pairs.update(at, (name, value))
        } else {
            pairs.insert(at, (name, value))
        },
    decreases pairs.len(),
{
    if at == 0 {
        if pairs.len() == 0 {
            assert(pairs.insert(0, (name, value)) =~= insert_pair(pairs, name, value));
        } else if pairs[0].0 == name {
            assert(pairs.update(0, (name, value)) =~= insert_pair(pairs, name, value));
        } else {
            assert(pairs.insert(0, (name, value)) =~= insert_pair(pairs, name, value));
        }
    } else {
        let rest = pairs.drop_first();
        assert forall|j: int| 0 <= j < at - 1 implies text_less(
            #[trigger] rest[j].0,
            name,
        ) by {
            assert(rest[j] == pairs[j + 1]);
        }
        assert(text_less(pairs[0].0, name));
        insert_pair_at(rest, at - 1, name, value);
        if at < pairs.len() && pairs[at].0 == name {
            assert(seq![pairs[0]] + rest.update(at - 1, (name, value)) =~= pairs.update(
                at,
                (name, value),
            ));
        } else {
            assert(seq![pairs[0]] + rest.insert(at - 1, (name, value)) =~= pairs.insert(
                at,
                (name, value),
            ));
        }
    }
}

/// After an insertion the inserted name gives the inserted value, and every other name gives
/// what it gave before.
pub proof fn lookup_after_insert<W>(
    pairs: Seq<(Seq<char>, W)>,
    name: Seq<char>,
    value: W,
    other: Seq<char>,
)
    ensures
        lookup(insert_pair(pairs, name, value), other) == if other == name {
            Some(value)
        } else {
            lookup(pairs, other)
        },
    decreases pairs.len(),
{
    let inserted = insert_pair(pairs, name, value);
    if pairs.len() == 0 {
        assert(inserted.drop_first() =~= pairs);
    } else if text_less(pairs[0].0, name) {
        text_less_irreflexive(name);
        lookup_after_insert(pairs.drop_first(), name, value, other);
        assert(inserted.drop_first() =~= insert_pair(pairs.drop_first(), name, value));
    } else if pairs[0].0 == name {
        assert(inserted.drop_first() =~= pairs.drop_first());
    } else {
        assert(inserted.drop_first() =~= pairs);
    }
}

/// An insertion into the entries is an insertion into the map that they stand for.
pub proof fn insert_pair_map<W>(pairs: Seq<(Seq<char>, W)>, name: Seq<char>, value: W)
    ensures
        pairs_map(insert_pair(pairs, name, value)) == pairs_map(pairs).insert(name, value),
{
    assert forall|other: Seq<char>|
        lookup(insert_pair(pairs, name, value), other) == if other == name {
            Some(value)
        } else {
            #[trigger] lookup(pairs, other)
        } by {
        lookup_after_insert(pairs, name, value, other);
    }
    assert forall|other: Seq<char>|
        #[trigger] lookup(insert_pair(pairs, name, value), other) == if other == name {
            Some(value)
        } else {
            lookup(pairs, other)
        } by {
        lookup_after_insert(pairs, name, value, other);
    }
    assert(pairs_map(insert_pair(pairs, name, value)) =~= pairs_map(pairs).insert(name, value));
}

/// Entries whose names ascend still ascend after an insertion.
pub proof fn insert_keeps_ascending<W>(pairs: Seq<(Seq<char>, W)>, name: Seq<char>, value: W)
    requires
        ascending(pairs),
    ensures
        ascending(insert_pair(pairs, name, value)),
    decreases pairs.len(),
{
    let inserted = insert_pair(pairs, name, value);
    if pairs.len() == 0 {
    } else {
        let rest = pairs.drop_first();
        assert forall|i: int, j: int| 0 <= i < j < rest.len() implies text_less(
            #[trigger] rest[i].0,
            #[trigger] rest[j].0,
        ) by {
            assert(rest[i] == pairs[i + 1] && rest[j] == pairs[j + 1]);
        }
        if text_less(pairs[0].0, name) {
            insert_keeps_ascending(rest, name, value);
            let tail = insert_pair(rest, name, value);
            assert forall|j: int| 0 <= j < tail.len() implies text_less(
                pairs[0].0,
                #[trigger] tail[j].0,
            ) by {
                inserted_names(rest, name, value, j);
                if tail[j].0 != name {
                    let k = choose|k: int| 0 <= k < rest.len() && rest[k].0 == tail[j].0;
                    assert(rest[k] == pairs[k + 1]);
                }
            }
            assert forall|i: int, j: int| 0 <= i < j < inserted.len() implies text_less(
                #[trigger] inserted[i].0,
                #[trigger] inserted[j].0,
            ) by {
                assert(inserted[j] == tail[j - 1]);
                if i > 0 {
                    assert(inserted[i] == tail[i - 1]);
                }
            }
        } else if pairs[0].0 == name {
            assert forall|i: int, j: int| 0 <= i < j < inserted.len() implies text_less(
                #[trigger] inserted[i].0,
                #[trigger] inserted[j].0,
            ) by {
                assert(inserted[i].0 == pairs[i].0 && inserted[j].0 == pairs[j].0);
            }
        } else {
            text_less_total(name, pairs[0].0);
            assert forall|i: int, j: int| 0 <= i < j < inserted.len() implies text_less(
                #[trigger] inserted[i].0,
                #[trigger] inserted[j].0,
            ) by {
                assert(inserted[j] == pairs[j - 1]);
                if i > 0 {
                    assert(inserted[i] == pairs[i - 1]);
                } else if j > 1 {
                    text_less_transitive(name, pairs[0].0, pairs[j - 1].0);
                }
            }
        }
    }
}

/// Every name after an insertion is the inserted one or stood there before.
proof fn inserted_names<W>(pairs: Seq<(Seq<char>, W)>, name: Seq<char>, value: W, j: int)
    requires
        0 <= j < insert_pair(pairs, name, value).len(),
    ensures
        insert_pair(pairs, name, value)[j].0 == name || exists|k: int|
            0 <= k < pairs.len() && pairs[k].0 == insert_pair(pairs, name, value)[j].0,
    decreases pairs.len(),
{
    let inserted = insert_pair(pairs, name, value);
    if pairs.len() > 0 {
        if text_less(pairs[0].0, name) {
            if j > 0 {
                inserted_names(pairs.drop_first(), name, value, j - 1);
                if inserted[j].0 != name {
                    let k = choose|k: int|
                        0 <= k < pairs.drop_first().len() && pairs.drop_first()[k].0
                            == inserted[j].0;
                    assert(pairs[k + 1].0 == inserted[j].0);
                }
            } else {
                assert(pairs[0].0 == inserted[0].0);
            }
        } else if pairs[0].0 == name {
            if j > 0 {
                assert(pairs[j].0 == inserted[j].0);
            }
        } else if j > 0 {
            assert(pairs[j - 1].0 == inserted[j].0);
        }
    }
}

} // verus!
