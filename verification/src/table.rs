//! Entries under names, each name once.
use vstd::prelude::*;

verus! {

/// `s` has an entry under `key`.
pub open spec fn has_key<V>(s: Seq<(Seq<char>, V)>, key: Seq<char>) -> bool {
    exists|i: int| 0 <= i < s.len() && (#[trigger] s[i]).0 == key
}

/// `s` has the entry `value` under `key`.
pub open spec fn holds<V>(s: Seq<(Seq<char>, V)>, key: Seq<char>, value: V) -> bool {
    exists|i: int| 0 <= i < s.len() && #[trigger] s[i] == (key, value)
}

/// No two entries of `s` have the same key.
pub open spec fn distinct_keys<V>(s: Seq<(Seq<char>, V)>) -> bool {
    forall|i: int, j: int|
        0 <= i < j < s.len() ==> (#[trigger] s[i]).0 != (#[trigger] s[j]).0
}

/// `s` with `value` under `key`: in the place of the entry that was there, or else at the end.
pub open spec fn with_entry<V>(s: Seq<(Seq<char>, V)>, key: Seq<char>, value: V) -> Seq<
    (Seq<char>, V),
> {
    if has_key(s, key) {
        s.map_values(
            |e: (Seq<char>, V)|
                if e.0 == key {
                    (key, value)
                } else {
                    e
                },
        )
    } else {
        s.push((key, value))
    }
}

/// The names and values of `entries`.
pub open spec fn entries_view<V: View>(entries: Seq<(String, V)>) -> Seq<(Seq<char>, V::V)> {
    entries.map_values(|e: (String, V)| (e.0@, e.1@))
}

/// Entries under names, in the order in which the names came.
#[derive(Debug)]
pub struct Table<V> {
    entries: Vec<(String, V)>,
}

impl<V: View> View for Table<V> {
    type V = Seq<(Seq<char>, V::V)>;

    closed spec fn view(&self) -> Seq<(Seq<char>, V::V)> {
        entries_view(self.entries@)
    }
}

impl<V> Table<V> {
    #[verifier::type_invariant]
    spec fn well_formed(self) -> bool {
        forall|i: int, j: int|
            0 <= i < j < self.entries@.len() ==> (#[trigger] self.entries@[i]).0@ != (
            #[trigger] self.entries@[j]).0@
    }
}

impl<V: View> Table<V> {
    /// A table without entries.
    pub fn new() -> (r: Self)
        ensures
            r@ == Seq::<(Seq<char>, V::V)>::empty(),
    {
        let r = Table { entries: Vec::new() };
        assert(r@ =~= Seq::empty());
        r
    }

    /// This table with `value` under `key`.
    pub fn with(self, key: String, value: V) -> (r: Self)
        ensures
            r@ == with_entry(self@, key@, value@),
    {
        proof {
            use_type_invariant(&self);
        }
        let ghost before = self@;
        let mut entries = self.entries;
        let ghost old_entries = entries@;
        let len: usize = entries.len();
        let mut i: usize = 0;
        while i < len && entries[i].0 != key
            invariant
                i <= len,
                len == entries@.len(),
                entries@ == old_entries,
                forall|k: int| 0 <= k < i ==> (#[trigger] old_entries[k]).0@ != key@,
            decreases len - i,
        {
            i = i + 1;
        }
        if i < len {
            assert(before[i as int].0 == key@);
            entries.set(i, (key, value));
            let r = Table { entries };
            assert(r@ =~= with_entry(before, key@, value@));
            r
        } else {
            assert forall|k: int| 0 <= k < before.len() implies (#[trigger] before[k]).0
                != key@ by {
                assert(old_entries[k].0@ != key@);
            }
            entries.push((key, value));
            let r = Table { entries };
            assert(r@ =~= with_entry(before, key@, value@));
            r
        }
    }

    /// The entries.
    pub fn entries(&self) -> (r: &Vec<(String, V)>)
        ensures
            entries_view(r@) == self@,
            distinct_keys(self@),
    {
        proof {
            use_type_invariant(self);
        }
        &self.entries
    }

    /// The entries, out of the table.
    pub fn into_entries(self) -> (r: Vec<(String, V)>)
        ensures
            entries_view(r@) == self@,
            distinct_keys(self@),
    {
        proof {
            use_type_invariant(&self);
        }
        self.entries
    }
}

impl Clone for Table<String> {
    fn clone(&self) -> (r: Self)
        ensures
            r@ == self@,
    {
        proof {
            use_type_invariant(self);
        }
        let mut entries: Vec<(String, String)> = Vec::new();
        let len: usize = self.entries.len();
        let mut i: usize = 0;
        while i < len
            invariant
                i <= len,
                len == self.entries@.len(),
                entries@ == self.entries@.take(i as int),
            decreases len - i,
        {
            entries.push((self.entries[i].0.clone(), self.entries[i].1.clone()));
            i = i + 1;
            assert(entries@ =~= self.entries@.take(i as int));
        }
        assert(entries@ =~= self.entries@);
        Table { entries }
    }
}

/// A value that is set is the one that is found, and it is found under no other name.
pub proof fn law_with_entry<V>(
    s: Seq<(Seq<char>, V)>,
    key: Seq<char>,
    value: V,
    other: Seq<char>,
    found: V,
)
    ensures
        holds(with_entry(s, key, value), other, found) <==> if other == key {
            found == value
        } else {
            holds(s, other, found)
        },
{
    let r = with_entry(s, key, value);
    if has_key(s, key) {
        let k = choose|k: int| 0 <= k < s.len() && (#[trigger] s[k]).0 == key;
        assert(r[k] == (key, value));
    } else {
        assert(r[s.len() as int] == (key, value));
    }
    if holds(s, other, found) {
        let i = choose|i: int| 0 <= i < s.len() && #[trigger] s[i] == (other, found);
        if other != key {
            assert(r[i] == (other, found));
        }
    }
    if holds(r, other, found) {
        let i = choose|i: int| 0 <= i < r.len() && #[trigger] r[i] == (other, found);
        if other != key {
            assert(i < s.len());
            assert(s[i] == (other, found));
        } else if i < s.len() && !has_key(s, key) {
            assert(s[i].0 == key);
        }
    }
}

/// Setting a value keeps every name in its place: a new name comes last, and an entry under a name
/// that was there takes the place of the old one.
pub proof fn law_with_keeps_places<V: View>(table: Table<V>, key: String, value: V, r: Table<V>)
    requires
        call_ensures(Table::<V>::with, (table, key, value), r),
    ensures
        forall|i: int|
            0 <= i < table@.len() ==> (#[trigger] r@[i]).0 == table@[i].0 && (table@[i].0 != key@
                ==> r@[i].1 == table@[i].1) && (table@[i].0 == key@ ==> r@[i].1 == value@),
        r@.len() == table@.len() <==> exists|i: int|
            0 <= i < table@.len() && (#[trigger] table@[i]).0 == key@,
        r@.len() != table@.len() ==> r@ == table@.push((key@, value@)),
        distinct_keys(table@) ==> distinct_keys(r@),
{
    if distinct_keys(table@) {
        assert forall|i: int, j: int| 0 <= i < j < r@.len() implies (#[trigger] r@[i]).0 != (
        #[trigger] r@[j]).0 by {
            if has_key(table@, key@) {
                assert(table@[i].0 != table@[j].0);
            } else if j < table@.len() {
                assert(table@[i].0 != table@[j].0);
            } else {
                assert(table@[i].0 != key@);
            }
        }
    }
}

/// A new table is empty, and what comes out of a table is what it holds, entry by entry, under
/// names of which no two are the same.
pub proof fn law_table_gives_its_entries<V: View>(
    empty: Table<V>,
    table: Table<V>,
    lent: &Vec<(String, V)>,
    given: Vec<(String, V)>,
)
    requires
        call_ensures(Table::<V>::new, (), empty),
        call_ensures(Table::<V>::entries, (&table,), lent),
        call_ensures(Table::<V>::into_entries, (table,), given),
    ensures
        empty@.len() == 0,
        lent@.len() == table@.len(),
        given@.len() == table@.len(),
        forall|i: int|
            0 <= i < table@.len() ==> lent@[i].0@ == (#[trigger] table@[i]).0 && lent@[i].1@
                == table@[i].1 && given@[i].0@ == table@[i].0 && given@[i].1@ == table@[i].1,
        forall|i: int, j: int|
            0 <= i < j < given@.len() ==> (#[trigger] given@[i]).0@ != (#[trigger] given@[j]).0@,
{
    let lent_view = entries_view(lent@);
    let given_view = entries_view(given@);
    assert forall|i: int| 0 <= i < table@.len() implies lent@[i].0@ == (#[trigger] table@[i]).0
        && lent@[i].1@ == table@[i].1 && given@[i].0@ == table@[i].0 && given@[i].1@
        == table@[i].1 by {
        assert(lent_view[i] == (lent@[i].0@, lent@[i].1@));
        assert(given_view[i] == (given@[i].0@, given@[i].1@));
    }
    assert forall|i: int, j: int| 0 <= i < j < given@.len() implies (#[trigger] given@[i]).0@ != (
    #[trigger] given@[j]).0@ by {
        assert(table@[i].0 != table@[j].0);
    }
}

} // verus!
