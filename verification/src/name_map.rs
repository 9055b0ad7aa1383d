//! A small map from names to values, kept as a list in which no name occurs twice.

use vstd::prelude::*;

verus! {

/// One name with the value bound to it.
#[derive(Debug)]
struct Entry<V> {
    name: String,
    value: V,
}

/// A finite map from names to values.
///
/// Its mathematical content is a `Map` from the characters of each name to the
/// view of the value bound to it.
#[derive(Debug)]
pub struct NameMap<V> {
    entries: Vec<Entry<V>>,
}

/// No two entries carry the same name.
spec fn distinct_names<V>(entries: Seq<Entry<V>>) -> bool {
    forall|i: int, j: int|
        0 <= i < j < entries.len() ==> (#[trigger] entries[i]).name@ != (#[trigger] entries[j]).name@
}

/// The map that a list of entries stands for: each entry binds its name, a
/// later entry overriding an earlier one of the same name.
spec fn map_of<V: View>(entries: Seq<Entry<V>>) -> Map<Seq<char>, V::V>
    decreases entries.len(),
{
    if entries.len() == 0 {
        Map::empty()
    } else {
        map_of(entries.drop_last()).insert(entries.last().name@, entries.last().value@)
    }
}

/// A name that no entry carries is not bound.
proof fn lemma_unbound<V: View>(entries: Seq<Entry<V>>, name: Seq<char>)
    requires
        forall|i: int| 0 <= i < entries.len() ==> (#[trigger] entries[i]).name@ != name,
    ensures
        !map_of(entries).contains_key(name),
    decreases entries.len(),
{
    if entries.len() > 0 {
        lemma_unbound(entries.drop_last(), name);
    }
}

/// Where names are distinct, each entry's name is bound to that entry's value.
proof fn lemma_bound<V: View>(entries: Seq<Entry<V>>, at: int)
    requires
        distinct_names(entries),
        0 <= at < entries.len(),
    ensures
        map_of(entries).contains_key(entries[at].name@),
        map_of(entries)[entries[at].name@] == entries[at].value@,
    decreases entries.len(),
{
    if at < entries.len() - 1 {
        let front = entries.drop_last();
        assert(distinct_names(front)) by {
            assert forall|i: int, j: int| 0 <= i < j < front.len() implies (#[trigger] front[i]).name@
                != (#[trigger] front[j]).name@ by {
                assert(front[i] == entries[i] && front[j] == entries[j]);
            }
        }
        lemma_bound(front, at);
        assert(entries[at].name@ != entries[entries.len() - 1].name@);
    }
}

/// Where names are distinct, putting a new value in the place of an entry
/// rebinds that entry's name and nothing else.
proof fn lemma_rebound<V: View>(entries: Seq<Entry<V>>, at: int, entry: Entry<V>)
    requires
        distinct_names(entries),
        0 <= at < entries.len(),
        entry.name@ == entries[at].name@,
    ensures
        distinct_names(entries.update(at, entry)),
        map_of(entries.update(at, entry)) == map_of(entries).insert(entry.name@, entry.value@),
    decreases entries.len(),
{
    let after = entries.update(at, entry);
    assert(distinct_names(after)) by {
        assert forall|i: int, j: int| 0 <= i < j < after.len() implies (#[trigger] after[i]).name@
            != (#[trigger] after[j]).name@ by {
            assert(after[i].name@ == entries[i].name@ && after[j].name@ == entries[j].name@);
        }
    }
    let front = entries.drop_last();
    if at == entries.len() - 1 {
        assert(after.drop_last() == front);
        assert(map_of(after) == map_of(entries).insert(entry.name@, entry.value@));
    } else {
        assert(distinct_names(front)) by {
            assert forall|i: int, j: int| 0 <= i < j < front.len() implies (#[trigger] front[i]).name@
                != (#[trigger] front[j]).name@ by {
                assert(front[i] == entries[i] && front[j] == entries[j]);
            }
        }
        lemma_rebound(front, at, entry);
        assert(after.drop_last() == front.update(at, entry));
        assert(after.last() == entries.last());
        assert(entries[at].name@ != entries[entries.len() - 1].name@);
        assert(map_of(after) == map_of(entries).insert(entry.name@, entry.value@));
    }
}

/// An entry whose name no other carries can be added at the end: names stay
/// distinct and the new name is bound.
proof fn lemma_appended<V: View>(entries: Seq<Entry<V>>, entry: Entry<V>)
    requires
        distinct_names(entries),
        forall|i: int| 0 <= i < entries.len() ==> (#[trigger] entries[i]).name@ != entry.name@,
    ensures
        distinct_names(entries.push(entry)),
        map_of(entries.push(entry)) == map_of(entries).insert(entry.name@, entry.value@),
{
    let after = entries.push(entry);
    assert(after.drop_last() == entries);
    assert forall|a: int, b: int| 0 <= a < b < after.len() implies (#[trigger] after[a]).name@
        != (#[trigger] after[b]).name@ by {
        if b < entries.len() {
            assert(after[a] == entries[a] && after[b] == entries[b]);
        } else {
            assert(after[a] == entries[a]);
        }
    }
}

impl<V: View> View for NameMap<V> {
    type V = Map<Seq<char>, V::V>;

    closed spec fn view(&self) -> Map<Seq<char>, V::V> {
        map_of(self.entries@)
    }
}

impl<V> NameMap<V> {
    #[verifier::type_invariant]
    spec fn well_formed(&self) -> bool {
        distinct_names(self.entries@)
    }
}

/// The place of the entry that carries `name`, if there is one.
fn position<V>(entries: &Vec<Entry<V>>, name: &String) -> (at: Option<usize>)
    ensures
        match at {
            Some(k) => k < entries.len() && entries@[k as int].name@ == name@,
            None => forall|j: int| 0 <= j < entries.len() ==> (#[trigger] entries@[j]).name@ != name@,
        },
{
    let mut i: usize = 0;
    while i < entries.len()
        invariant
            0 <= i <= entries.len(),
            forall|j: int| 0 <= j < i ==> (#[trigger] entries@[j]).name@ != name@,
        decreases entries.len() - i,
    {
        if entries[i].name == *name {
            return Some(i);
        }
        i += 1;
    }
    None
}

impl<V: View> NameMap<V> {
    /// The map that binds no name.
    pub fn new() -> (m: NameMap<V>)
        ensures
            m@ == Map::<Seq<char>, V::V>::empty(),
    {
        NameMap { entries: Vec::new() }
    }

    /// Binds `name` to `value`, in place of whatever `name` was bound to before.
    pub fn insert(&mut self, name: String, value: V)
        ensures
            final(self)@ == old(self)@.insert(name@, value@),
    {
        proof {
            use_type_invariant(&*self);
        }
        // The list is changed on the side and put back whole.
        let mut entries: Vec<Entry<V>> = Vec::new();
        core::mem::swap(&mut self.entries, &mut entries);
        let at = position(&entries, &name);
        let entry = Entry { name, value };
        match at {
            Some(k) => {
                proof {
                    lemma_rebound(entries@, k as int, entry);
                }
                entries.set(k, entry);
            },
            None => {
                proof {
                    lemma_appended(entries@, entry);
                }
                entries.push(entry);
            },
        }
        core::mem::swap(&mut self.entries, &mut entries);
    }

    /// The value that `name` is bound to, if it is bound.
    pub fn get(&self, name: &str) -> (found: Option<&V>)
        ensures
            match found {
                Some(value) => self@.contains_key(name@) && self@[name@] == value@,
                None => !self@.contains_key(name@),
            },
    {
        proof {
            use_type_invariant(self);
        }
        let wanted: String = name.to_owned();
        match position(&self.entries, &wanted) {
            Some(k) => {
                proof {
                    lemma_bound(self.entries@, k as int);
                }
                Some(&self.entries[k].value)
            },
            None => {
                proof {
                    lemma_unbound(self.entries@, name@);
                }
                None
            },
        }
    }
}

} // verus!
