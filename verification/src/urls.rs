//! The addresses gathered while one request is served, by entry name.

use vstd::prelude::*;

verus! {

/// One reported file: the name of the entry and the address of the object.
#[derive(Debug)]
pub struct Entry {
    pub name: String,
    pub url: String,
}

/// The map that a sequence of entries stands for: a later entry replaces an
/// earlier one of the same name.
pub open spec fn map_of(entries: Seq<Entry>) -> Map<Seq<char>, Seq<char>>
    decreases entries.len(),
{
    if entries.len() == 0 {
        Map::empty()
    } else {
        map_of(entries.drop_last()).insert(entries.last().name@, entries.last().url@)
    }
}

/// No name occurs twice.
pub open spec fn distinct_names(entries: Seq<Entry>) -> bool {
    forall|i: int, j: int|
        0 <= i < j < entries.len() ==> (#[trigger] entries[i]).name@ != (
        #[trigger] entries[j]).name@
}

/// Without its last entry a sequence still has no name twice.
pub proof fn lemma_distinct_front(entries: Seq<Entry>)
    requires
        distinct_names(entries),
        entries.len() > 0,
    ensures
        distinct_names(entries.drop_last()),
{
    let front = entries.drop_last();
    assert forall|a: int, b: int| 0 <= a < b < front.len() implies (#[trigger] front[a]).name@ != (
    #[trigger] front[b]).name@ by {
        assert(entries[a].name@ != entries[b].name@);
    }
}

/// The names of the map are the names of the entries.
pub proof fn lemma_map_of_domain(entries: Seq<Entry>, name: Seq<char>)
    ensures
        map_of(entries).dom().contains(name) <==> exists|i: int|
            0 <= i < entries.len() && (#[trigger] entries[i]).name@ == name,
    decreases entries.len(),
{
    if entries.len() > 0 {
        let front = entries.drop_last();
        lemma_map_of_domain(front, name);
        if map_of(entries).dom().contains(name) {
            if entries.last().name@ == name {
                assert(entries[entries.len() - 1].name@ == name);
            } else {
                let i = choose|i: int| 0 <= i < front.len() && (#[trigger] front[i]).name@ == name;
                assert(entries[i].name@ == name);
            }
        }
        if exists|i: int| 0 <= i < entries.len() && (#[trigger] entries[i]).name@ == name {
            let i = choose|i: int| 0 <= i < entries.len() && (#[trigger] entries[i]).name@ == name;
            if i < entries.len() - 1 {
                assert(front[i].name@ == name);
            }
        }
    }
}

/// The map of a sequence of entries is finite.
pub proof fn lemma_map_of_finite(entries: Seq<Entry>)
    ensures
        map_of(entries).dom().finite(),
    decreases entries.len(),
{
    if entries.len() > 0 {
        lemma_map_of_finite(entries.drop_last());
    }
}

/// Where no name occurs twice, each entry is what the map holds under its name.
pub proof fn lemma_map_of_value(entries: Seq<Entry>, i: int)
    requires
        distinct_names(entries),
        0 <= i < entries.len(),
    ensures
        map_of(entries).dom().contains(entries[i].name@),
        map_of(entries)[entries[i].name@] == entries[i].url@,
    decreases entries.len(),
{
    let front = entries.drop_last();
    if i < entries.len() - 1 {
        lemma_distinct_front(entries);
        lemma_map_of_value(front, i);
        assert(entries[i].name@ != entries[entries.len() - 1].name@);
        assert(front[i] == entries[i]);
    }
}

/// Where no name occurs twice, the map has as many keys as there are entries.
pub proof fn lemma_map_of_len(entries: Seq<Entry>)
    requires
        distinct_names(entries),
    ensures
        map_of(entries).dom().finite(),
        map_of(entries).dom().len() == entries.len(),
    decreases entries.len(),
{
    lemma_map_of_finite(entries);
    if entries.len() > 0 {
        let front = entries.drop_last();
        lemma_distinct_front(entries);
        lemma_map_of_len(front);
        lemma_map_of_finite(front);
        lemma_map_of_domain(front, entries.last().name@);
        if map_of(front).dom().contains(entries.last().name@) {
            let i = choose|i: int|
                0 <= i < front.len() && (#[trigger] front[i]).name@ == entries.last().name@;
            assert(entries[i].name@ != entries[entries.len() - 1].name@);
        }
    }
}

/// Putting a new entry in the place of one with the same name is an insert
/// into the map.
pub proof fn lemma_map_of_update(entries: Seq<Entry>, i: int, entry: Entry)
    requires
        distinct_names(entries),
        0 <= i < entries.len(),
        entries[i].name@ == entry.name@,
    ensures
        distinct_names(entries.update(i, entry)),
        map_of(entries.update(i, entry)) == map_of(entries).insert(entry.name@, entry.url@),
    decreases entries.len(),
{
    let after = entries.update(i, entry);
    assert(distinct_names(after)) by {
        assert forall|a: int, b: int| 0 <= a < b < after.len() implies (#[trigger] after[a]).name@
            != (#[trigger] after[b]).name@ by {
            assert(entries[a].name@ != entries[b].name@);
        }
    }
    let front = entries.drop_last();
    if i == entries.len() - 1 {
        assert(after.drop_last() =~= front);
        assert(map_of(after) =~= map_of(entries).insert(entry.name@, entry.url@));
    } else {
        lemma_distinct_front(entries);
        lemma_map_of_update(front, i, entry);
        assert(after.drop_last() =~= front.update(i, entry));
        assert(after.last() == entries.last());
        assert(entries[i].name@ != entries[entries.len() - 1].name@);
        assert(map_of(after) =~= map_of(entries).insert(entry.name@, entry.url@));
    }
}

/// The addresses reported so far, each under its entry name and no name
/// twice.
#[derive(Debug)]
pub struct UrlMap {
    entries: Vec<Entry>,
}

impl View for UrlMap {
    type V = Map<Seq<char>, Seq<char>>;

    open spec fn view(&self) -> Map<Seq<char>, Seq<char>> {
        map_of(self.listing())
    }
}

impl UrlMap {
    #[verifier::type_invariant]
    spec fn well_formed(&self) -> bool {
        distinct_names(self.entries@)
    }

    /// The entries in the order in which their names first came.
    pub closed spec fn listing(&self) -> Seq<Entry> {
        self.entries@
    }

    /// The map without entries.
    pub fn new() -> (m: UrlMap)
        ensures
            m.listing() == Seq::<Entry>::empty(),
            m@ == Map::<Seq<char>, Seq<char>>::empty(),
    {
        UrlMap { entries: Vec::new() }
    }

    /// The number of entries, which is the number of names.
    pub fn len(&self) -> (n: usize)
        ensures
            n == self.listing().len(),
            distinct_names(self.listing()),
            self@.dom().finite(),
            n == self@.dom().len(),
    {
        proof {
            use_type_invariant(self);
            lemma_map_of_len(self.entries@);
        }
        self.entries.len()
    }

    /// The entry at place `i` of the listing.
    pub fn entry(&self, i: usize) -> (e: &Entry)
        requires
            i < self.listing().len(),
        ensures
            *e == self.listing()[i as int],
            self@.dom().contains(e.name@),
            self@[e.name@] == e.url@,
    {
        proof {
            use_type_invariant(self);
            lemma_map_of_value(self.entries@, i as int);
        }
        &self.entries[i]
    }

    /// The place of `name` in the listing, if it is there.
    fn find(&self, name: &String) -> (at: Option<usize>)
        ensures
            match at {
                Some(i) => i < self.listing().len() && self.listing()[i as int].name@ == name@,
                None => !self@.dom().contains(name@),
            },
    {
        let mut i: usize = 0;
        while i < self.entries.len()
            invariant
                i <= self.entries@.len(),
                forall|j: int| 0 <= j < i ==> (#[trigger] self.entries@[j]).name@ != name@,
            decreases self.entries@.len() - i,
        {
            if self.entries[i].name == *name {
                return Some(i);
            }
            i = i + 1;
        }
        proof {
            lemma_map_of_domain(self.entries@, name@);
        }
        None
    }

    /// The address reported under `name`, if there is one.
    pub fn get(&self, name: &String) -> (url: Option<&String>)
        ensures
            match url {
                Some(u) => self@.dom().contains(name@) && self@[name@] == u@,
                None => !self@.dom().contains(name@),
            },
    {
        match self.find(name) {
            Some(i) => {
                proof {
                    use_type_invariant(self);
                    lemma_map_of_value(self.entries@, i as int);
                }
                Some(&self.entries[i].url)
            },
            None => None,
        }
    }

    /// Reports `url` under `name`; an address reported under that name before
    /// is replaced.
    pub fn insert(&mut self, name: String, url: String)
        ensures
            final(self)@ == old(self)@.insert(name@, url@),
    {
        proof {
            use_type_invariant(&*self);
        }
        let found = self.find(&name);
        let entry = Entry { name, url };
        let mut entries: Vec<Entry> = Vec::new();
        core::mem::swap(&mut self.entries, &mut entries);
        let ghost before = entries@;
        match found {
            Some(i) => {
                proof {
                    lemma_map_of_update(before, i as int, entry);
                }
                entries.set(i, entry);
            },
            None => {
                proof {
                    lemma_map_of_domain(before, entry.name@);
                    let after = before.push(entry);
                    assert(after.drop_last() =~= before);
                    assert forall|a: int, b: int| 0 <= a < b < after.len() implies (
                    #[trigger] after[a]).name@ != (#[trigger] after[b]).name@ by {
                        if b < before.len() {
                            assert(before[a].name@ != before[b].name@);
                        } else {
                            assert(before[a].name@ != entry.name@);
                        }
                    }
                }
                entries.push(entry);
            },
        }
        self.entries = entries;
    }
}

} // verus!
