//! The rule store: a read-only mapping from rule name to rule text.
use vstd::prelude::*;

verus! {

/// The map that a sequence of (name, text) entries builds when inserted in
/// order: a later entry with a name already seen replaces the earlier one.
pub open spec fn map_of_entries(entries: Seq<(Seq<char>, Seq<char>)>) -> Map<Seq<char>, Seq<char>>
    decreases entries.len(),
{
    if entries.len() == 0 {
        Map::empty()
    } else {
        map_of_entries(entries.drop_last()).insert(entries.last().0, entries.last().1)
    }
}

/// The plain-value form of a list of (name, text) entries.
pub open spec fn entries_view(entries: Seq<(String, String)>) -> Seq<(Seq<char>, Seq<char>)> {
    entries.map_values(|e: (String, String)| (e.0@, e.1@))
}

/// Rule name to rule text, built once and then only read.
pub struct RuleStore {
    entries: Vec<(String, String)>,
    contents: Ghost<Map<Seq<char>, Seq<char>>>,
}

impl View for RuleStore {
    type V = Map<Seq<char>, Seq<char>>;

    closed spec fn view(&self) -> Map<Seq<char>, Seq<char>> {
        self.contents@
    }
}

impl RuleStore {
    /// Each name is stored once, and the entries hold exactly the map's pairs.
    pub closed spec fn wf(&self) -> bool {
        &&& forall|i: int, j: int|
            0 <= i < j < self.entries@.len() ==> #[trigger] self.entries@[i].0@
                != #[trigger] self.entries@[j].0@
        &&& forall|i: int|
            0 <= i < self.entries@.len() ==> {
                &&& self.contents@.contains_key(#[trigger] self.entries@[i].0@)
                &&& self.contents@[self.entries@[i].0@] == self.entries@[i].1@
            }
        &&& forall|k: Seq<char>|
            #[trigger] self.contents@.contains_key(k) ==> exists|i: int|
                0 <= i < self.entries@.len() && #[trigger] self.entries@[i].0@ == k
    }

    /// An empty store.
    pub fn new() -> (r: RuleStore)
        ensures
            r.wf(),
            r@ == Map::<Seq<char>, Seq<char>>::empty(),
    {
        RuleStore { entries: Vec::new(), contents: Ghost(Map::empty()) }
    }

    /// Stores `text` under `name`, replacing any text stored under it before.
    pub fn insert(&mut self, name: String, text: String)
        requires
            old(self).wf(),
        ensures
            final(self).wf(),
            final(self)@ == old(self)@.insert(name@, text@),
    {
        let ghost key = name@;
        let mut i: usize = 0;
        while i < self.entries.len()
            invariant
                self.wf(),
                *self == *old(self),
                key == name@,
                i <= self.entries@.len(),
                forall|j: int| 0 <= j < i ==> #[trigger] self.entries@[j].0@ != key,
            decreases self.entries@.len() - i,
        {
            if self.entries[i].0.eq(&name) {
                self.entries.set(i, (name, text));
                self.contents = Ghost(self.contents@.insert(key, text@));
                assert(forall|k: Seq<char>| #[trigger] self.contents@.contains_key(k)
                    ==> exists|j: int| 0 <= j < self.entries@.len() && #[trigger] self.entries@[j].0@ == k) by {
                    assert forall|k: Seq<char>| #[trigger] self.contents@.contains_key(k)
                        implies exists|j: int| 0 <= j < self.entries@.len() && #[trigger] self.entries@[j].0@ == k by {
                        if k == key {
                            assert(self.entries@[i as int].0@ == k);
                        } else {
                            let j = choose|j: int| 0 <= j < old(self).entries@.len() && #[trigger] old(self).entries@[j].0@ == k;
                            assert(self.entries@[j].0@ == k);
                        }
                    }
                }
                return;
            }
            i += 1;
        }
        let ghost n = self.entries@.len();
        self.entries.push((name, text));
        self.contents = Ghost(self.contents@.insert(key, text@));
        assert(self.entries@[n as int].0@ == key);
        assert forall|k: Seq<char>| #[trigger] self.contents@.contains_key(k)
            implies exists|j: int| 0 <= j < self.entries@.len() && #[trigger] self.entries@[j].0@ == k by {
            if k != key {
                let j = choose|j: int| 0 <= j < old(self).entries@.len() && #[trigger] old(self).entries@[j].0@ == k;
                assert(self.entries@[j].0@ == k);
            }
        }
    }

    /// The store that holds the given entries, inserted in order (the last
    /// entry under a name wins).
    pub fn from_entries(entries: Vec<(String, String)>) -> (r: RuleStore)
        ensures
            r.wf(),
            r@ == map_of_entries(entries_view(entries@)),
    {
        let mut store = RuleStore::new();
        let mut i: usize = 0;
        while i < entries.len()
            invariant
                i <= entries@.len(),
                store.wf(),
                store@ == map_of_entries(entries_view(entries@.take(i as int))),
            decreases entries@.len() - i,
        {
            let e = &entries[i];
            store.insert(e.0.clone(), e.1.clone());
            assert(entries_view(entries@.take(i + 1)).drop_last() =~= entries_view(entries@.take(i as int)));
            i += 1;
        }
        assert(entries@.take(i as int) =~= entries@);
        store
    }

    /// The text stored under `name`, if any.
    pub fn lookup(&self, name: &String) -> (r: Option<String>)
        requires
            self.wf(),
        ensures
            r is Some <==> self@.contains_key(name@),
            r is Some ==> r->Some_0@ == self@[name@],
    {
        let mut i: usize = 0;
        while i < self.entries.len()
            invariant
                self.wf(),
                i <= self.entries@.len(),
                forall|j: int| 0 <= j < i ==> #[trigger] self.entries@[j].0@ != name@,
            decreases self.entries@.len() - i,
        {
            if self.entries[i].0.eq(name) {
                return Some(self.entries[i].1.clone());
            }
            i += 1;
        }
        None
    }

    /// Whether a text is stored under `name`.
    pub fn contains(&self, name: &String) -> (r: bool)
        requires
            self.wf(),
        ensures
            r == self@.contains_key(name@),
    {
        self.lookup(name).is_some()
    }
}

} // verus!
