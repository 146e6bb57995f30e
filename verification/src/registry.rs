//! The registry of clients: a map from the names that callers choose to the
//! clients they configured. A session makes one registry and hands it to every
//! call; there is at most one client under a name.
//!
//! A registry is an ordinary value. Whoever shares it among callers that run
//! at once puts it behind a lock of their choice: `insert` takes `&mut self`
//! and the readers take `&self`, so the borrow rules already keep a writer
//! apart from every reader.

use crate::clients::Client;
use crate::text::same_text;
use vstd::prelude::*;
use vstd::string::*;

verus! {

/// One client under its name.
struct Entry {
    name: String,
    client: Client,
}

/// The clients that were registered, each under its name.
pub struct ClientRegistry {
    entries: Vec<Entry>,
}

/// Whether the names of the entries differ from each other.
spec fn distinct(entries: Seq<Entry>) -> bool {
    forall|i: int, j: int| 0 <= i < j < entries.len() ==> entries[i].name@ != entries[j].name@
}

/// Whether an entry of that name is at place `i`.
spec fn named_at(entries: Seq<Entry>, name: Seq<char>, i: int) -> bool {
    0 <= i < entries.len() && entries[i].name@ == name
}

/// The map that a list of entries stands for.
spec fn map_of(entries: Seq<Entry>) -> Map<Seq<char>, Client> {
    Map::new(
        |name: Seq<char>| exists|i: int| named_at(entries, name, i),
        |name: Seq<char>| entries[choose|i: int| named_at(entries, name, i)].client,
    )
}

/// In a list of distinct names, the entry at a place is what the map holds
/// under its name.
proof fn lemma_entry_in_map(entries: Seq<Entry>, i: int)
    requires
        distinct(entries),
        0 <= i < entries.len(),
    ensures
        map_of(entries).contains_key(entries[i].name@),
        map_of(entries)[entries[i].name@] == entries[i].client,
{
    let name = entries[i].name@;
    assert(named_at(entries, name, i));
    let j = choose|j: int| named_at(entries, name, j);
    assert(j == i);
}

impl View for ClientRegistry {
    type V = Map<Seq<char>, Client>;

    closed spec fn view(&self) -> Map<Seq<char>, Client> {
        map_of(self.entries@)
    }
}

impl ClientRegistry {
    #[verifier::type_invariant]
    spec fn well_formed(&self) -> bool {
        distinct(self.entries@)
    }

    /// The names under which clients are registered, in the order in which
    /// they were first registered.
    pub closed spec fn names(&self) -> Seq<Seq<char>> {
        Seq::new(self.entries@.len(), |i: int| self.entries@[i].name@)
    }

    /// The names are those of the map, each once.
    proof fn lemma_names(&self)
        requires
            self.well_formed(),
        ensures
            self.names().no_duplicates(),
            self.names().to_set() == self@.dom(),
    {
        let names = self.names();
        let entries = self.entries@;
        assert forall|name: Seq<char>| names.to_set().contains(name) <==> self@.dom().contains(
            name,
        ) by {
            if names.to_set().contains(name) {
                let i = choose|i: int| 0 <= i < names.len() && names[i] == name;
                assert(named_at(entries, name, i));
            }
            if self@.dom().contains(name) {
                let i = choose|i: int| named_at(entries, name, i);
                assert(names[i] == name);
            }
        }
        assert(names.to_set() =~= self@.dom());
    }

    /// A registry that holds no client.
    pub fn new() -> (r: Self)
        ensures
            r@ == Map::<Seq<char>, Client>::empty(),
            r.names() == Seq::<Seq<char>>::empty(),
    {
        let registry = ClientRegistry { entries: Vec::new() };
        assert(registry@ =~= Map::<Seq<char>, Client>::empty());
        assert(registry.names() =~= Seq::<Seq<char>>::empty());
        registry
    }

    /// The place of the entry of that name, if there is one.
    fn position(&self, name: &str) -> (r: Option<usize>)
        ensures
            match r {
                Some(i) => named_at(self.entries@, name@, i as int),
                None => forall|i: int| !named_at(self.entries@, name@, i),
            },
    {
        let mut i: usize = 0;
        while i < self.entries.len()
            invariant
                i <= self.entries@.len(),
                forall|j: int| 0 <= j < i ==> !named_at(self.entries@, name@, j),
            decreases self.entries@.len() - i,
        {
            if same_text(self.entries[i].name.as_str(), name) {
                return Some(i);
            }
            i += 1;
        }
        None
    }

    /// Registers `client` under `name`. A client that was registered under
    /// that name before is replaced.
    pub fn insert(&mut self, name: &str, client: Client)
        ensures
            final(self)@ == old(self)@.insert(name@, client),
            old(self)@.contains_key(name@) ==> final(self).names() == old(self).names(),
            !old(self)@.contains_key(name@) ==> final(self).names() == old(self).names().push(name@),
            final(self).names().no_duplicates(),
            final(self).names().to_set() == final(self)@.dom(),
    {
        proof {
            use_type_invariant(&*self);
        }
        let found = self.position(name);
        let mut entries: Vec<Entry> = Vec::new();
        std::mem::swap(&mut entries, &mut self.entries);
        let ghost before = entries@;
        let entry = Entry { name: String::from_str(name), client };
        match found {
            Some(i) => {
                entries.set(i, entry);
            },
            None => {
                entries.push(entry);
            },
        }
        proof {
            let after = entries@;
            assert forall|a: int, b: int| 0 <= a < b < after.len() implies after[a].name@
                != after[b].name@ by {
                match found {
                    Some(i) => {
                        assert(named_at(before, name@, i as int));
                        assert(after[a].name@ == before[a].name@);
                        assert(after[b].name@ == before[b].name@);
                    },
                    None => {
                        assert(!named_at(before, name@, a));
                        if b < before.len() {
                            assert(after[b] == before[b]);
                        }
                    },
                }
            }
            assert(distinct(after));
            assert forall|key: Seq<char>|
                map_of(after).contains_key(key) <==> map_of(before).insert(
                    name@,
                    client,
                ).contains_key(key) by {
                if map_of(after).contains_key(key) {
                    let i = choose|i: int| named_at(after, key, i);
                    if key != name@ {
                        assert(named_at(before, key, i));
                    }
                }
                if map_of(before).insert(name@, client).contains_key(key) {
                    if key == name@ {
                        match found {
                            Some(i) => {
                                assert(named_at(after, key, i as int));
                            },
                            None => {
                                assert(named_at(after, key, after.len() - 1));
                            },
                        }
                    } else {
                        let i = choose|i: int| named_at(before, key, i);
                        assert(named_at(after, key, i));
                    }
                }
            }
            assert forall|key: Seq<char>| map_of(after).contains_key(key) implies map_of(after)[key]
                == map_of(before).insert(name@, client)[key] by {
                let i = choose|i: int| named_at(after, key, i);
                lemma_entry_in_map(after, i);
                if key != name@ {
                    assert(named_at(before, key, i));
                    lemma_entry_in_map(before, i);
                }
            }
            assert(map_of(after) =~= map_of(before).insert(name@, client));
            match found {
                Some(i) => {
                    assert(map_of(before).contains_key(name@));
                    assert(Seq::new(after.len(), |i: int| after[i].name@) =~= Seq::new(
                        before.len(),
                        |i: int| before[i].name@,
                    ));
                },
                None => {
                    assert(!map_of(before).contains_key(name@));
                    assert(Seq::new(after.len(), |i: int| after[i].name@) =~= Seq::new(
                        before.len(),
                        |i: int| before[i].name@,
                    ).push(name@));
                },
            }
        }
        self.entries = entries;
        proof {
            self.lemma_names();
        }
    }

    /// The client that is registered under `name`; none where there is none,
    /// which is no error here.
    pub fn get(&self, name: &str) -> (r: Option<&Client>)
        ensures
            match r {
                Some(client) => self@.contains_key(name@) && self@[name@] == *client,
                None => !self@.contains_key(name@),
            },
    {
        proof {
            use_type_invariant(self);
        }
        match self.position(name) {
            Some(i) => {
                proof {
                    lemma_entry_in_map(self.entries@, i as int);
                }
                Some(&self.entries[i].client)
            },
            None => None,
        }
    }

    /// How many clients are registered: the number of names, which is the size
    /// of the map.
    pub fn len(&self) -> (r: usize)
        ensures
            r == self.names().len(),
            r == self@.len(),
            self@.dom().finite(),
            self.names().no_duplicates(),
            self.names().to_set() == self@.dom(),
    {
        proof {
            use_type_invariant(self);
            self.lemma_names();
            self.names().unique_seq_to_set();
            vstd::seq_lib::seq_to_set_is_finite(self.names());
        }
        self.entries.len()
    }

    /// The names under which clients are registered at this moment: each name
    /// of the map once.
    pub fn list_names(&self) -> (r: Vec<String>)
        ensures
            crate::text::texts(r@) == self.names(),
            self.names().no_duplicates(),
            self.names().to_set() == self@.dom(),
    {
        proof {
            use_type_invariant(self);
            self.lemma_names();
        }
        let mut names: Vec<String> = Vec::new();
        let mut i: usize = 0;
        while i < self.entries.len()
            invariant
                i <= self.entries@.len(),
                names@.len() == i,
                forall|j: int| 0 <= j < i ==> names@[j]@ == self.entries@[j].name@,
            decreases self.entries@.len() - i,
        {
            names.push(self.entries[i].name.clone());
            i += 1;
        }
        assert(crate::text::texts(names@) =~= self.names());
        names
    }
}

/// Of two clients registered under one name, the last is the one that is
/// found, and the registry is as if the first had never been registered.
pub proof fn lemma_last_write_wins(
    before: Map<Seq<char>, Client>,
    name: Seq<char>,
    first: Client,
    second: Client,
)
    ensures
        before.insert(name, first).insert(name, second).contains_key(name),
        before.insert(name, first).insert(name, second)[name] == second,
        before.insert(name, first).insert(name, second) == before.insert(name, second),
{
    assert(before.insert(name, first).insert(name, second) =~= before.insert(name, second));
}

/// Registering a client under one name changes nothing under another.
pub proof fn lemma_insert_keeps_others(
    before: Map<Seq<char>, Client>,
    name: Seq<char>,
    client: Client,
    other: Seq<char>,
)
    requires
        other != name,
    ensures
        before.insert(name, client).contains_key(other) == before.contains_key(other),
        before.contains_key(other) ==> before.insert(name, client)[other] == before[other],
{
}

} // verus!
