//! The relay's routing table: which connection a client name reaches.
//!
//! A connection is known by the number its owner gave it when it was accepted
//! (the relay's outgoing channel for that socket). A name is either the peer
//! address of the connection or an identifier a client registered under.

use vstd::prelude::*;

verus! {

/// One row of the table: `name` reaches the connection numbered `channel`.
pub struct Route {
    pub name: String,
    pub channel: u64,
}

/// The routing table, kept as a list of rows with distinct names.
pub struct RouteTable {
    entries: Vec<Route>,
    routes: Ghost<Map<Seq<char>, u64>>,
}

impl View for RouteTable {
    type V = Map<Seq<char>, u64>;

    closed spec fn view(&self) -> Map<Seq<char>, u64> {
        self.routes@
    }
}

/// The table after client connection `client` registers under `id`: `id` then
/// reaches the same connection as `client`. A connection that the table does
/// not know cannot register, and the table stays as it was.
pub open spec fn registered_routes(routes: Map<Seq<char>, u64>, client: Seq<char>, id: Seq<char>) -> Map<
    Seq<char>,
    u64,
> {
    if routes.contains_key(client) {
        routes.insert(id, routes[client])
    } else {
        routes
    }
}

/// What a lookup of `name` finds in `routes`.
pub open spec fn route_of(routes: Map<Seq<char>, u64>, name: Seq<char>) -> Option<u64> {
    if routes.contains_key(name) {
        Some(routes[name])
    } else {
        None
    }
}

impl RouteTable {
    /// The table is well formed: the rows have distinct names and the view is
    /// exactly the map from each row's name to its channel.
    pub closed spec fn wf(&self) -> bool {
        &&& forall|i: int, j: int|
            0 <= i < j < self.entries@.len() ==> #[trigger] self.entries@[i].name@
                != #[trigger] self.entries@[j].name@
        &&& forall|i: int|
            0 <= i < self.entries@.len() ==> #[trigger] self.routes@.contains_key(
                self.entries@[i].name@,
            ) && self.routes@[self.entries@[i].name@] == self.entries@[i].channel
        &&& forall|k: Seq<char>|
            #[trigger] self.routes@.contains_key(k) ==> exists|i: int|
                0 <= i < self.entries@.len() && #[trigger] self.entries@[i].name@ == k
    }

    /// An empty table.
    pub fn new() -> (table: RouteTable)
        ensures
            table.wf(),
            table@ == Map::<Seq<char>, u64>::empty(),
    {
        RouteTable { entries: Vec::new(), routes: Ghost(Map::empty()) }
    }

    /// The number of names in the table.
    pub fn len(&self) -> (n: usize)
        requires
            self.wf(),
        ensures
            n == self@.len(),
    {
        proof {
            self.lemma_len();
        }
        self.entries.len()
    }

    proof fn lemma_len(&self)
        requires
            self.wf(),
        ensures
            self.entries@.len() == self@.len(),
            self@.dom().finite(),
    {
        let names = self.entries@.map_values(|r: Route| r.name@);
        assert(self@.dom() =~= names.to_set()) by {
            assert forall|k: Seq<char>| self@.dom().contains(k) implies names.to_set().contains(k) by {
                let i = choose|i: int| 0 <= i < self.entries@.len() && #[trigger] self.entries@[i].name@ == k;
                assert(names[i] == k);
            }
            assert forall|k: Seq<char>| names.to_set().contains(k) implies self@.dom().contains(k) by {
                let i = choose|i: int| 0 <= i < names.len() && names[i] == k;
                assert(self.entries@[i].name@ == k);
            }
        }
        assert(names.no_duplicates()) by {
            assert forall|i: int, j: int| 0 <= i < names.len() && 0 <= j < names.len() && i != j
                implies names[i] != names[j] by {
                if i < j {
                    assert(self.entries@[i].name@ != self.entries@[j].name@);
                } else {
                    assert(self.entries@[j].name@ != self.entries@[i].name@);
                }
            }
        }
        names.unique_seq_to_set();
    }

    /// The row whose name is `name`, if there is one.
    fn find(&self, name: &String) -> (r: Option<usize>)
        requires
            self.wf(),
        ensures
            match r {
                Some(i) => i < self.entries@.len() && self.entries@[i as int].name@ == name@,
                None => !self@.contains_key(name@),
            },
    {
        let n = self.entries.len();
        let mut i: usize = 0;
        while i < n
            invariant
                self.wf(),
                n == self.entries@.len(),
                i <= n,
                forall|j: int| 0 <= j < i ==> self.entries@[j].name@ != name@,
            decreases n - i,
        {
            if self.entries[i].name == *name {
                return Some(i);
            }
            i = i + 1;
        }
        None
    }

    /// The channel that `name` reaches, if the table knows it.
    pub fn get(&self, name: &String) -> (r: Option<u64>)
        requires
            self.wf(),
        ensures
            r == route_of(self@, name@),
    {
        match self.find(name) {
            Some(i) => Some(self.entries[i].channel),
            None => None,
        }
    }

    /// Whether the table knows `name`.
    pub fn contains(&self, name: &String) -> (b: bool)
        requires
            self.wf(),
        ensures
            b == self@.contains_key(name@),
    {
        self.find(name).is_some()
    }

    /// Makes `name` reach `channel`, replacing what it reached before.
    pub fn insert(&mut self, name: String, channel: u64)
        requires
            old(self).wf(),
        ensures
            final(self).wf(),
            final(self)@ == old(self)@.insert(name@, channel),
    {
        let ghost key = name@;
        match self.find(&name) {
            Some(i) => {
                self.entries.set(i, Route { name, channel });
                self.routes = Ghost(self.routes@.insert(key, channel));
                assert forall|k: Seq<char>| #[trigger] self.routes@.contains_key(k) implies exists|j: int|
                    0 <= j < self.entries@.len() && #[trigger] self.entries@[j].name@ == k by {
                    if k == key {
                        assert(self.entries@[i as int].name@ == k);
                    } else {
                        assert(old(self).routes@.contains_key(k));
                        let j = choose|j: int| 0 <= j < old(self).entries@.len() && #[trigger] old(self).entries@[j].name@ == k;
                        assert(self.entries@[j].name@ == k);
                    }
                }
            },
            None => {
                self.entries.push(Route { name, channel });
                self.routes = Ghost(self.routes@.insert(key, channel));
                assert forall|i: int, j: int|
                    0 <= i < j < self.entries@.len() implies #[trigger] self.entries@[i].name@
                        != #[trigger] self.entries@[j].name@ by {
                    if j == self.entries@.len() - 1 {
                        assert(old(self).routes@.contains_key(old(self).entries@[i].name@));
                    } else {
                        assert(old(self).entries@[i].name@ != old(self).entries@[j].name@);
                    }
                }
                assert forall|k: Seq<char>| #[trigger] self.routes@.contains_key(k) implies exists|j: int|
                    0 <= j < self.entries@.len() && #[trigger] self.entries@[j].name@ == k by {
                    if k == key {
                        assert(self.entries@[self.entries@.len() - 1].name@ == k);
                    } else {
                        assert(old(self).routes@.contains_key(k));
                        let j = choose|j: int| 0 <= j < old(self).entries@.len() && #[trigger] old(self).entries@[j].name@ == k;
                        assert(self.entries@[j].name@ == k);
                    }
                }
            },
        }
    }

    /// Forgets `name`, and returns the channel it reached, if any.
    pub fn remove(&mut self, name: &String) -> (r: Option<u64>)
        requires
            old(self).wf(),
        ensures
            final(self).wf(),
            final(self)@ == old(self)@.remove(name@),
            r == route_of(old(self)@, name@),
    {
        match self.find(name) {
            Some(i) => {
                let route = self.entries.remove(i);
                self.routes = Ghost(self.routes@.remove(name@));
                assert forall|a: int, b: int|
                    0 <= a < b < self.entries@.len() implies #[trigger] self.entries@[a].name@
                        != #[trigger] self.entries@[b].name@ by {
                    let oa = if a < i { a } else { a + 1 };
                    let ob = if b < i { b } else { b + 1 };
                    assert(self.entries@[a] == old(self).entries@[oa]);
                    assert(self.entries@[b] == old(self).entries@[ob]);
                    assert(old(self).entries@[oa].name@ != old(self).entries@[ob].name@);
                }
                assert forall|a: int| 0 <= a < self.entries@.len() implies #[trigger] self.routes@.contains_key(
                    self.entries@[a].name@,
                ) && self.routes@[self.entries@[a].name@] == self.entries@[a].channel by {
                    let oa = if a < i { a } else { a + 1 };
                    assert(self.entries@[a] == old(self).entries@[oa]);
                    assert(old(self).entries@[oa].name@ != old(self).entries@[i as int].name@);
                    assert(old(self).routes@.contains_key(old(self).entries@[oa].name@));
                }
                assert forall|k: Seq<char>| #[trigger] self.routes@.contains_key(k) implies exists|j: int|
                    0 <= j < self.entries@.len() && #[trigger] self.entries@[j].name@ == k by {
                    assert(old(self).routes@.contains_key(k));
                    let j = choose|j: int| 0 <= j < old(self).entries@.len() && #[trigger] old(self).entries@[j].name@ == k;
                    assert(j != i);
                    let nj = if j < i { j } else { j - 1 };
                    assert(self.entries@[nj] == old(self).entries@[j]);
                }
                Some(route.channel)
            },
            None => {
                assert(self.routes@ =~= self.routes@.remove(name@));
                None
            },
        }
    }

    /// Registers the connection known as `client` under the name `id`: when the
    /// table knows `client`, `id` then reaches the same connection, whatever it
    /// reached before; otherwise nothing changes.
    pub fn register(&mut self, client: &String, id: &String)
        requires
            old(self).wf(),
        ensures
            final(self).wf(),
            final(self)@ == registered_routes(old(self)@, client@, id@),
    {
        match self.get(client) {
            Some(channel) => {
                self.insert(id.clone(), channel);
            },
            None => {},
        }
    }
}

} // verus!
