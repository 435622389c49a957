//! The table of known cities: each name once, in the order in which the names
//! were first stored. Nothing in it is ever changed or removed.

use vstd::prelude::*;
use crate::utils::{texts, LatLong};

verus! {

/// A row as contracts see it: the city's name and where it lies.
pub type Row = (Seq<char>, LatLong);

/// True when some row carries `name`.
pub open spec fn knows(rows: Seq<Row>, name: Seq<char>) -> bool {
    exists|i: int| 0 <= i < rows.len() && (#[trigger] rows[i]).0 == name
}

/// The position of a row that carries `name`, where there is one.
pub open spec fn index_of(rows: Seq<Row>, name: Seq<char>) -> int {
    choose|i: int| 0 <= i < rows.len() && (#[trigger] rows[i]).0 == name
}

/// The coordinates stored under `name`.
pub open spec fn find(rows: Seq<Row>, name: Seq<char>) -> Option<LatLong> {
    if knows(rows, name) {
        Some(rows[index_of(rows, name)].1)
    } else {
        None
    }
}

/// No two rows carry the same name.
pub open spec fn names_unique(rows: Seq<Row>) -> bool {
    forall|i: int, j: int|
        0 <= i < j < rows.len() ==> (#[trigger] rows[i]).0 != (#[trigger] rows[j]).0
}

/// The rows after an attempt to store `coords` under `name`: a name that is
/// already there keeps its row, and the newcomer is dropped.
pub open spec fn inserted(rows: Seq<Row>, name: Seq<char>, coords: LatLong) -> Seq<Row> {
    if knows(rows, name) {
        rows
    } else {
        rows.push((name, coords))
    }
}

/// The names of the `limit` rows stored last, the newest first.
pub open spec fn recent(rows: Seq<Row>, limit: nat) -> Seq<Seq<char>> {
    Seq::new(
        if limit <= rows.len() { limit } else { rows.len() },
        |i: int| rows[rows.len() - 1 - i].0,
    )
}

/// In a table without repeated names, the row found under a name is the one
/// row that carries it.
pub proof fn lemma_find_at(rows: Seq<Row>, i: int)
    requires
        names_unique(rows),
        0 <= i < rows.len(),
    ensures
        knows(rows, rows[i].0),
        index_of(rows, rows[i].0) == i,
        find(rows, rows[i].0) == Some(rows[i].1),
{
    let name = rows[i].0;
    assert(rows[i].0 == name);
    let k = index_of(rows, name);
    assert(0 <= k < rows.len() && rows[k].0 == name);
    if k < i {
        assert(rows[k].0 != rows[i].0);
    } else if i < k {
        assert(rows[i].0 != rows[k].0);
    }
}

/// Storing keeps names unique, makes the name findable, and never changes what
/// an earlier row says.
pub proof fn lemma_inserted(rows: Seq<Row>, name: Seq<char>, coords: LatLong)
    requires
        names_unique(rows),
    ensures
        names_unique(inserted(rows, name, coords)),
        knows(inserted(rows, name, coords), name),
        find(inserted(rows, name, coords), name) == (if knows(rows, name) {
            find(rows, name)
        } else {
            Some(coords)
        }),
{
    let after = inserted(rows, name, coords);
    if !knows(rows, name) {
        let last = rows.len() as int;
        assert(after[last] == (name, coords));
        assert forall|i: int, j: int| 0 <= i < j < after.len() implies (#[trigger] after[i]).0 != (
        #[trigger] after[j]).0 by {
            if j < last {
                assert(after[i] == rows[i] && after[j] == rows[j]);
            } else {
                assert(after[i] == rows[i]);
                assert(rows[i].0 != name);
            }
        }
        lemma_find_at(after, last);
    }
}

/// The newest names of a table without repeated names are all different, and
/// each is the name of a row.
pub proof fn law_recent_names_are_distinct(rows: Seq<Row>, limit: nat)
    requires
        names_unique(rows),
    ensures
        recent(rows, limit).len() == (if limit <= rows.len() { limit } else { rows.len() }),
        forall|i: int, j: int|
            0 <= i < j < recent(rows, limit).len() ==> (#[trigger] recent(rows, limit)[i])
                != (#[trigger] recent(rows, limit)[j]),
        forall|i: int|
            0 <= i < recent(rows, limit).len() ==> knows(rows, #[trigger] recent(rows, limit)[i]),
{
    let names = recent(rows, limit);
    assert forall|i: int, j: int| 0 <= i < j < names.len() implies (#[trigger] names[i]) != (
    #[trigger] names[j]) by {
        assert(rows[rows.len() - 1 - j].0 != rows[rows.len() - 1 - i].0);
    }
    assert forall|i: int| 0 <= i < names.len() implies knows(rows, #[trigger] names[i]) by {
        assert(rows[rows.len() - 1 - i].0 == names[i]);
    }
}

/// One stored city.
#[derive(Debug, Clone)]
pub struct CacheEntry {
    pub name: String,
    pub latitude: u64,
    pub longitude: u64,
    /// The entry's rank among all entries: the first one stored has 0.
    pub insertion_order: u64,
}

/// The table itself, oldest entry first.
#[derive(Debug)]
pub struct CityTable {
    entries: Vec<CacheEntry>,
}

impl View for CityTable {
    type V = Seq<Row>;

    closed spec fn view(&self) -> Seq<Row> {
        Seq::new(
            self.entries@.len(),
            |i: int|
                (
                    self.entries@[i].name@,
                    LatLong {
                        latitude: self.entries@[i].latitude,
                        longitude: self.entries@[i].longitude,
                    },
                ),
        )
    }
}

impl CityTable {
    /// Each name stands once, and every entry knows its rank.
    pub closed spec fn wf(&self) -> bool {
        &&& names_unique(self@)
        &&& forall|i: int|
            0 <= i < self.entries@.len() ==> (#[trigger] self.entries@[i]).insertion_order == i
    }

    /// What holds of every table that is well formed.
    pub proof fn lemma_wf(&self)
        requires
            self.wf(),
        ensures
            names_unique(self@),
    {
    }

    /// A table without entries.
    pub fn new() -> (table: CityTable)
        ensures
            table.wf(),
            table@ == Seq::<Row>::empty(),
    {
        let table = CityTable { entries: Vec::new() };
        assert(table@ =~= Seq::<Row>::empty());
        table
    }

    /// The number of cities stored.
    pub fn len(&self) -> (n: usize)
        ensures
            n == self@.len(),
    {
        self.entries.len()
    }

    /// The position of the entry that carries `name`.
    fn position(&self, name: &str) -> (at: Option<usize>)
        requires
            self.wf(),
        ensures
            match at {
                Some(i) => i < self@.len() && self@[i as int].0 == name@,
                None => !knows(self@, name@),
            },
    {
        let key: String = name.to_owned();
        let mut i: usize = 0;
        while i < self.entries.len()
            invariant
                key@ == name@,
                i <= self.entries@.len(),
                self@.len() == self.entries@.len(),
                forall|k: int| 0 <= k < i ==> (#[trigger] self@[k]).0 != name@,
            decreases self.entries@.len() - i,
        {
            if self.entries[i].name == key {
                return Some(i);
            }
            i += 1;
        }
        None
    }

    /// The coordinates stored under `name`, if the city is known.
    pub fn lookup(&self, name: &str) -> (found: Option<LatLong>)
        requires
            self.wf(),
        ensures
            found == find(self@, name@),
    {
        match self.position(name) {
            Some(i) => {
                proof {
                    lemma_find_at(self@, i as int);
                }
                let entry = &self.entries[i];
                Some(LatLong { latitude: entry.latitude, longitude: entry.longitude })
            },
            None => None,
        }
    }

    /// Stores `coords` under `name` unless the name is already there, in which
    /// case the table stays as it is. Returns whether a row was added.
    pub fn insert(&mut self, name: &str, coords: LatLong) -> (added: bool)
        requires
            old(self).wf(),
        ensures
            final(self).wf(),
            final(self)@ == inserted(old(self)@, name@, coords),
            added == !knows(old(self)@, name@),
    {
        proof {
            lemma_inserted(self@, name@, coords);
        }
        match self.position(name) {
            Some(i) => {
                assert(self@[i as int].0 == name@);
                false
            },
            None => {
                let rank: u64 = self.entries.len() as u64;
                let ghost before = self@;
                self.entries.push(
                    CacheEntry {
                        name: name.to_owned(),
                        latitude: coords.latitude,
                        longitude: coords.longitude,
                        insertion_order: rank,
                    },
                );
                assert(self@ =~= before.push((name@, coords)));
                true
            },
        }
    }

    /// The names of the cities stored last, the newest first: `limit` of them,
    /// or all where the table holds fewer.
    pub fn list_recent(&self, limit: usize) -> (names: Vec<String>)
        requires
            self.wf(),
        ensures
            texts(names@) == recent(self@, limit as nat),
    {
        let total: usize = self.entries.len();
        let n: usize = if limit <= total { limit } else { total };
        let mut names: Vec<String> = Vec::new();
        let mut i: usize = 0;
        while i < n
            invariant
                i <= n <= total,
                total == self.entries@.len(),
                total == self@.len(),
                names@.len() == i,
                forall|k: int| 0 <= k < i ==> (#[trigger] names@[k])@ == self@[total - 1 - k].0,
            decreases n - i,
        {
            names.push(self.entries[total - 1 - i].name.clone());
            i += 1;
        }
        assert(texts(names@) =~= recent(self@, limit as nat));
        names
    }

    /// The entry stored at rank `rank`.
    pub fn entry(&self, rank: usize) -> (e: &CacheEntry)
        requires
            self.wf(),
            rank < self@.len(),
        ensures
            e.insertion_order == rank,
            e.name@ == self@[rank as int].0,
            e.latitude == self@[rank as int].1.latitude,
            e.longitude == self@[rank as int].1.longitude,
    {
        &self.entries[rank]
    }
}

} // verus!
