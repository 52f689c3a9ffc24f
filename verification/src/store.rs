use vstd::prelude::*;

use crate::item::Item;
use crate::item::Row;

verus! {

/// Ghost image of the whole store: the persisted rows in insertion order,
/// and the next id the store's sequence will hand out. Ids are assigned
/// in increasing order and never reused, also not after a delete.
#[verifier::ext_equal]
pub struct StoreModel {
    pub rows: Seq<Row>,
    pub next_id: int,
}

impl StoreModel {
    /// Well-formedness: every persisted row has a unique, positive id,
    /// and every id lies below the sequence head.
    pub open spec fn wf(self) -> bool {
        &&& forall|i: int, j: int|
            0 <= i < self.rows.len() && 0 <= j < self.rows.len() && i != j ==> #[trigger] self.rows[i].id
                != #[trigger] self.rows[j].id
        &&& forall|i: int|
            0 <= i < self.rows.len() ==> 1 <= #[trigger] self.rows[i].id < self.next_id
        &&& 1 <= self.next_id
    }

    /// Whether some row carries this id.
    pub open spec fn contains_id(self, id: int) -> bool {
        exists|i: int| 0 <= i < self.rows.len() && #[trigger] self.rows[i].id == id
    }

    /// The position of the row carrying this id (meaningful when
    /// `contains_id(id)` holds; with unique ids it is the one match).
    pub open spec fn index_of(self, id: int) -> int {
        choose|i: int| 0 <= i < self.rows.len() && #[trigger] self.rows[i].id == id
    }
}

/// The rows that a sequence of items stands for.
pub open spec fn rows_of(items: Seq<Item>) -> Seq<Row> {
    items.map(|i: int, it: Item| it.row())
}

/// Creating a row: the new row takes the sequence head as its id and is
/// appended; the head moves on by one.
pub open spec fn spec_create(m: StoreModel, name: Seq<char>, description: Seq<char>) -> (
    StoreModel,
    Row,
) {
    let row = Row { id: m.next_id, name, description };
    (StoreModel { rows: m.rows.push(row), next_id: m.next_id + 1 }, row)
}

/// Looking a row up by id: the matching row, or absent.
pub open spec fn spec_lookup(m: StoreModel, id: int) -> Option<Row> {
    if m.contains_id(id) {
        Option::Some(m.rows[m.index_of(id)])
    } else {
        Option::None
    }
}

/// Updating by id: the matched row keeps its id and position and takes the
/// new name and description; an absent id changes nothing.
pub open spec fn spec_update(
    m: StoreModel,
    id: int,
    name: Seq<char>,
    description: Seq<char>,
) -> (StoreModel, Option<Row>) {
    if m.contains_id(id) {
        let row = Row { id, name, description };
        (
            StoreModel { rows: m.rows.update(m.index_of(id), row), next_id: m.next_id },
            Option::Some(row),
        )
    } else {
        (m, Option::None)
    }
}

/// Deleting by id: the matched row leaves the store and the result reports
/// the hit; an absent id changes nothing and reports a miss.
pub open spec fn spec_delete(m: StoreModel, id: int) -> (StoreModel, bool) {
    if m.contains_id(id) {
        (StoreModel { rows: m.rows.remove(m.index_of(id)), next_id: m.next_id }, true)
    } else {
        (m, false)
    }
}

/// Deleting everything: the store empties and the result counts the rows
/// that left; the id sequence does not reset.
pub open spec fn spec_delete_all(m: StoreModel) -> (StoreModel, int) {
    (StoreModel { rows: Seq::<Row>::empty(), next_id: m.next_id }, m.rows.len() as int)
}

/// The item repository: all persisted rows, with the id sequence.
pub struct ItemStore {
    items: Vec<Item>,
    next_id: i32,
}

impl ItemStore {
    /// The store as mathematics.
    pub closed spec fn model(self) -> StoreModel {
        StoreModel { rows: rows_of(self.items@), next_id: self.next_id as int }
    }

    pub open spec fn wf(self) -> bool {
        self.model().wf()
    }

    /// An empty store whose sequence starts at one.
    pub fn new() -> (s: Self)
        ensures
            s.wf(),
            s.model() == (StoreModel { rows: Seq::<Row>::empty(), next_id: 1 }),
    {
        let s = ItemStore { items: Vec::new(), next_id: 1 };
        proof {
            assert(s.model() =~= StoreModel { rows: Seq::<Row>::empty(), next_id: 1 });
        }
        s
    }

    /// Inserts a new row and returns the full persisted row, its id taken
    /// from the store's sequence.
    pub fn create(&mut self, name: String, description: String) -> (item: Item)
        requires
            old(self).wf(),
            old(self).model().next_id < i32::MAX as int,
        ensures
            final(self).wf(),
            final(self).model() == spec_create(old(self).model(), name@, description@).0,
            item.row() == spec_create(old(self).model(), name@, description@).1,
    {
        let item = Item { id: self.next_id, name, description };
        self.items.push(item.clone());
        self.next_id = self.next_id + 1;
        proof {
            let m0 = old(self).model();
            let m1 = spec_create(m0, item.name@, item.description@).0;
            assert(self.model().rows =~= m0.rows.push(item.row()));
            assert(self.model() =~= m1);
            assert forall|i: int, j: int|
                0 <= i < m1.rows.len() && 0 <= j < m1.rows.len() && i != j implies #[trigger] m1.rows[i].id
                != #[trigger] m1.rows[j].id by {
                if i < m0.rows.len() && j < m0.rows.len() {
                } else {
                    assert(m0.wf());
                }
            }
        }
        item
    }

    /// The position of the row carrying this id, or absent.
    fn find_index(&self, id: i32) -> (r: Option<usize>)
        requires
            self.wf(),
        ensures
            match r {
                Option::Some(i) => self.model().contains_id(id as int) && i as int
                    == self.model().index_of(id as int) && (i as int) < self.model().rows.len(),
                Option::None => !self.model().contains_id(id as int),
            },
    {
        let n = self.items.len();
        proof {
            assert(self.model().rows.len() == n as int);
        }
        let mut i: usize = 0;
        while i < n
            invariant
                self.wf(),
                n == self.items.len(),
                self.model().rows.len() == n as int,
                0 <= i <= n,
                forall|j: int| 0 <= j < i ==> #[trigger] self.model().rows[j].id != id as int,
            decreases n - i,
        {
            if self.items[i].id == id {
                proof {
                    let m = self.model();
                    assert(m.rows[i as int] == self.items@[i as int].row());
                    assert(m.rows[i as int].id == id as int);
                    assert(m.contains_id(id as int));
                    let k = m.index_of(id as int);
                    assert(0 <= k < m.rows.len() && m.rows[k].id == id as int);
                    lemma_id_position_unique(m, k, i as int);
                }
                return Option::Some(i);
            }
            i = i + 1;
        }
        Option::None
    }

    /// Returns the matching row, or absent when no row carries the id;
    /// absence is a normal outcome, not an error.
    pub fn get_by_id(&self, id: i32) -> (result: Option<Item>)
        requires
            self.wf(),
        ensures
            match result {
                Option::Some(item) => self.model().contains_id(id as int) && spec_lookup(
                    self.model(),
                    id as int,
                ) == Option::Some(item.row()),
                Option::None => !self.model().contains_id(id as int),
            },
    {
        match self.find_index(id) {
            Option::Some(i) => {
                let item = self.items[i].clone();
                proof {
                    assert(self.model().rows[i as int] == self.items@[i as int].row());
                }
                Option::Some(item)
            },
            Option::None => Option::None,
        }
    }

    /// Returns every row, in insertion order; an empty store yields an
    /// empty sequence, not an error.
    pub fn list(&self) -> (result: Vec<Item>)
        ensures
            rows_of(result@) == self.model().rows,
    {
        let n = self.items.len();
        let mut out: Vec<Item> = Vec::new();
        let mut i: usize = 0;
        while i < n
            invariant
                n == self.items.len(),
                0 <= i <= n,
                out@.len() == i,
                forall|j: int| 0 <= j < i ==> #[trigger] out@[j].row() == self.model().rows[j],
            decreases n - i,
        {
            out.push(self.items[i].clone());
            i = i + 1;
        }
        proof {
            assert(rows_of(out@) =~= self.model().rows);
        }
        out
    }

    /// Replaces name and description of the row matching the id and returns
    /// the updated row; the id and the row's position do not change. An
    /// absent id changes nothing and yields absent.
    pub fn update_by_id(&mut self, id: i32, name: String, description: String) -> (result: Option<
        Item,
    >)
        requires
            old(self).wf(),
        ensures
            final(self).wf(),
            final(self).model() == spec_update(old(self).model(), id as int, name@, description@).0,
            match result {
                Option::Some(item) => old(self).model().contains_id(id as int) && spec_update(
                    old(self).model(),
                    id as int,
                    name@,
                    description@,
                ).1 == Option::Some(item.row()),
                Option::None => !old(self).model().contains_id(id as int),
            },
    {
        match self.find_index(id) {
            Option::Some(i) => {
                let item = Item { id, name, description };
                self.items.set(i, item.clone());
                proof {
                    let m0 = old(self).model();
                    let k = m0.index_of(id as int);
                    let m1 = spec_update(m0, id as int, name@, description@).0;
                    assert(self.model().rows =~= m1.rows);
                    assert(self.model() =~= m1);
                    assert(m1.rows[k].id == m0.rows[k].id);
                    assert forall|i2: int, j2: int|
                        0 <= i2 < m1.rows.len() && 0 <= j2 < m1.rows.len() && i2 != j2 implies #[trigger] m1.rows[i2].id
                        != #[trigger] m1.rows[j2].id by {
                        assert(m1.rows[i2].id == m0.rows[i2].id);
                        assert(m1.rows[j2].id == m0.rows[j2].id);
                    }
                    assert forall|j: int| 0 <= j < m1.rows.len() implies 1
                        <= #[trigger] m1.rows[j].id < m1.next_id by {
                        assert(m1.rows[j].id == m0.rows[j].id);
                    }
                }
                Option::Some(item)
            },
            Option::None => Option::None,
        }
    }

    /// Deletes the row matching the id; the result reports whether a row
    /// was actually removed (false is a miss, not an error).
    pub fn delete_by_id(&mut self, id: i32) -> (removed: bool)
        requires
            old(self).wf(),
        ensures
            final(self).wf(),
            final(self).model() == spec_delete(old(self).model(), id as int).0,
            removed == spec_delete(old(self).model(), id as int).1,
            removed == old(self).model().contains_id(id as int),
    {
        match self.find_index(id) {
            Option::Some(i) => {
                self.items.remove(i);
                proof {
                    let m0 = old(self).model();
                    let k = m0.index_of(id as int);
                    let m1 = spec_delete(m0, id as int).0;
                    assert(self.model().rows =~= m1.rows);
                    assert(self.model() =~= m1);
                    assert forall|j: int| 0 <= j < m1.rows.len() implies #[trigger] m1.rows[j]
                        == m0.rows[if j < k {
                            j
                        } else {
                            j + 1
                        }] by {}
                    assert forall|i2: int, j2: int|
                        0 <= i2 < m1.rows.len() && 0 <= j2 < m1.rows.len() && i2 != j2 implies #[trigger] m1.rows[i2].id
                        != #[trigger] m1.rows[j2].id by {
                        let i3: int = if i2 < k {
                            i2
                        } else {
                            i2 + 1
                        };
                        let j3: int = if j2 < k {
                            j2
                        } else {
                            j2 + 1
                        };
                        assert(m1.rows[i2] == m0.rows[i3]);
                        assert(m1.rows[j2] == m0.rows[j3]);
                    }
                    assert forall|j: int| 0 <= j < m1.rows.len() implies 1
                        <= #[trigger] m1.rows[j].id < m1.next_id by {
                        assert(m1.rows[j] == m0.rows[if j < k {
                            j
                        } else {
                            j + 1
                        }]);
                    }
                }
                true
            },
            Option::None => false,
        }
    }

    /// Deletes every row and returns how many left the store; zero is a
    /// valid count. The id sequence does not reset.
    pub fn delete_all(&mut self) -> (count: u64)
        requires
            old(self).wf(),
        ensures
            final(self).wf(),
            final(self).model() == spec_delete_all(old(self).model()).0,
            count as int == spec_delete_all(old(self).model()).1,
    {
        let count = self.items.len();
        proof {
            assert(old(self).model().rows.len() == count as int);
        }
        self.items.clear();
        proof {
            assert(self.model() =~= spec_delete_all(old(self).model()).0);
        }
        count as u64
    }
}

/// Creating a row and then looking up the returned id yields exactly the
/// created row: the same id, name and description.
pub proof fn lemma_create_then_lookup(m: StoreModel, name: Seq<char>, description: Seq<char>)
    requires
        m.wf(),
    ensures
        ({
            let (m2, row) = spec_create(m, name, description);
            &&& row.name == name
            &&& row.description == description
            &&& spec_lookup(m2, row.id) == Option::Some(row)
        }),
{
    let (m2, row) = spec_create(m, name, description);
    let n = m.rows.len() as int;
    assert(m2.rows[n] == row);
    assert(m2.contains_id(row.id));
    let k = m2.index_of(row.id);
    assert(0 <= k < m2.rows.len() && m2.rows[k].id == row.id);
    if k < n {
        assert(m2.rows[k] == m.rows[k]);
        assert(false);
    }
    assert(m2.rows[k] == row);
}

/// An id that no row carries: lookup yields absent, update yields absent and
/// changes nothing, delete reports a miss and changes nothing. None of the
/// three is an error.
pub proof fn lemma_absent_id(m: StoreModel, id: int, name: Seq<char>, description: Seq<char>)
    requires
        !m.contains_id(id),
    ensures
        spec_lookup(m, id) == Option::<Row>::None,
        spec_update(m, id, name, description) == (m, Option::<Row>::None),
        spec_delete(m, id) == (m, false),
{
}

/// Deleting everything reports exactly the number of rows the store held,
/// and the store that remains lists no row at all.
pub proof fn lemma_delete_all_empties(m: StoreModel)
    ensures
        spec_delete_all(m).1 == m.rows.len(),
        spec_delete_all(m).0.rows == Seq::<Row>::empty(),
        spec_delete_all(m).0.rows.len() == 0,
{
}

/// Updating by id changes exactly the targeted row: that row keeps its id
/// and position and takes the new name and description, and every other row
/// is untouched.
pub proof fn lemma_update_targets_one_row(
    m: StoreModel,
    id: int,
    name: Seq<char>,
    description: Seq<char>,
)
    requires
        m.wf(),
        m.contains_id(id),
    ensures
        ({
            let (m2, updated) = spec_update(m, id, name, description);
            let k = m.index_of(id);
            &&& 0 <= k < m.rows.len() && m.rows[k].id == id
            &&& m2.rows.len() == m.rows.len()
            &&& m2.rows[k] == (Row { id, name, description })
            &&& m2.rows[k].id == m.rows[k].id
            &&& forall|j: int| 0 <= j < m.rows.len() && j != k ==> #[trigger] m2.rows[j] == m.rows[j]
            &&& updated == Option::Some((Row { id, name, description }))
            &&& m2.next_id == m.next_id
        }),
{
    let k = m.index_of(id);
    assert(0 <= k < m.rows.len() && m.rows[k].id == id);
}

/// Deleting an id removes it for good: the first delete reports a hit, and a
/// second delete of the same id reports a miss and changes nothing.
pub proof fn lemma_delete_twice(m: StoreModel, id: int)
    requires
        m.wf(),
        m.contains_id(id),
    ensures
        ({
            let (m2, removed) = spec_delete(m, id);
            &&& removed
            &&& !m2.contains_id(id)
            &&& spec_delete(m2, id) == (m2, false)
        }),
{
    let (m2, removed) = spec_delete(m, id);
    let k = m.index_of(id);
    assert(0 <= k < m.rows.len() && m.rows[k].id == id);
    assert forall|j: int| 0 <= j < m2.rows.len() implies #[trigger] m2.rows[j].id != id by {
        let j3: int = if j < k {
            j
        } else {
            j + 1
        };
        assert(m2.rows[j] == m.rows[j3]);
        if m.rows[j3].id == id {
            lemma_id_position_unique(m, j3, k);
            assert(false);
        }
    }
    assert(!m2.contains_id(id));
}

/// With unique ids, two positions carrying the same id coincide.
pub proof fn lemma_id_position_unique(m: StoreModel, i: int, j: int)
    requires
        m.wf(),
        0 <= i < m.rows.len(),
        0 <= j < m.rows.len(),
        m.rows[i].id == m.rows[j].id,
    ensures
        i == j,
{
}

} // verus!
