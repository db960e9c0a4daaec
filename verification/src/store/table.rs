//! The rows of the store, held in memory, and the writes that change them.
use vstd::prelude::*;
use crate::store::batch::StateChangeBatch;
use crate::store::ids::{StoreError, check_ops, committed, first_fault};
use crate::store::keys::{Key, KeyView};
use crate::store::ops::{OpView, WriteOp, lemma_run_push, run, views};
use crate::store::values::{Value, ValueView};

verus! {

/// One row: a key and what is stored under it.
#[derive(Debug, PartialEq, Eq)]
pub struct Row {
    pub key: Key,
    pub value: Value,
}

impl Clone for Row {
    fn clone(&self) -> (r: Row)
        ensures
            r.key == self.key,
            r.value@ == self.value@,
    {
        Row { key: self.key.clone(), value: self.value.clone() }
    }
}

/// No two rows have the same key.
pub open spec fn distinct_keys(rows: Seq<Row>) -> bool {
    forall|i: int, j: int| 0 <= i < j < rows.len() ==> (#[trigger] rows[i]).key@ != (#[trigger] rows[j]).key@
}

/// Some row has the key.
pub open spec fn has_key(rows: Seq<Row>, key: KeyView) -> bool {
    exists|i: int| 0 <= i < rows.len() && (#[trigger] rows[i]).key@ == key
}

/// The place of a row with the key.
pub open spec fn index_of(rows: Seq<Row>, key: KeyView) -> int {
    choose|i: int| 0 <= i < rows.len() && (#[trigger] rows[i]).key@ == key
}

/// The rows as a map from key to payload.
pub open spec fn rows_map(rows: Seq<Row>) -> Map<KeyView, ValueView> {
    Map::new(|key: KeyView| has_key(rows, key), |key: KeyView| rows[index_of(rows, key)].value@)
}

/// A row is found under its own key.
pub proof fn lemma_row_is_mapped(rows: Seq<Row>, i: int)
    requires
        distinct_keys(rows),
        0 <= i < rows.len(),
    ensures
        rows_map(rows).contains_key(rows[i].key@),
        rows_map(rows)[rows[i].key@] == rows[i].value@,
{
    let key = rows[i].key@;
    assert(has_key(rows, key));
    let j = index_of(rows, key);
    assert(rows[j].key@ == key);
    assert(j == i);
}

/// Appending a row under a fresh key inserts it into the map.
pub proof fn lemma_rows_push(rows: Seq<Row>, row: Row)
    requires
        distinct_keys(rows),
        !has_key(rows, row.key@),
    ensures
        distinct_keys(rows.push(row)),
        rows_map(rows.push(row)) == rows_map(rows).insert(row.key@, row.value@),
{
    let after = rows.push(row);
    assert forall|i: int, j: int| 0 <= i < j < after.len() implies (#[trigger] after[i]).key@ != (
    #[trigger] after[j]).key@ by {
        if j == rows.len() {
            assert(after[i] == rows[i]);
        } else {
            assert(after[i] == rows[i] && after[j] == rows[j]);
        }
    }
    let want = rows_map(rows).insert(row.key@, row.value@);
    assert forall|key: KeyView| #[trigger] rows_map(after).contains_key(key) == want.contains_key(key) by {
        if has_key(rows, key) {
            let i = index_of(rows, key);
            assert(after[i] == rows[i]);
        }
        if key == row.key@ {
            assert(after[rows.len() as int] == row);
        }
        if has_key(after, key) {
            let i = index_of(after, key);
            if i < rows.len() {
                assert(after[i] == rows[i]);
            }
        }
    }
    assert forall|key: KeyView| #[trigger] want.contains_key(key) implies rows_map(after)[key] == want[key] by {
        if key == row.key@ {
            lemma_row_is_mapped(after, rows.len() as int);
        } else {
            let i = index_of(rows, key);
            assert(after[i] == rows[i]);
            lemma_row_is_mapped(after, i);
            lemma_row_is_mapped(rows, i);
        }
    }
    assert(rows_map(after) =~= want);
}

/// Replacing the payload of a row overwrites its entry in the map.
pub proof fn lemma_rows_update(rows: Seq<Row>, i: int, row: Row)
    requires
        distinct_keys(rows),
        0 <= i < rows.len(),
        rows[i].key@ == row.key@,
    ensures
        distinct_keys(rows.update(i, row)),
        rows_map(rows.update(i, row)) == rows_map(rows).insert(row.key@, row.value@),
{
    let after = rows.update(i, row);
    assert forall|a: int, b: int| 0 <= a < b < after.len() implies (#[trigger] after[a]).key@ != (
    #[trigger] after[b]).key@ by {
        assert(after[a].key@ == rows[a].key@);
        assert(after[b].key@ == rows[b].key@);
    }
    let want = rows_map(rows).insert(row.key@, row.value@);
    assert forall|key: KeyView| #[trigger] rows_map(after).contains_key(key) == want.contains_key(key) by {
        if has_key(rows, key) {
            let j = index_of(rows, key);
            assert(after[j].key@ == rows[j].key@);
        }
        if key == row.key@ {
            assert(after[i] == row);
        }
        if has_key(after, key) {
            let j = index_of(after, key);
            assert(after[j].key@ == rows[j].key@);
        }
    }
    assert forall|key: KeyView| #[trigger] want.contains_key(key) implies rows_map(after)[key] == want[key] by {
        if key == row.key@ {
            lemma_row_is_mapped(after, i);
        } else {
            let j = index_of(rows, key);
            assert(after[j] == rows[j]);
            lemma_row_is_mapped(after, j);
            lemma_row_is_mapped(rows, j);
        }
    }
    assert(rows_map(after) =~= want);
}

/// Taking a row out removes its entry from the map.
pub proof fn lemma_rows_remove(rows: Seq<Row>, i: int)
    requires
        distinct_keys(rows),
        0 <= i < rows.len(),
    ensures
        distinct_keys(rows.remove(i)),
        rows_map(rows.remove(i)) == rows_map(rows).remove(rows[i].key@),
{
    let after = rows.remove(i);
    assert forall|a: int| 0 <= a < after.len() implies #[trigger] after[a] == rows[if a < i {
        a
    } else {
        a + 1
    }] by {}
    assert forall|a: int, b: int| 0 <= a < b < after.len() implies (#[trigger] after[a]).key@ != (
    #[trigger] after[b]).key@ by {
        let a0 = if a < i { a } else { a + 1 };
        let b0 = if b < i { b } else { b + 1 };
        assert(after[a] == rows[a0] && after[b] == rows[b0]);
    }
    let want = rows_map(rows).remove(rows[i].key@);
    assert forall|key: KeyView| #[trigger] rows_map(after).contains_key(key) == want.contains_key(key) by {
        if has_key(rows, key) && key != rows[i].key@ {
            let j = index_of(rows, key);
            let j1 = if j < i { j } else { j - 1 };
            assert(after[j1] == rows[j]);
        }
        if has_key(after, key) {
            let j = index_of(after, key);
            let j0 = if j < i { j } else { j + 1 };
            assert(after[j] == rows[j0]);
            assert(rows[j0].key@ == key);
        }
    }
    assert forall|key: KeyView| #[trigger] want.contains_key(key) implies rows_map(after)[key] == want[key] by {
        let j = index_of(rows, key);
        let j1 = if j < i { j } else { j - 1 };
        assert(after[j1] == rows[j]);
        lemma_row_is_mapped(after, j1);
        lemma_row_is_mapped(rows, j);
    }
    assert(rows_map(after) =~= want);
}

/// The store: every row under its natural key, no key twice.
#[derive(Debug)]
pub struct StateStore {
    rows: Vec<Row>,
}

impl View for StateStore {
    type V = Map<KeyView, ValueView>;

    closed spec fn view(&self) -> Map<KeyView, ValueView> {
        rows_map(self.rows@)
    }
}

impl StateStore {
    #[verifier::type_invariant]
    spec fn well_formed(self) -> bool {
        distinct_keys(self.rows@)
    }

    /// The rows in the order in which their keys were first written.
    pub closed spec fn rows(&self) -> Seq<Row> {
        self.rows@
    }

    /// The rows of the store.
    pub fn entries(&self) -> (rows: &Vec<Row>)
        ensures
            rows@ == self.rows(),
            distinct_keys(rows@),
            self@ == rows_map(rows@),
    {
        proof {
            use_type_invariant(self);
        }
        &self.rows
    }

    /// Puts `rows` in the place of the rows of the store.
    pub(crate) fn replace_rows(&mut self, rows: Vec<Row>)
        requires
            distinct_keys(rows@),
        ensures
            final(self)@ == rows_map(rows@),
            final(self).rows() == rows@,
    {
        self.rows = rows;
    }

    /// A store without rows: nothing is listed in it, and no key is mapped.
    pub fn new() -> (store: StateStore)
        ensures
            store.rows() == Seq::<Row>::empty(),
            store@ == Map::<KeyView, ValueView>::empty(),
    {
        let store = StateStore { rows: Vec::new() };
        assert(store@ =~= Map::<KeyView, ValueView>::empty());
        store
    }

    /// Where the row with the key stands, if there is one.
    fn position(&self, key: &Key) -> (r: Option<usize>)
        ensures
            match r {
                Some(i) => i < self.rows@.len() && self.rows@[i as int].key@ == key@,
                None => !has_key(self.rows@, key@),
            },
    {
        let mut i: usize = 0;
        while i < self.rows.len()
            invariant
                i <= self.rows@.len(),
                forall|j: int| 0 <= j < i ==> (#[trigger] self.rows@[j]).key@ != key@,
            decreases self.rows@.len() - i,
        {
            if self.rows[i].key.same(key) {
                return Some(i);
            }
            i += 1;
        }
        None
    }

    /// The payload stored under the key.
    pub fn get(&self, key: &Key) -> (r: Option<&Value>)
        ensures
            r is Some == self@.contains_key(key@),
            r matches Some(value) ==> value@ == self@[key@],
    {
        proof {
            use_type_invariant(self);
        }
        match self.position(key) {
            Some(i) => {
                proof {
                    lemma_row_is_mapped(self.rows@, i as int);
                }
                Some(&self.rows[i].value)
            },
            None => None,
        }
    }

    /// How many rows the store holds.
    pub fn len(&self) -> (n: usize)
        ensures
            n == self@.dom().len(),
            self@.dom().finite(),
    {
        proof {
            use_type_invariant(self);
            lemma_rows_count(self.rows@);
        }
        self.rows.len()
    }

    /// Stores the payload under the key, in place of what was there.
    pub(crate) fn put(&mut self, key: Key, value: Value)
        ensures
            final(self)@ == old(self)@.insert(key@, value@),
    {
        proof {
            use_type_invariant(&*self);
        }
        let row = Row { key, value };
        let found = self.position(&row.key);
        let mut rows: Vec<Row> = Vec::new();
        core::mem::swap(&mut self.rows, &mut rows);
        match found {
            Some(i) => {
                proof {
                    lemma_rows_update(rows@, i as int, row);
                }
                rows.set(i, row);
            },
            None => {
                proof {
                    lemma_rows_push(rows@, row);
                }
                rows.push(row);
            },
        }
        self.rows = rows;
    }

    /// Removes the row under the key, if there is one.
    pub(crate) fn delete(&mut self, key: &Key)
        ensures
            final(self)@ == old(self)@.remove(key@),
    {
        proof {
            use_type_invariant(&*self);
        }
        match self.position(key) {
            Some(i) => {
                let mut rows: Vec<Row> = Vec::new();
        core::mem::swap(&mut self.rows, &mut rows);
                proof {
                    lemma_rows_remove(rows@, i as int);
                }
                rows.remove(i);
                self.rows = rows;
            },
            None => {
                assert(self@.remove(key@) =~= self@);
            },
        }
    }

    /// Makes one write.
    fn write(&mut self, op: WriteOp)
        ensures
            final(self)@ == op@.apply(old(self)@),
    {
        match op {
            WriteOp::Put { key, value } => self.put(key, value),
            WriteOp::Delete { key } => self.delete(&key),
        }
    }

    /// Persists the batch in full or not at all: where one of its keys holds
    /// a malformed identifier the store stays as it was.
    pub fn apply(&mut self, batch: &StateChangeBatch) -> (r: Result<(), StoreError>)
        ensures
            r is Ok <==> first_fault(batch.writes()) is None,
            r matches Err(e) ==> first_fault(batch.writes()) == Some(e@),
            final(self)@ == committed(old(self)@, batch.writes()),
    {
        self.commit(batch.plan())
    }

    /// Makes the writes in order, or none of them: where a key of `ops` holds
    /// a malformed identifier the store stays as it was.
    pub fn commit(&mut self, ops: Vec<WriteOp>) -> (r: Result<(), StoreError>)
        ensures
            r is Ok <==> first_fault(views(ops@)) is None,
            r matches Err(e) ==> first_fault(views(ops@)) == Some(e@),
            final(self)@ == committed(old(self)@, views(ops@)),
    {
        match check_ops(&ops) {
            Ok(()) => {},
            Err(e) => {
                return Err(e);
            },
        }
        let ghost all = views(ops@);
        let mut i: usize = 0;
        assert(all.take(0) =~= Seq::<OpView>::empty());
        while i < ops.len()
            invariant
                i <= ops.len(),
                all == views(ops@),
                self@ == run(old(self)@, all.take(i as int)),
            decreases ops.len() - i,
        {
            let op = ops[i].clone();
            proof {
                lemma_run_push(old(self)@, all.take(i as int), all[i as int]);
                assert(all.take(i as int).push(all[i as int]) =~= all.take(i + 1));
            }
            self.write(op);
            i += 1;
        }
        assert(all.take(i as int) =~= all);
        Ok(())
    }
}

/// As many rows as keys.
pub proof fn lemma_rows_count(rows: Seq<Row>)
    requires
        distinct_keys(rows),
    ensures
        rows_map(rows).dom().finite(),
        rows_map(rows).dom().len() == rows.len(),
    decreases rows.len(),
{
    if rows.len() == 0 {
        assert(rows_map(rows).dom() =~= Set::<KeyView>::empty());
    } else {
        let front = rows.drop_last();
        let last = rows.last();
        assert forall|i: int, j: int| 0 <= i < j < front.len() implies (#[trigger] front[i]).key@ != (
        #[trigger] front[j]).key@ by {
            assert(front[i] == rows[i] && front[j] == rows[j]);
        }
        lemma_rows_count(front);
        if has_key(front, last.key@) {
            let i = index_of(front, last.key@);
            assert(front[i] == rows[i]);
            assert(rows[i].key@ == rows[rows.len() - 1].key@);
        }
        lemma_rows_push(front, last);
        assert(front.push(last) =~= rows);
        assert(rows_map(rows).dom() =~= rows_map(front).dom().insert(last.key@));
    }
}

} // verus!
