//! The two write primitives of the store, and what a sequence of them does to
//! its rows.
use vstd::prelude::*;
use crate::store::keys::{Key, KeyView};
use crate::store::values::{Value, ValueView};

verus! {

/// One write: an upsert of a row under its key, or the removal of a row.
#[derive(Debug, PartialEq, Eq)]
pub enum WriteOp {
    Put { key: Key, value: Value },
    Delete { key: Key },
}

/// A write as contracts see it.
pub enum OpView {
    Put { key: KeyView, value: ValueView },
    Delete { key: KeyView },
}

impl View for WriteOp {
    type V = OpView;

    open spec fn view(&self) -> OpView {
        match *self {
            WriteOp::Put { key, value } => OpView::Put { key: key@, value: value@ },
            WriteOp::Delete { key } => OpView::Delete { key: key@ },
        }
    }
}

impl Clone for WriteOp {
    fn clone(&self) -> (r: WriteOp)
        ensures
            r@ == self@,
    {
        match self {
            WriteOp::Put { key, value } => WriteOp::Put { key: key.clone(), value: value.clone() },
            WriteOp::Delete { key } => WriteOp::Delete { key: key.clone() },
        }
    }
}

impl OpView {
    /// The key of the row that the write touches.
    pub open spec fn key(self) -> KeyView {
        match self {
            OpView::Put { key, .. } => key,
            OpView::Delete { key } => key,
        }
    }

    /// What the touched row holds after the write: `None` where it is gone.
    pub open spec fn outcome(self) -> Option<ValueView> {
        match self {
            OpView::Put { value, .. } => Some(value),
            OpView::Delete { .. } => None,
        }
    }

    /// The rows after the write.
    pub open spec fn apply(self, rows: Map<KeyView, ValueView>) -> Map<KeyView, ValueView> {
        match self {
            OpView::Put { key, value } => rows.insert(key, value),
            OpView::Delete { key } => rows.remove(key),
        }
    }
}

/// The views of a sequence of writes.
pub open spec fn views(ops: Seq<WriteOp>) -> Seq<OpView> {
    ops.map_values(|op: WriteOp| op@)
}

/// The row under `key`, if there is one.
pub open spec fn lookup(rows: Map<KeyView, ValueView>, key: KeyView) -> Option<ValueView> {
    if rows.contains_key(key) {
        Some(rows[key])
    } else {
        None
    }
}

/// The rows after the writes `ops`, made in order.
pub open spec fn run(rows: Map<KeyView, ValueView>, ops: Seq<OpView>) -> Map<KeyView, ValueView>
    decreases ops.len(),
{
    if ops.len() == 0 {
        rows
    } else {
        ops.last().apply(run(rows, ops.drop_last()))
    }
}

/// What the last write of `ops` to `key` leaves there: `None` where no write
/// of `ops` touches the key.
pub open spec fn last_write(ops: Seq<OpView>, key: KeyView) -> Option<Option<ValueView>>
    decreases ops.len(),
{
    if ops.len() == 0 {
        None
    } else if ops.last().key() == key {
        Some(ops.last().outcome())
    } else {
        last_write(ops.drop_last(), key)
    }
}

/// Running one more write is applying it to what the others left.
pub proof fn lemma_run_push(rows: Map<KeyView, ValueView>, ops: Seq<OpView>, op: OpView)
    ensures
        run(rows, ops.push(op)) == op.apply(run(rows, ops)),
{
    assert(ops.push(op).drop_last() =~= ops);
}

/// Running two sequences one after the other is running their concatenation.
pub proof fn lemma_run_concat(rows: Map<KeyView, ValueView>, a: Seq<OpView>, b: Seq<OpView>)
    ensures
        run(rows, a + b) == run(run(rows, a), b),
    decreases b.len(),
{
    if b.len() == 0 {
        assert(a + b =~= a);
    } else {
        lemma_run_concat(rows, a, b.drop_last());
        assert((a + b).drop_last() =~= a + b.drop_last());
        assert((a + b).last() == b.last());
    }
}

/// Each row ends as the last write to its key left it, and rows that no write
/// touches stay as they were.
pub proof fn lemma_run_lookup(rows: Map<KeyView, ValueView>, ops: Seq<OpView>, key: KeyView)
    ensures
        lookup(run(rows, ops), key) == match last_write(ops, key) {
            Some(outcome) => outcome,
            None => lookup(rows, key),
        },
    decreases ops.len(),
{
    if ops.len() > 0 {
        lemma_run_lookup(rows, ops.drop_last(), key);
    }
}

/// Running the same writes a second time changes nothing.
pub proof fn lemma_run_idempotent(rows: Map<KeyView, ValueView>, ops: Seq<OpView>)
    ensures
        run(run(rows, ops), ops) == run(rows, ops),
{
    let once = run(rows, ops);
    let twice = run(once, ops);
    assert forall|key: KeyView| lookup(twice, key) == lookup(once, key) by {
        lemma_run_lookup(rows, ops, key);
        lemma_run_lookup(once, ops, key);
    }
    assert forall|key: KeyView| #[trigger] twice.contains_key(key) == once.contains_key(key) by {
        assert(lookup(twice, key) == lookup(once, key));
    }
    assert forall|key: KeyView| #[trigger] twice.contains_key(key) implies twice[key] == once[key] by {
        assert(lookup(twice, key) == lookup(once, key));
    }
    assert(twice =~= once);
}

} // verus!
