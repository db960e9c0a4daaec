//! Identifiers of the home protocol, as far as the store checks them.
use vstd::prelude::*;
use crate::store::keys::{Key, KeyView};
use crate::store::ops::{OpView, WriteOp, run, views};
use crate::store::values::ValueView;

verus! {

/// Whether the home protocol's identifier library accepts `id` as a room id.
pub uninterp spec fn is_room_id(id: Seq<char>) -> bool;

/// Whether the home protocol's identifier library accepts `id` as a user id.
pub uninterp spec fn is_user_id(id: Seq<char>) -> bool;

/// Calls `RoomId::parse` of ruma, as matrix-sdk exports it, and reports
/// whether it accepted the text. Nothing is proved of the grammar: the
/// contract only gives the answer its name.
#[verifier::external_body]
fn room_id_parses(id: &str) -> (ok: bool)
    ensures
        ok == is_room_id(id@),
{
    matrix_sdk::ruma::RoomId::parse(id).is_ok()
}

/// Calls `UserId::parse` of ruma, as matrix-sdk exports it, and reports
/// whether it accepted the text. Nothing is proved of the grammar: the
/// contract only gives the answer its name.
#[verifier::external_body]
fn user_id_parses(id: &str) -> (ok: bool)
    ensures
        ok == is_user_id(id@),
{
    matrix_sdk::ruma::UserId::parse(id).is_ok()
}

/// Why the store refuses a write.
#[derive(Debug, PartialEq, Eq)]
pub enum StoreError {
    /// A key names a room by something that is no room id.
    MalformedRoomId(String),
    /// A key names a user by something that is no user id.
    MalformedUserId(String),
}

/// A refusal as contracts see it.
pub enum Fault {
    MalformedRoomId(Seq<char>),
    MalformedUserId(Seq<char>),
}

impl View for StoreError {
    type V = Fault;

    open spec fn view(&self) -> Fault {
        match *self {
            StoreError::MalformedRoomId(id) => Fault::MalformedRoomId(id@),
            StoreError::MalformedUserId(id) => Fault::MalformedUserId(id@),
        }
    }
}

impl StoreError {
    /// The identifier that was refused.
    pub fn identifier(&self) -> (id: &String)
        ensures
            self@ == Fault::MalformedRoomId(id@) || self@ == Fault::MalformedUserId(id@),
    {
        match self {
            StoreError::MalformedRoomId(id) => id,
            StoreError::MalformedUserId(id) => id,
        }
    }
}

/// What is wrong with a key: its room is looked at first, then its user.
pub open spec fn key_fault(key: KeyView) -> Option<Fault> {
    if key.room() is Some && !is_room_id(key.room()->0) {
        Some(Fault::MalformedRoomId(key.room()->0))
    } else if key.user() is Some && !is_user_id(key.user()->0) {
        Some(Fault::MalformedUserId(key.user()->0))
    } else {
        None
    }
}

/// What is wrong with the first write of `ops` that has a malformed key.
pub open spec fn first_fault(ops: Seq<OpView>) -> Option<Fault>
    decreases ops.len(),
{
    if ops.len() == 0 {
        None
    } else if key_fault(ops[0].key()) is Some {
        key_fault(ops[0].key())
    } else {
        first_fault(ops.drop_first())
    }
}

/// The rows after an attempt to commit `ops`: every write is made, in order,
/// unless one of them has a malformed key, in which case none is.
pub open spec fn committed(rows: Map<KeyView, ValueView>, ops: Seq<OpView>) -> Map<
    KeyView,
    ValueView,
> {
    if first_fault(ops) is None {
        run(rows, ops)
    } else {
        rows
    }
}

/// Checks the identifiers in one key.
pub fn check_key(key: &Key) -> (r: Result<(), StoreError>)
    ensures
        r is Ok <==> key_fault(key@) is None,
        r matches Err(e) ==> key_fault(key@) == Some(e@),
{
    if let Some(room) = key.room() {
        if !room_id_parses(room.as_str()) {
            return Err(StoreError::MalformedRoomId(room.clone()));
        }
    }
    if let Some(user) = key.user() {
        if !user_id_parses(user.as_str()) {
            return Err(StoreError::MalformedUserId(user.clone()));
        }
    }
    Ok(())
}

/// A sequence of writes has no fault exactly if none of its keys has one.
pub proof fn lemma_first_fault_none(ops: Seq<OpView>)
    ensures
        first_fault(ops) is None <==> forall|i: int|
            0 <= i < ops.len() ==> key_fault(#[trigger] ops[i].key()) is None,
    decreases ops.len(),
{
    if ops.len() > 0 {
        let rest = ops.drop_first();
        lemma_first_fault_none(rest);
        if first_fault(ops) is None {
            assert forall|i: int| 0 <= i < ops.len() implies key_fault(
                #[trigger] ops[i].key(),
            ) is None by {
                if i > 0 {
                    assert(ops[i] == rest[i - 1]);
                }
            }
        } else if key_fault(ops[0].key()) is None {
            let j = choose|j: int| 0 <= j < rest.len() && key_fault(#[trigger] rest[j].key()) is Some;
            assert(ops[j + 1] == rest[j]);
        }
    }
}

/// Checks the identifiers in every key of `ops`, in order.
pub fn check_ops(ops: &Vec<WriteOp>) -> (r: Result<(), StoreError>)
    ensures
        r is Ok <==> first_fault(views(ops@)) is None,
        r matches Err(e) ==> first_fault(views(ops@)) == Some(e@),
{
    let ghost all = views(ops@);
    let mut i: usize = 0;
    assert(all.skip(0) =~= all);
    while i < ops.len()
        invariant
            i <= ops.len(),
            all == views(ops@),
            first_fault(all) == first_fault(all.skip(i as int)),
        decreases ops.len() - i,
    {
        let key = match &ops[i] {
            WriteOp::Put { key, .. } => key,
            WriteOp::Delete { key } => key,
        };
        proof {
            let rest = all.skip(i as int);
            assert(rest[0] == ops@[i as int]@);
            assert(rest.drop_first() =~= all.skip(i + 1));
        }
        match check_key(key) {
            Ok(()) => {},
            Err(e) => {
                return Err(e);
            },
        }
        i += 1;
    }
    proof {
        assert(all.skip(i as int).len() == 0);
    }
    Ok(())
}

} // verus!
