//! What holds of the store whatever it holds and whatever is written to it.
use vstd::prelude::*;
use crate::store::batch::{
    Change, MemberChange, StateChangeBatch, coarse_status, cursor_writes, writes_of,
};
use crate::store::ids::{committed, first_fault, key_fault, lemma_first_fault_none};
use crate::store::keys::KeyView;
use crate::store::ops::{
    OpView, last_write, lemma_run_concat, lemma_run_idempotent, lemma_run_lookup, lookup, run,
};
use crate::store::reads::registration_writes;
use crate::store::values::ValueView;

verus! {

/// Committing the same writes twice leaves the rows that committing them once
/// leaves.
pub proof fn lemma_commit_is_idempotent(rows: Map<KeyView, ValueView>, ops: Seq<OpView>)
    ensures
        committed(committed(rows, ops), ops) == committed(rows, ops),
{
    lemma_run_idempotent(rows, ops);
}

/// Applying the same batch twice leaves the rows that applying it once leaves.
pub proof fn lemma_apply_is_idempotent(rows: Map<KeyView, ValueView>, batch: StateChangeBatch)
    ensures
        committed(committed(rows, batch.writes()), batch.writes()) == committed(
            rows,
            batch.writes(),
        ),
{
    lemma_commit_is_idempotent(rows, batch.writes());
}

/// Where any one write of a commit has a malformed key, no write of it is
/// made: every row is as it was before.
pub proof fn lemma_commit_is_atomic(rows: Map<KeyView, ValueView>, ops: Seq<OpView>, i: int)
    requires
        0 <= i < ops.len(),
        key_fault(ops[i].key()) is Some,
    ensures
        committed(rows, ops) == rows,
{
    lemma_first_fault_none(ops);
}

/// A commit either makes every write or none.
pub proof fn lemma_commit_all_or_nothing(rows: Map<KeyView, ValueView>, ops: Seq<OpView>)
    ensures
        committed(rows, ops) == run(rows, ops) || committed(rows, ops) == rows,
{
}

/// After a member event the coarse status of its user in its room is the one
/// that the event's membership stands for, with no status row where it stands
/// for none, and the member record is the event, whatever the rows held
/// before.
pub proof fn lemma_member_event_decides_status(rows: Map<KeyView, ValueView>, change: MemberChange)
    ensures
        lookup(
            run(rows, change.writes()),
            KeyView::MemberStatus { room: change.room@, user: change.user@ },
        ) == match coarse_status(change.membership) {
            Some(status) => Some(ValueView::Status(status)),
            None => None,
        },
        lookup(
            run(rows, change.writes()),
            KeyView::Member { room: change.room@, user: change.user@ },
        ) == Some(ValueView::Document(change.event@)),
{
    let writes = change.writes();
    assert(writes.len() == 2);
    assert(writes.drop_last().len() == 1);
    assert(writes.drop_last().drop_last().len() == 0);
    reveal_with_fuel(run, 3);
}

/// After a sequence of member events of one user in one room, the coarse
/// status is the one that the last event's membership stands for, and the
/// member record is the last event.
pub proof fn lemma_last_member_event_decides_status(
    rows: Map<KeyView, ValueView>,
    events: Seq<MemberChange>,
    room: Seq<char>,
    user: Seq<char>,
)
    requires
        events.len() > 0,
        forall|i: int| 0 <= i < events.len() ==> (#[trigger] events[i]).room@ == room && events[i].user@
            == user,
    ensures
        lookup(run(rows, writes_of(events)), KeyView::MemberStatus { room, user }) == match coarse_status(
            events.last().membership,
        ) {
            Some(status) => Some(ValueView::Status(status)),
            None => None,
        },
        lookup(run(rows, writes_of(events)), KeyView::Member { room, user }) == Some(
            ValueView::Document(events.last().event@),
        ),
{
    lemma_run_concat(rows, writes_of(events.drop_last()), events.last().writes());
    lemma_member_event_decides_status(run(rows, writes_of(events.drop_last())), events.last());
}

/// Registering a home user a second time replaces the first mapping: the
/// user is left with the second token and room, and every other row is as it
/// was.
pub proof fn lemma_registration_replaces(
    rows: Map<KeyView, ValueView>,
    user: Seq<char>,
    first_room: Seq<char>,
    first_token: Seq<char>,
    second_room: Seq<char>,
    second_token: Seq<char>,
)
    ensures
        run(
            run(rows, registration_writes(user, first_room, first_token)),
            registration_writes(user, second_room, second_token),
        ) == rows.insert(
            KeyView::PuppetMapping { user },
            ValueView::Mapping { token: second_token, room: second_room },
        ),
{
    let first = registration_writes(user, first_room, first_token);
    let second = registration_writes(user, second_room, second_token);
    assert(first.drop_last().len() == 1);
    assert(first.drop_last().drop_last().len() == 0);
    assert(second.drop_last().len() == 1);
    assert(second.drop_last().drop_last().len() == 0);
    reveal_with_fuel(run, 3);
    assert(run(run(rows, first), second) =~= rows.insert(
        KeyView::PuppetMapping { user },
        ValueView::Mapping { token: second_token, room: second_room },
    ));
}

/// The last write of two sequences to a key is the last write of the second,
/// if it has one, and else that of the first.
pub proof fn lemma_last_write_concat(a: Seq<OpView>, b: Seq<OpView>, key: KeyView)
    ensures
        last_write(a + b, key) == match last_write(b, key) {
            Some(outcome) => Some(outcome),
            None => last_write(a, key),
        },
    decreases b.len(),
{
    if b.len() == 0 {
        assert(a + b =~= a);
    } else {
        lemma_last_write_concat(a, b.drop_last(), key);
        assert((a + b).drop_last() =~= a + b.drop_last());
        assert((a + b).last() == b.last());
    }
}

/// The key is written by none of the writes.
pub open spec fn untouched(writes: Seq<OpView>, key: KeyView) -> bool {
    forall|i: int| 0 <= i < writes.len() ==> (#[trigger] writes[i]).key() != key
}

/// Writes that do not touch a key have no last write to it.
pub proof fn lemma_untouched(writes: Seq<OpView>, key: KeyView)
    requires
        untouched(writes, key),
    ensures
        last_write(writes, key) is None,
    decreases writes.len(),
{
    if writes.len() > 0 {
        let front = writes.drop_last();
        assert forall|i: int| 0 <= i < front.len() implies (#[trigger] front[i]).key() != key by {
            assert(front[i] == writes[i]);
        }
        lemma_untouched(front, key);
    }
}

/// Changes none of which writes to a key have no last write to it.
pub proof fn lemma_changes_untouched<C: Change>(changes: Seq<C>, key: KeyView)
    requires
        forall|i: int| 0 <= i < changes.len() ==> untouched((#[trigger] changes[i]).writes(), key),
    ensures
        last_write(writes_of(changes), key) is None,
    decreases changes.len(),
{
    if changes.len() > 0 {
        let front = changes.drop_last();
        assert forall|i: int| 0 <= i < front.len() implies untouched(
            (#[trigger] front[i]).writes(),
            key,
        ) by {
            assert(front[i] == changes[i]);
        }
        lemma_changes_untouched(front, key);
        lemma_untouched(changes.last().writes(), key);
        lemma_last_write_concat(writes_of(front), changes.last().writes(), key);
    }
}

/// The last member event of the user in the room, if the events hold one.
pub open spec fn last_member_event(events: Seq<MemberChange>, room: Seq<char>, user: Seq<char>) -> Option<
    MemberChange,
>
    decreases events.len(),
{
    if events.len() == 0 {
        None
    } else if events.last().room@ == room && events.last().user@ == user {
        Some(events.last())
    } else {
        last_member_event(events.drop_last(), room, user)
    }
}

/// The status row that a membership leaves: none where it stands for no
/// coarse status.
pub open spec fn status_row(change: MemberChange) -> Option<ValueView> {
    match coarse_status(change.membership) {
        Some(status) => Some(ValueView::Status(status)),
        None => None,
    }
}

/// The last writes of member events to the status and the record of a user in
/// a room are those of the last member event of that user in that room.
pub proof fn lemma_member_writes(events: Seq<MemberChange>, room: Seq<char>, user: Seq<char>)
    ensures
        last_write(writes_of(events), KeyView::MemberStatus { room, user }) == match last_member_event(
            events,
            room,
            user,
        ) {
            Some(change) => Some(status_row(change)),
            None => None,
        },
        last_write(writes_of(events), KeyView::Member { room, user }) == match last_member_event(
            events,
            room,
            user,
        ) {
            Some(change) => Some(Some(ValueView::Document(change.event@))),
            None => None,
        },
    decreases events.len(),
{
    if events.len() > 0 {
        let front = events.drop_last();
        let last = events.last();
        lemma_member_writes(front, room, user);
        let writes = last.writes();
        assert(writes.len() == 2);
        assert(writes.drop_last().len() == 1);
        assert(writes.drop_last().drop_last().len() == 0);
        reveal_with_fuel(last_write, 3);
        lemma_last_write_concat(writes_of(front), writes, KeyView::MemberStatus { room, user });
        lemma_last_write_concat(writes_of(front), writes, KeyView::Member { room, user });
    }
}

/// Of the writes of a batch, only those of its member events touch the
/// status or the record of a member.
pub proof fn lemma_batch_member_writes(batch: StateChangeBatch, key: KeyView)
    requires
        key is MemberStatus || key is Member,
    ensures
        last_write(batch.writes(), key) == last_write(writes_of(batch.members@), key),
{
    let cursor = cursor_writes(batch.sync_token);
    let members = writes_of(batch.members@);
    lemma_untouched(cursor, key);
    lemma_last_write_concat(cursor, members, key);
    let s1 = cursor + members;
    lemma_changes_untouched(batch.profiles@, key);
    lemma_last_write_concat(s1, writes_of(batch.profiles@), key);
    let s2 = s1 + writes_of(batch.profiles@);
    lemma_changes_untouched(batch.ambiguity_maps@, key);
    lemma_last_write_concat(s2, writes_of(batch.ambiguity_maps@), key);
    let s3 = s2 + writes_of(batch.ambiguity_maps@);
    lemma_changes_untouched(batch.account_data@, key);
    lemma_last_write_concat(s3, writes_of(batch.account_data@), key);
    let s4 = s3 + writes_of(batch.account_data@);
    lemma_changes_untouched(batch.room_account_data@, key);
    lemma_last_write_concat(s4, writes_of(batch.room_account_data@), key);
    let s5 = s4 + writes_of(batch.room_account_data@);
    lemma_changes_untouched(batch.room_infos@, key);
    lemma_last_write_concat(s5, writes_of(batch.room_infos@), key);
    let s6 = s5 + writes_of(batch.room_infos@);
    lemma_changes_untouched(batch.presence@, key);
    lemma_last_write_concat(s6, writes_of(batch.presence@), key);
    let s7 = s6 + writes_of(batch.presence@);
    lemma_changes_untouched(batch.stripped_room_infos@, key);
    lemma_last_write_concat(s7, writes_of(batch.stripped_room_infos@), key);
    let s8 = s7 + writes_of(batch.stripped_room_infos@);
    lemma_changes_untouched(batch.stripped_members@, key);
    lemma_last_write_concat(s8, writes_of(batch.stripped_members@), key);
    let s9 = s8 + writes_of(batch.stripped_members@);
    lemma_changes_untouched(batch.stripped_state@, key);
    lemma_last_write_concat(s9, writes_of(batch.stripped_state@), key);
    let s10 = s9 + writes_of(batch.stripped_state@);
    lemma_changes_untouched(batch.receipts@, key);
    lemma_last_write_concat(s10, writes_of(batch.receipts@), key);
}

/// After a batch is applied, the coarse status of a user in a room is the one
/// that the last member event of the batch for that user in that room stands
/// for, with no status row where it stands for none, and the member record is
/// that event; where the batch holds no such event both are as they were.
pub proof fn lemma_batch_decides_status(
    rows: Map<KeyView, ValueView>,
    batch: StateChangeBatch,
    room: Seq<char>,
    user: Seq<char>,
)
    requires
        first_fault(batch.writes()) is None,
    ensures
        lookup(committed(rows, batch.writes()), KeyView::MemberStatus { room, user })
            == match last_member_event(batch.members@, room, user) {
            Some(change) => status_row(change),
            None => lookup(rows, KeyView::MemberStatus { room, user }),
        },
        lookup(committed(rows, batch.writes()), KeyView::Member { room, user })
            == match last_member_event(batch.members@, room, user) {
            Some(change) => Some(ValueView::Document(change.event@)),
            None => lookup(rows, KeyView::Member { room, user }),
        },
{
    lemma_batch_member_writes(batch, KeyView::MemberStatus { room, user });
    lemma_batch_member_writes(batch, KeyView::Member { room, user });
    lemma_member_writes(batch.members@, room, user);
    lemma_run_lookup(rows, batch.writes(), KeyView::MemberStatus { room, user });
    lemma_run_lookup(rows, batch.writes(), KeyView::Member { room, user });
}

} // verus!
