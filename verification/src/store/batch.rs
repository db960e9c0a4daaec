//! The changes of one sync cycle, and the writes that persist them.
use vstd::prelude::*;
use crate::store::keys::{Key, KeyView, MembershipStatus};
use crate::store::ops::{OpView, WriteOp, views};
use crate::store::values::{Value, ValueView};

verus! {

/// The membership that a member event states.
#[derive(Clone, Copy, Debug, PartialEq, Eq, Structural)]
pub enum Membership {
    Ban,
    Invite,
    Join,
    Knock,
    Leave,
    /// A membership that the protocol does not name.
    Custom,
}

/// The coarse status that a membership stands for: none where the user is
/// neither joined nor invited.
pub open spec fn coarse_status(membership: Membership) -> Option<MembershipStatus> {
    match membership {
        Membership::Join => Some(MembershipStatus::Joined),
        Membership::Invite => Some(MembershipStatus::Invited),
        _ => None,
    }
}

/// The coarse status that a membership stands for.
pub fn status_of(membership: Membership) -> (status: Option<MembershipStatus>)
    ensures
        status == coarse_status(membership),
{
    match membership {
        Membership::Join => Some(MembershipStatus::Joined),
        Membership::Invite => Some(MembershipStatus::Invited),
        _ => None,
    }
}

/// A change that a batch carries, and the writes that persist it.
pub trait Change {
    /// The writes that persist the change, in order.
    spec fn writes(&self) -> Seq<OpView>;

    /// Appends the writes that persist the change.
    fn emit(&self, out: &mut Vec<WriteOp>)
        ensures
            views(final(out)@) == views(old(out)@) + self.writes(),
    ;
}

/// The writes that persist a sequence of changes, in order.
pub open spec fn writes_of<C: Change>(changes: Seq<C>) -> Seq<OpView>
    decreases changes.len(),
{
    if changes.len() == 0 {
        Seq::empty()
    } else {
        writes_of(changes.drop_last()) + changes.last().writes()
    }
}

/// The write that stores `value` under `key`.
pub open spec fn put(key: KeyView, value: ValueView) -> Seq<OpView> {
    seq![OpView::Put { key, value }]
}

/// Appends one upsert.
fn emit_put(out: &mut Vec<WriteOp>, key: Key, value: Value)
    ensures
        views(final(out)@) == views(old(out)@) + put(key@, value@),
{
    out.push(WriteOp::Put { key, value });
    assert(views(out@) =~= views(old(out)@) + put(key@, value@));
}

/// Appends one removal.
fn emit_delete(out: &mut Vec<WriteOp>, key: Key)
    ensures
        views(final(out)@) == views(old(out)@) + seq![OpView::Delete { key: key@ }],
{
    out.push(WriteOp::Delete { key });
    assert(views(out@) =~= views(old(out)@) + seq![OpView::Delete { key: key@ }]);
}

/// Appends the writes of every change, in order.
fn emit_all<C: Change>(changes: &Vec<C>, out: &mut Vec<WriteOp>)
    ensures
        views(final(out)@) == views(old(out)@) + writes_of(changes@),
{
    let mut i: usize = 0;
    assert(changes@.take(0) =~= Seq::<C>::empty());
    assert(views(out@) =~= views(old(out)@) + writes_of(changes@.take(0)));
    while i < changes.len()
        invariant
            i <= changes.len(),
            views(out@) == views(old(out)@) + writes_of(changes@.take(i as int)),
        decreases changes.len() - i,
    {
        let ghost before = views(out@);
        changes[i].emit(out);
        proof {
            let upto = changes@.take(i + 1);
            assert(upto.drop_last() =~= changes@.take(i as int));
            assert(upto.last() == changes@[i as int]);
            assert(views(out@) =~= views(old(out)@) + writes_of(upto));
        }
        i += 1;
    }
    assert(changes@.take(i as int) =~= changes@);
}

/// A member event of a room.
#[derive(Debug, PartialEq, Eq)]
pub struct MemberChange {
    pub room: String,
    pub user: String,
    pub membership: Membership,
    /// The serialized event.
    pub event: String,
}

impl Change for MemberChange {
    /// The coarse status row is set for a join or an invitation and removed
    /// for every other membership; the event itself is stored in any case.
    open spec fn writes(&self) -> Seq<OpView> {
        let status = KeyView::MemberStatus { room: self.room@, user: self.user@ };
        let record = put(
            KeyView::Member { room: self.room@, user: self.user@ },
            ValueView::Document(self.event@),
        );
        match coarse_status(self.membership) {
            Some(s) => put(status, ValueView::Status(s)) + record,
            None => seq![OpView::Delete { key: status }] + record,
        }
    }

    fn emit(&self, out: &mut Vec<WriteOp>) {
        let status = Key::MemberStatus { room: self.room.clone(), user: self.user.clone() };
        match status_of(self.membership) {
            Some(s) => emit_put(out, status, Value::Status(s)),
            None => emit_delete(out, status),
        }
        emit_put(
            out,
            Key::Member { room: self.room.clone(), user: self.user.clone() },
            Value::Document(self.event.clone()),
        );
        assert(views(out@) =~= views(old(out)@) + self.writes());
    }
}

/// The profile of a user in a room.
#[derive(Debug, PartialEq, Eq)]
pub struct ProfileChange {
    pub room: String,
    pub user: String,
    /// The serialized profile.
    pub profile: String,
}

impl Change for ProfileChange {
    open spec fn writes(&self) -> Seq<OpView> {
        put(
            KeyView::Profile { room: self.room@, user: self.user@ },
            ValueView::Document(self.profile@),
        )
    }

    fn emit(&self, out: &mut Vec<WriteOp>) {
        emit_put(
            out,
            Key::Profile { room: self.room.clone(), user: self.user.clone() },
            Value::Document(self.profile.clone()),
        );
    }
}

/// A display name that a user of a room goes by.
#[derive(Debug, PartialEq, Eq)]
pub struct DisplayNameChange {
    pub room: String,
    pub display_name: String,
    pub user: String,
}

impl Change for DisplayNameChange {
    open spec fn writes(&self) -> Seq<OpView> {
        put(
            KeyView::DisplayName { room: self.room@, user: self.user@, name: self.display_name@ },
            ValueView::Marker,
        )
    }

    fn emit(&self, out: &mut Vec<WriteOp>) {
        emit_put(
            out,
            Key::DisplayName {
                room: self.room.clone(),
                user: self.user.clone(),
                name: self.display_name.clone(),
            },
            Value::Marker,
        );
    }
}

/// A global account data event.
#[derive(Debug, PartialEq, Eq)]
pub struct AccountDataChange {
    pub event_type: String,
    /// The serialized event.
    pub event: String,
}

impl Change for AccountDataChange {
    open spec fn writes(&self) -> Seq<OpView> {
        put(KeyView::AccountData { event_type: self.event_type@ }, ValueView::Document(self.event@))
    }

    fn emit(&self, out: &mut Vec<WriteOp>) {
        emit_put(
            out,
            Key::AccountData { event_type: self.event_type.clone() },
            Value::Document(self.event.clone()),
        );
    }
}

/// An account data event of one room.
#[derive(Debug, PartialEq, Eq)]
pub struct RoomAccountDataChange {
    pub room: String,
    pub event_type: String,
    /// The serialized event.
    pub event: String,
}

impl Change for RoomAccountDataChange {
    open spec fn writes(&self) -> Seq<OpView> {
        put(
            KeyView::RoomAccountData { room: self.room@, event_type: self.event_type@ },
            ValueView::Document(self.event@),
        )
    }

    fn emit(&self, out: &mut Vec<WriteOp>) {
        emit_put(
            out,
            Key::RoomAccountData { room: self.room.clone(), event_type: self.event_type.clone() },
            Value::Document(self.event.clone()),
        );
    }
}

/// The metadata of a room.
#[derive(Debug, PartialEq, Eq)]
pub struct RoomInfoChange {
    pub room: String,
    /// The serialized metadata.
    pub info: String,
}

impl Change for RoomInfoChange {
    open spec fn writes(&self) -> Seq<OpView> {
        put(
            KeyView::RoomInfo { room: self.room@ },
            ValueView::RoomInfo { stripped: false, document: self.info@ },
        )
    }

    fn emit(&self, out: &mut Vec<WriteOp>) {
        emit_put(
            out,
            Key::RoomInfo { room: self.room.clone() },
            Value::RoomInfo { stripped: false, document: self.info.clone() },
        );
    }
}

/// The presence of a user.
#[derive(Debug, PartialEq, Eq)]
pub struct PresenceChange {
    pub user: String,
    /// The serialized event.
    pub event: String,
}

impl Change for PresenceChange {
    open spec fn writes(&self) -> Seq<OpView> {
        put(KeyView::Presence { user: self.user@ }, ValueView::Document(self.event@))
    }

    fn emit(&self, out: &mut Vec<WriteOp>) {
        emit_put(
            out,
            Key::Presence { user: self.user.clone() },
            Value::Document(self.event.clone()),
        );
    }
}

/// The pre-join metadata of a room. It is kept in the rows of the room
/// metadata, where it takes the place of what was there.
#[derive(Debug, PartialEq, Eq)]
pub struct StrippedRoomInfoChange {
    pub room: String,
    /// The serialized metadata.
    pub info: String,
}

impl Change for StrippedRoomInfoChange {
    open spec fn writes(&self) -> Seq<OpView> {
        put(
            KeyView::RoomInfo { room: self.room@ },
            ValueView::RoomInfo { stripped: true, document: self.info@ },
        )
    }

    fn emit(&self, out: &mut Vec<WriteOp>) {
        emit_put(
            out,
            Key::RoomInfo { room: self.room.clone() },
            Value::RoomInfo { stripped: true, document: self.info.clone() },
        );
    }
}

/// A pre-join member event of a room.
#[derive(Debug, PartialEq, Eq)]
pub struct StrippedMemberChange {
    pub room: String,
    pub user: String,
    /// The serialized event.
    pub event: String,
}

impl Change for StrippedMemberChange {
    open spec fn writes(&self) -> Seq<OpView> {
        put(
            KeyView::StrippedMember { room: self.room@, user: self.user@ },
            ValueView::Document(self.event@),
        )
    }

    fn emit(&self, out: &mut Vec<WriteOp>) {
        emit_put(
            out,
            Key::StrippedMember { room: self.room.clone(), user: self.user.clone() },
            Value::Document(self.event.clone()),
        );
    }
}

/// A pre-join state event of a room.
#[derive(Debug, PartialEq, Eq)]
pub struct StrippedStateChange {
    pub room: String,
    pub event_type: String,
    pub state_key: String,
    /// The serialized event.
    pub event: String,
}

impl Change for StrippedStateChange {
    open spec fn writes(&self) -> Seq<OpView> {
        put(
            KeyView::StrippedState {
                room: self.room@,
                event_type: self.event_type@,
                state_key: self.state_key@,
            },
            ValueView::Document(self.event@),
        )
    }

    fn emit(&self, out: &mut Vec<WriteOp>) {
        emit_put(
            out,
            Key::StrippedState {
                room: self.room.clone(),
                event_type: self.event_type.clone(),
                state_key: self.state_key.clone(),
            },
            Value::Document(self.event.clone()),
        );
    }
}

/// A receipt of a user for an event of a room.
#[derive(Debug, PartialEq, Eq)]
pub struct ReceiptChange {
    pub room: String,
    pub event_id: String,
    pub receipt_type: String,
    pub user: String,
    /// The serialized receipt.
    pub receipt: String,
}

impl Change for ReceiptChange {
    open spec fn writes(&self) -> Seq<OpView> {
        put(
            KeyView::Receipt {
                room: self.room@,
                receipt_type: self.receipt_type@,
                user: self.user@,
            },
            ValueView::Receipt { event_id: self.event_id@, document: self.receipt@ },
        )
    }

    fn emit(&self, out: &mut Vec<WriteOp>) {
        emit_put(
            out,
            Key::Receipt {
                room: self.room.clone(),
                receipt_type: self.receipt_type.clone(),
                user: self.user.clone(),
            },
            Value::Receipt { event_id: self.event_id.clone(), document: self.receipt.clone() },
        );
    }
}

/// The write that stores a new sync cursor, if the batch brings one.
pub open spec fn cursor_writes(sync_token: Option<String>) -> Seq<OpView> {
    match sync_token {
        Some(token) => put(KeyView::SyncToken, ValueView::Text(token@)),
        None => Seq::empty(),
    }
}

/// What one sync cycle changes. It is persisted in full or not at all.
#[derive(Debug, PartialEq, Eq)]
pub struct StateChangeBatch {
    pub sync_token: Option<String>,
    pub members: Vec<MemberChange>,
    pub profiles: Vec<ProfileChange>,
    pub ambiguity_maps: Vec<DisplayNameChange>,
    pub account_data: Vec<AccountDataChange>,
    pub room_account_data: Vec<RoomAccountDataChange>,
    pub room_infos: Vec<RoomInfoChange>,
    pub presence: Vec<PresenceChange>,
    pub stripped_room_infos: Vec<StrippedRoomInfoChange>,
    pub stripped_members: Vec<StrippedMemberChange>,
    pub stripped_state: Vec<StrippedStateChange>,
    pub receipts: Vec<ReceiptChange>,
}

impl StateChangeBatch {
    /// The writes that persist the batch: the cursor first, then memberships,
    /// profiles, display names, account data, room account data, room
    /// metadata, presence, pre-join room metadata, pre-join members, pre-join
    /// state and receipts, each group in the order in which the batch lists it.
    pub open spec fn writes(&self) -> Seq<OpView> {
        cursor_writes(self.sync_token) + writes_of(self.members@) + writes_of(self.profiles@)
            + writes_of(self.ambiguity_maps@) + writes_of(self.account_data@) + writes_of(
            self.room_account_data@,
        ) + writes_of(self.room_infos@) + writes_of(self.presence@) + writes_of(
            self.stripped_room_infos@,
        ) + writes_of(self.stripped_members@) + writes_of(self.stripped_state@) + writes_of(
            self.receipts@,
        )
    }

    /// A batch that changes nothing: it brings no cursor, every group of
    /// changes is empty, and so it asks for no write.
    pub fn new() -> (batch: StateChangeBatch)
        ensures
            batch.sync_token is None,
            batch.members@.len() == 0,
            batch.profiles@.len() == 0,
            batch.ambiguity_maps@.len() == 0,
            batch.account_data@.len() == 0,
            batch.room_account_data@.len() == 0,
            batch.room_infos@.len() == 0,
            batch.presence@.len() == 0,
            batch.stripped_room_infos@.len() == 0,
            batch.stripped_members@.len() == 0,
            batch.stripped_state@.len() == 0,
            batch.receipts@.len() == 0,
            batch.writes() == Seq::<OpView>::empty(),
    {
        let batch = StateChangeBatch {
            sync_token: None,
            members: Vec::new(),
            profiles: Vec::new(),
            ambiguity_maps: Vec::new(),
            account_data: Vec::new(),
            room_account_data: Vec::new(),
            room_infos: Vec::new(),
            presence: Vec::new(),
            stripped_room_infos: Vec::new(),
            stripped_members: Vec::new(),
            stripped_state: Vec::new(),
            receipts: Vec::new(),
        };
        assert(batch.writes() =~= Seq::<OpView>::empty());
        batch
    }

    /// The writes that persist the batch, in the order in which they are made.
    pub fn plan(&self) -> (ops: Vec<WriteOp>)
        ensures
            views(ops@) == self.writes(),
    {
        let mut ops: Vec<WriteOp> = Vec::new();
        assert(views(ops@) =~= Seq::<OpView>::empty());
        match &self.sync_token {
            Some(token) => emit_put(&mut ops, Key::SyncToken, Value::Text(token.clone())),
            None => {},
        }
        assert(views(ops@) =~= cursor_writes(self.sync_token));
        emit_all(&self.members, &mut ops);
        emit_all(&self.profiles, &mut ops);
        emit_all(&self.ambiguity_maps, &mut ops);
        emit_all(&self.account_data, &mut ops);
        emit_all(&self.room_account_data, &mut ops);
        emit_all(&self.room_infos, &mut ops);
        emit_all(&self.presence, &mut ops);
        emit_all(&self.stripped_room_infos, &mut ops);
        emit_all(&self.stripped_members, &mut ops);
        emit_all(&self.stripped_state, &mut ops);
        emit_all(&self.receipts, &mut ops);
        ops
    }
}

} // verus!
