use bridge_core::store::batch::{
    AccountDataChange, DisplayNameChange, MemberChange, Membership, PresenceChange, ProfileChange,
    ReceiptChange, RoomAccountDataChange, RoomInfoChange, StateChangeBatch, StrippedMemberChange,
    StrippedRoomInfoChange, StrippedStateChange, status_of,
};
use bridge_core::store::ids::{StoreError, check_key, check_ops};
use bridge_core::store::keys::{Key, MembershipStatus};
use bridge_core::store::ops::WriteOp;
use bridge_core::store::table::StateStore;
use bridge_core::store::values::Value;

const ROOM: &str = "!room:example.org";
const OTHER_ROOM: &str = "!other:example.org";
const ALICE: &str = "@alice:example.org";
const BOB: &str = "@bob:example.org";

fn member(room: &str, user: &str, membership: Membership, event: &str) -> MemberChange {
    MemberChange {
        room: room.to_owned(),
        user: user.to_owned(),
        membership,
        event: event.to_owned(),
    }
}

fn member_batch(room: &str, user: &str, membership: Membership, event: &str) -> StateChangeBatch {
    let mut batch = StateChangeBatch::new();
    batch.members.push(member(room, user, membership, event));
    batch
}

fn put(key: Key, value: Value) -> WriteOp {
    WriteOp::Put { key, value }
}

fn document(text: &str) -> Value {
    Value::Document(text.to_owned())
}

#[test]
fn empty_batch_plans_no_writes() {
    assert_eq!(StateChangeBatch::new().plan(), Vec::<WriteOp>::new());
}

#[test]
fn empty_batch_leaves_the_store_empty() {
    let mut store = StateStore::new();
    assert_eq!(store.apply(&StateChangeBatch::new()), Ok(()));
    assert_eq!(store.len(), 0);
}

#[test]
fn status_follows_the_membership() {
    assert_eq!(status_of(Membership::Join), Some(MembershipStatus::Joined));
    assert_eq!(status_of(Membership::Invite), Some(MembershipStatus::Invited));
    assert_eq!(status_of(Membership::Leave), None);
    assert_eq!(status_of(Membership::Ban), None);
    assert_eq!(status_of(Membership::Knock), None);
    assert_eq!(status_of(Membership::Custom), None);
}

#[test]
fn a_join_plans_the_status_then_the_record() {
    let batch = member_batch(ROOM, ALICE, Membership::Join, "{\"m\":\"join\"}");
    assert_eq!(
        batch.plan(),
        vec![
            put(
                Key::MemberStatus { room: ROOM.to_owned(), user: ALICE.to_owned() },
                Value::Status(MembershipStatus::Joined),
            ),
            put(
                Key::Member { room: ROOM.to_owned(), user: ALICE.to_owned() },
                document("{\"m\":\"join\"}"),
            ),
        ]
    );
}

#[test]
fn a_leave_plans_the_removal_of_the_status() {
    let batch = member_batch(ROOM, ALICE, Membership::Leave, "{\"m\":\"leave\"}");
    assert_eq!(
        batch.plan(),
        vec![
            WriteOp::Delete {
                key: Key::MemberStatus { room: ROOM.to_owned(), user: ALICE.to_owned() },
            },
            put(
                Key::Member { room: ROOM.to_owned(), user: ALICE.to_owned() },
                document("{\"m\":\"leave\"}"),
            ),
        ]
    );
}

fn full_batch() -> StateChangeBatch {
    let mut batch = StateChangeBatch::new();
    batch.receipts.push(ReceiptChange {
        room: ROOM.to_owned(),
        event_id: "$event".to_owned(),
        receipt_type: "m.read".to_owned(),
        user: ALICE.to_owned(),
        receipt: "receipt".to_owned(),
    });
    batch.stripped_state.push(StrippedStateChange {
        room: ROOM.to_owned(),
        event_type: "m.room.name".to_owned(),
        state_key: "".to_owned(),
        event: "name".to_owned(),
    });
    batch.stripped_members.push(StrippedMemberChange {
        room: ROOM.to_owned(),
        user: BOB.to_owned(),
        event: "stripped member".to_owned(),
    });
    batch.stripped_room_infos.push(StrippedRoomInfoChange {
        room: OTHER_ROOM.to_owned(),
        info: "stripped info".to_owned(),
    });
    batch.presence.push(PresenceChange { user: ALICE.to_owned(), event: "online".to_owned() });
    batch.room_infos.push(RoomInfoChange { room: ROOM.to_owned(), info: "info".to_owned() });
    batch.room_account_data.push(RoomAccountDataChange {
        room: ROOM.to_owned(),
        event_type: "m.fully_read".to_owned(),
        event: "fully read".to_owned(),
    });
    batch.account_data.push(AccountDataChange {
        event_type: "m.direct".to_owned(),
        event: "direct".to_owned(),
    });
    batch.ambiguity_maps.push(DisplayNameChange {
        room: ROOM.to_owned(),
        display_name: "Alice".to_owned(),
        user: ALICE.to_owned(),
    });
    batch.profiles.push(ProfileChange {
        room: ROOM.to_owned(),
        user: ALICE.to_owned(),
        profile: "profile".to_owned(),
    });
    batch.members.push(member(ROOM, ALICE, Membership::Invite, "invite"));
    batch.sync_token = Some("s1".to_owned());
    batch
}

#[test]
fn a_batch_is_planned_in_the_fixed_order() {
    let room = || ROOM.to_owned();
    let alice = || ALICE.to_owned();
    assert_eq!(
        full_batch().plan(),
        vec![
            put(Key::SyncToken, Value::Text("s1".to_owned())),
            put(
                Key::MemberStatus { room: room(), user: alice() },
                Value::Status(MembershipStatus::Invited),
            ),
            put(Key::Member { room: room(), user: alice() }, document("invite")),
            put(Key::Profile { room: room(), user: alice() }, document("profile")),
            put(
                Key::DisplayName { room: room(), user: alice(), name: "Alice".to_owned() },
                Value::Marker,
            ),
            put(Key::AccountData { event_type: "m.direct".to_owned() }, document("direct")),
            put(
                Key::RoomAccountData { room: room(), event_type: "m.fully_read".to_owned() },
                document("fully read"),
            ),
            put(
                Key::RoomInfo { room: room() },
                Value::RoomInfo { stripped: false, document: "info".to_owned() },
            ),
            put(Key::Presence { user: alice() }, document("online")),
            put(
                Key::RoomInfo { room: OTHER_ROOM.to_owned() },
                Value::RoomInfo { stripped: true, document: "stripped info".to_owned() },
            ),
            put(
                Key::StrippedMember { room: room(), user: BOB.to_owned() },
                document("stripped member"),
            ),
            put(
                Key::StrippedState {
                    room: room(),
                    event_type: "m.room.name".to_owned(),
                    state_key: "".to_owned(),
                },
                document("name"),
            ),
            put(
                Key::Receipt { room: room(), receipt_type: "m.read".to_owned(), user: alice() },
                Value::Receipt { event_id: "$event".to_owned(), document: "receipt".to_owned() },
            ),
        ]
    );
}

#[test]
fn groups_keep_the_order_of_the_batch() {
    let mut batch = StateChangeBatch::new();
    batch.profiles.push(ProfileChange {
        room: ROOM.to_owned(),
        user: BOB.to_owned(),
        profile: "b".to_owned(),
    });
    batch.profiles.push(ProfileChange {
        room: ROOM.to_owned(),
        user: ALICE.to_owned(),
        profile: "a".to_owned(),
    });
    assert_eq!(
        batch.plan(),
        vec![
            put(Key::Profile { room: ROOM.to_owned(), user: BOB.to_owned() }, document("b")),
            put(Key::Profile { room: ROOM.to_owned(), user: ALICE.to_owned() }, document("a")),
        ]
    );
}

#[test]
fn a_full_batch_is_read_back() {
    let mut store = StateStore::new();
    assert_eq!(store.apply(&full_batch()), Ok(()));
    assert_eq!(store.len(), 13);
    assert_eq!(store.get_sync_token(), Some("s1".to_owned()));
    assert_eq!(store.get_member_status(ROOM, ALICE), Some(MembershipStatus::Invited));
    assert_eq!(store.get_member_event(ROOM, ALICE), Some("invite".to_owned()));
    assert_eq!(store.get_profile(ROOM, ALICE), Some("profile".to_owned()));
    assert_eq!(store.get_users_with_display_name(ROOM, "Alice"), vec![ALICE.to_owned()]);
    assert_eq!(store.get_account_data_event("m.direct"), Some("direct".to_owned()));
    assert_eq!(
        store.get_room_account_data_event(ROOM, "m.fully_read"),
        Some("fully read".to_owned())
    );
    assert_eq!(store.get_room_infos(), vec!["info".to_owned()]);
    assert_eq!(store.get_stripped_room_infos(), vec!["stripped info".to_owned()]);
    assert_eq!(store.get_presence_event(ALICE), Some("online".to_owned()));
    assert_eq!(store.get_state_event(ROOM, "m.room.name", ""), Some("name".to_owned()));
    assert_eq!(store.get_state_events(ROOM, "m.room.name"), vec!["name".to_owned()]);
    assert_eq!(
        store.get_user_room_receipt_event(ROOM, "m.read", ALICE),
        Some(("$event".to_owned(), "receipt".to_owned()))
    );
    assert_eq!(
        store.get_event_room_receipt_events(ROOM, "m.read", "$event"),
        (vec![ALICE.to_owned()], vec!["receipt".to_owned()])
    );
}

#[test]
fn applying_a_batch_twice_is_applying_it_once() {
    let batch = member_batch(ROOM, ALICE, Membership::Join, "join");
    let mut once = StateStore::new();
    assert_eq!(once.apply(&batch), Ok(()));
    let mut twice = StateStore::new();
    assert_eq!(twice.apply(&batch), Ok(()));
    assert_eq!(twice.apply(&batch), Ok(()));
    assert_eq!(twice.entries(), once.entries());
    assert_eq!(twice.len(), 2);
    assert_eq!(twice.get_joined_user_ids(ROOM), vec![ALICE.to_owned()]);
    assert_eq!(twice.get_member_status(ROOM, ALICE), Some(MembershipStatus::Joined));
}

#[test]
fn applying_a_full_batch_twice_is_applying_it_once() {
    let mut once = StateStore::new();
    assert_eq!(once.apply(&full_batch()), Ok(()));
    let mut twice = StateStore::new();
    assert_eq!(twice.apply(&full_batch()), Ok(()));
    assert_eq!(twice.apply(&full_batch()), Ok(()));
    assert_eq!(twice.entries(), once.entries());
}

#[test]
fn a_malformed_room_id_rejects_the_whole_batch() {
    let mut store = StateStore::new();
    assert_eq!(store.apply(&member_batch(ROOM, ALICE, Membership::Join, "old")), Ok(()));
    let mut batch = StateChangeBatch::new();
    batch.sync_token = Some("s2".to_owned());
    batch.members.push(member(ROOM, ALICE, Membership::Leave, "new"));
    batch.profiles.push(ProfileChange {
        room: "not a room".to_owned(),
        user: ALICE.to_owned(),
        profile: "profile".to_owned(),
    });
    assert_eq!(store.apply(&batch), Err(StoreError::MalformedRoomId("not a room".to_owned())));
    assert_eq!(store.get_sync_token(), None);
    assert_eq!(store.get_member_status(ROOM, ALICE), Some(MembershipStatus::Joined));
    assert_eq!(store.get_member_event(ROOM, ALICE), Some("old".to_owned()));
    assert_eq!(store.len(), 2);
}

#[test]
fn a_malformed_user_id_rejects_the_whole_batch() {
    let mut store = StateStore::new();
    let mut batch = StateChangeBatch::new();
    batch.sync_token = Some("s1".to_owned());
    batch.presence.push(PresenceChange { user: "alice".to_owned(), event: "e".to_owned() });
    assert_eq!(store.apply(&batch), Err(StoreError::MalformedUserId("alice".to_owned())));
    assert_eq!(store.len(), 0);
    assert_eq!(store.get_sync_token(), None);
}

#[test]
fn the_first_malformed_identifier_is_reported() {
    let mut batch = StateChangeBatch::new();
    batch.profiles.push(ProfileChange {
        room: "#alias:example.org".to_owned(),
        user: "bob".to_owned(),
        profile: "p".to_owned(),
    });
    batch.members.push(member(ROOM, "carol", Membership::Join, "e"));
    let mut store = StateStore::new();
    assert_eq!(store.apply(&batch), Err(StoreError::MalformedUserId("carol".to_owned())));
    assert_eq!(
        check_ops(&batch.plan()),
        Err(StoreError::MalformedUserId("carol".to_owned()))
    );
}

#[test]
fn a_key_is_checked_room_first() {
    let key = Key::Profile { room: "room".to_owned(), user: "user".to_owned() };
    assert_eq!(check_key(&key), Err(StoreError::MalformedRoomId("room".to_owned())));
    let key = Key::Profile { room: ROOM.to_owned(), user: "user".to_owned() };
    assert_eq!(check_key(&key), Err(StoreError::MalformedUserId("user".to_owned())));
    let key = Key::Profile { room: ROOM.to_owned(), user: ALICE.to_owned() };
    assert_eq!(check_key(&key), Ok(()));
    assert_eq!(check_key(&Key::SyncToken), Ok(()));
    assert_eq!(check_key(&Key::Filter { name: "anything goes".to_owned() }), Ok(()));
}

#[test]
fn the_refused_identifier_is_handed_out() {
    let error = StoreError::MalformedRoomId("room".to_owned());
    assert_eq!(error.identifier(), "room");
    let error = StoreError::MalformedUserId("user".to_owned());
    assert_eq!(error.identifier(), "user");
}

#[test]
fn identifiers_need_their_sigil_and_a_server() {
    for bad in ["", "room:example.org", "!room", "@alice:example.org", "!room:exa mple.org"] {
        let key = Key::RoomInfo { room: bad.to_owned() };
        assert_eq!(check_key(&key), Err(StoreError::MalformedRoomId(bad.to_owned())));
    }
    for bad in ["", "alice:example.org", "@alice", "!room:example.org"] {
        let key = Key::Presence { user: bad.to_owned() };
        assert_eq!(check_key(&key), Err(StoreError::MalformedUserId(bad.to_owned())));
    }
    assert_eq!(check_key(&Key::RoomInfo { room: "!r:example.org:8448".to_owned() }), Ok(()));
    assert_eq!(check_key(&Key::Presence { user: "@a:[::1]".to_owned() }), Ok(()));
}

#[test]
fn join_invite_leave_ends_without_status() {
    let mut store = StateStore::new();
    assert_eq!(store.apply(&member_batch(ROOM, ALICE, Membership::Join, "join")), Ok(()));
    assert_eq!(store.get_member_status(ROOM, ALICE), Some(MembershipStatus::Joined));
    assert_eq!(store.apply(&member_batch(ROOM, ALICE, Membership::Invite, "invite")), Ok(()));
    assert_eq!(store.get_member_status(ROOM, ALICE), Some(MembershipStatus::Invited));
    assert_eq!(store.apply(&member_batch(ROOM, ALICE, Membership::Leave, "leave")), Ok(()));
    assert_eq!(store.get_member_status(ROOM, ALICE), None);
    assert_eq!(store.get_user_ids(ROOM), Vec::<String>::new());
    assert_eq!(store.get_joined_user_ids(ROOM), Vec::<String>::new());
    assert_eq!(store.get_invited_user_ids(ROOM), Vec::<String>::new());
    assert_eq!(store.get_member_event(ROOM, ALICE), Some("leave".to_owned()));
}

#[test]
fn join_invite_leave_in_one_batch_ends_without_status() {
    let mut batch = StateChangeBatch::new();
    batch.members.push(member(ROOM, ALICE, Membership::Join, "join"));
    batch.members.push(member(ROOM, ALICE, Membership::Invite, "invite"));
    batch.members.push(member(ROOM, ALICE, Membership::Leave, "leave"));
    let mut store = StateStore::new();
    assert_eq!(store.apply(&batch), Ok(()));
    assert_eq!(store.get_member_status(ROOM, ALICE), None);
    assert_eq!(store.get_member_event(ROOM, ALICE), Some("leave".to_owned()));
    assert_eq!(store.len(), 1);
}

#[test]
fn the_last_cursor_wins() {
    let mut store = StateStore::new();
    let mut batch = StateChangeBatch::new();
    batch.sync_token = Some("s1".to_owned());
    assert_eq!(store.apply(&batch), Ok(()));
    batch.sync_token = Some("s2".to_owned());
    assert_eq!(store.apply(&batch), Ok(()));
    assert_eq!(store.apply(&StateChangeBatch::new()), Ok(()));
    assert_eq!(store.get_sync_token(), Some("s2".to_owned()));
    assert_eq!(store.len(), 1);
}

#[test]
fn stripped_room_info_replaces_room_info() {
    let mut batch = StateChangeBatch::new();
    batch.room_infos.push(RoomInfoChange { room: ROOM.to_owned(), info: "full".to_owned() });
    batch.stripped_room_infos.push(StrippedRoomInfoChange {
        room: ROOM.to_owned(),
        info: "stripped".to_owned(),
    });
    let mut store = StateStore::new();
    assert_eq!(store.apply(&batch), Ok(()));
    assert_eq!(store.get_room_infos(), Vec::<String>::new());
    assert_eq!(store.get_stripped_room_infos(), vec!["stripped".to_owned()]);
}
