use bridge_core::store::batch::{
    DisplayNameChange, MemberChange, Membership, ReceiptChange, StateChangeBatch,
    StrippedStateChange,
};
use bridge_core::store::ids::StoreError;
use bridge_core::store::keys::{CustomKey, Key, MembershipStatus};
use bridge_core::store::ops::WriteOp;
use bridge_core::store::query::Selector;
use bridge_core::store::table::{Row, StateStore};
use bridge_core::store::values::Value;

const ROOM: &str = "!room:example.org";
const OTHER_ROOM: &str = "!other:example.org";
const ALICE: &str = "@alice:example.org";
const BOB: &str = "@bob:example.org";
const CAROL: &str = "@carol:example.org";

fn sorted(mut items: Vec<String>) -> Vec<String> {
    items.sort();
    items
}

fn members() -> StateStore {
    let mut batch = StateChangeBatch::new();
    for (room, user, membership) in [
        (ROOM, ALICE, Membership::Join),
        (ROOM, BOB, Membership::Invite),
        (ROOM, CAROL, Membership::Ban),
        (OTHER_ROOM, CAROL, Membership::Join),
    ] {
        batch.members.push(MemberChange {
            room: room.to_owned(),
            user: user.to_owned(),
            membership,
            event: format!("{user} in {room}"),
        });
    }
    let mut store = StateStore::new();
    assert_eq!(store.apply(&batch), Ok(()));
    store
}

#[test]
fn a_new_store_holds_nothing() {
    let store = StateStore::new();
    assert_eq!(store.len(), 0);
    assert_eq!(store.get(&Key::SyncToken), None);
    assert_eq!(store.get_sync_token(), None);
    assert_eq!(store.get_filter("f"), None);
    assert_eq!(store.get_profile(ROOM, ALICE), None);
    assert_eq!(store.get_user_ids(ROOM), Vec::<String>::new());
    assert_eq!(store.get_room_infos(), Vec::<String>::new());
    assert_eq!(store.get_custom_value(CustomKey::DeviceId), None);
}

#[test]
fn put_get_delete() {
    let put = |key: Key, text: &str| WriteOp::Put { key, value: Value::Text(text.to_owned()) };
    let mut store = StateStore::new();
    let ops = vec![
        put(Key::SyncToken, "a"),
        put(Key::Filter { name: "f".to_owned() }, "1"),
        put(Key::SyncToken, "b"),
    ];
    assert_eq!(store.commit(ops), Ok(()));
    assert_eq!(store.len(), 2);
    assert_eq!(store.get(&Key::SyncToken), Some(&Value::Text("b".to_owned())));
    let ops =
        vec![WriteOp::Delete { key: Key::SyncToken }, WriteOp::Delete { key: Key::SyncToken }];
    assert_eq!(store.commit(ops), Ok(()));
    assert_eq!(store.get(&Key::SyncToken), None);
    assert_eq!(store.get(&Key::Filter { name: "f".to_owned() }), Some(&Value::Text("1".to_owned())));
    assert_eq!(store.len(), 1);
    assert_eq!(store.commit(Vec::new()), Ok(()));
    assert_eq!(store.len(), 1);
}

#[test]
fn keys_of_different_families_do_not_meet() {
    let status = Key::MemberStatus { room: ROOM.to_owned(), user: ALICE.to_owned() };
    let record = Key::Member { room: ROOM.to_owned(), user: ALICE.to_owned() };
    assert!(!status.same(&record));
    assert!(status.same(&status.clone()));
    assert!(!status.same(&Key::MemberStatus { room: ROOM.to_owned(), user: BOB.to_owned() }));
    assert_eq!(status.room(), Some(&ROOM.to_owned()));
    assert_eq!(status.user(), Some(&ALICE.to_owned()));
    assert_eq!(Key::SyncToken.room(), None);
    assert_eq!(Key::RoomInfo { room: ROOM.to_owned() }.user(), None);
    assert_eq!(Key::Presence { user: BOB.to_owned() }.room(), None);
}

#[test]
fn writes_are_made_in_order() {
    let mut store = StateStore::new();
    let ops = vec![
        WriteOp::Put { key: Key::SyncToken, value: Value::Text("a".to_owned()) },
        WriteOp::Delete { key: Key::SyncToken },
        WriteOp::Put { key: Key::SyncToken, value: Value::Text("b".to_owned()) },
    ];
    assert_eq!(store.commit(ops), Ok(()));
    assert_eq!(store.get_sync_token(), Some("b".to_owned()));
    assert_eq!(store.commit(vec![WriteOp::Delete { key: Key::SyncToken }]), Ok(()));
    assert_eq!(store.get_sync_token(), None);
}

#[test]
fn a_commit_with_a_fault_writes_nothing() {
    let mut store = StateStore::new();
    let ops = vec![
        WriteOp::Put { key: Key::SyncToken, value: Value::Text("a".to_owned()) },
        WriteOp::Delete { key: Key::RoomInfo { room: "room".to_owned() } },
    ];
    assert_eq!(store.commit(ops), Err(StoreError::MalformedRoomId("room".to_owned())));
    assert_eq!(store.len(), 0);
}

#[test]
fn filters_are_kept_by_name() {
    let mut store = StateStore::new();
    store.save_filter("sync", "1");
    store.save_filter("other", "2");
    store.save_filter("sync", "3");
    assert_eq!(store.get_filter("sync"), Some("3".to_owned()));
    assert_eq!(store.get_filter("other"), Some("2".to_owned()));
    assert_eq!(store.get_filter("none"), None);
    assert_eq!(store.len(), 2);
}

#[test]
fn users_are_listed_by_status() {
    let store = members();
    assert_eq!(sorted(store.get_user_ids(ROOM)), vec![ALICE.to_owned(), BOB.to_owned()]);
    assert_eq!(store.get_joined_user_ids(ROOM), vec![ALICE.to_owned()]);
    assert_eq!(store.get_invited_user_ids(ROOM), vec![BOB.to_owned()]);
    assert_eq!(store.get_user_ids(OTHER_ROOM), vec![CAROL.to_owned()]);
    assert_eq!(
        store.get_users_by_status(OTHER_ROOM, Some(MembershipStatus::Invited)),
        Vec::<String>::new()
    );
    assert_eq!(store.get_member_status(ROOM, CAROL), None);
    assert_eq!(store.get_member_event(ROOM, CAROL), Some(format!("{CAROL} in {ROOM}")));
}

#[test]
fn removing_a_room_removes_its_rows_only() {
    let mut store = members();
    store.save_filter("sync", "1");
    store.add_media_content("mxc://example.org/a", "file", vec![1]);
    assert_eq!(store.len(), 9);
    store.remove_room(ROOM);
    assert_eq!(store.len(), 4);
    assert_eq!(store.get_user_ids(ROOM), Vec::<String>::new());
    assert_eq!(store.get_member_event(ROOM, ALICE), None);
    assert_eq!(store.get_member_event(ROOM, CAROL), None);
    assert_eq!(store.get_user_ids(OTHER_ROOM), vec![CAROL.to_owned()]);
    assert_eq!(store.get_member_event(OTHER_ROOM, CAROL), Some(format!("{CAROL} in {OTHER_ROOM}")));
    assert_eq!(store.get_filter("sync"), Some("1".to_owned()));
    assert_eq!(store.get_media_content("mxc://example.org/a", "file"), Some(vec![1]));
    store.remove_room(ROOM);
    assert_eq!(store.len(), 4);
}

#[test]
fn a_scan_copies_the_rows_it_takes() {
    let store = members();
    let found = store.scan(&Selector::Members { room: ROOM.to_owned(), status: None });
    assert_eq!(found.len(), 2);
    assert!(found.contains(&Row {
        key: Key::MemberStatus { room: ROOM.to_owned(), user: ALICE.to_owned() },
        value: Value::Status(MembershipStatus::Joined),
    }));
    assert!(found.contains(&Row {
        key: Key::MemberStatus { room: ROOM.to_owned(), user: BOB.to_owned() },
        value: Value::Status(MembershipStatus::Invited),
    }));
    assert_eq!(store.scan(&Selector::Room { room: ROOM.to_owned() }).len(), 5);
    assert_eq!(store.scan(&Selector::Media { uri: "mxc://x/y".to_owned() }).len(), 0);
}

#[test]
fn removing_by_choice_leaves_the_rest() {
    let mut store = members();
    store.remove_matching(&Selector::Members {
        room: ROOM.to_owned(),
        status: Some(MembershipStatus::Invited),
    });
    assert_eq!(store.get_user_ids(ROOM), vec![ALICE.to_owned()]);
    assert_eq!(store.get_member_event(ROOM, BOB), Some(format!("{BOB} in {ROOM}")));
    assert_eq!(store.len(), 6);
}

#[test]
fn display_names_list_their_users() {
    let mut batch = StateChangeBatch::new();
    for (name, user) in [("Al", ALICE), ("Al", BOB), ("Carol", CAROL)] {
        batch.ambiguity_maps.push(DisplayNameChange {
            room: ROOM.to_owned(),
            display_name: name.to_owned(),
            user: user.to_owned(),
        });
    }
    let mut store = StateStore::new();
    assert_eq!(store.apply(&batch), Ok(()));
    assert_eq!(store.apply(&batch), Ok(()));
    assert_eq!(
        sorted(store.get_users_with_display_name(ROOM, "Al")),
        vec![ALICE.to_owned(), BOB.to_owned()]
    );
    assert_eq!(store.get_users_with_display_name(ROOM, "Carol"), vec![CAROL.to_owned()]);
    assert_eq!(store.get_users_with_display_name(ROOM, "Dave"), Vec::<String>::new());
    assert_eq!(store.get_users_with_display_name(OTHER_ROOM, "Al"), Vec::<String>::new());
}

#[test]
fn state_events_are_listed_by_type() {
    let mut batch = StateChangeBatch::new();
    for (event_type, state_key, event) in
        [("m.room.member", ALICE, "a"), ("m.room.member", BOB, "b"), ("m.room.name", "", "n")]
    {
        batch.stripped_state.push(StrippedStateChange {
            room: ROOM.to_owned(),
            event_type: event_type.to_owned(),
            state_key: state_key.to_owned(),
            event: event.to_owned(),
        });
    }
    let mut store = StateStore::new();
    assert_eq!(store.apply(&batch), Ok(()));
    assert_eq!(
        sorted(store.get_state_events(ROOM, "m.room.member")),
        vec!["a".to_owned(), "b".to_owned()]
    );
    assert_eq!(store.get_state_events(ROOM, "m.room.name"), vec!["n".to_owned()]);
    assert_eq!(store.get_state_events(ROOM, "m.room.topic"), Vec::<String>::new());
    assert_eq!(store.get_state_event(ROOM, "m.room.member", BOB), Some("b".to_owned()));
    assert_eq!(store.get_state_event(ROOM, "m.room.member", CAROL), None);
}

#[test]
fn a_receipt_moves_with_its_user() {
    let receipt = |event_id: &str, user: &str, receipt: &str| ReceiptChange {
        room: ROOM.to_owned(),
        event_id: event_id.to_owned(),
        receipt_type: "m.read".to_owned(),
        user: user.to_owned(),
        receipt: receipt.to_owned(),
    };
    let mut batch = StateChangeBatch::new();
    batch.receipts.push(receipt("$one", ALICE, "r1"));
    batch.receipts.push(receipt("$one", BOB, "r2"));
    let mut store = StateStore::new();
    assert_eq!(store.apply(&batch), Ok(()));
    let (users, receipts) = store.get_event_room_receipt_events(ROOM, "m.read", "$one");
    assert_eq!(users.len(), 2);
    assert_eq!(receipts.len(), 2);
    let mut batch = StateChangeBatch::new();
    batch.receipts.push(receipt("$two", ALICE, "r3"));
    assert_eq!(store.apply(&batch), Ok(()));
    assert_eq!(
        store.get_event_room_receipt_events(ROOM, "m.read", "$one"),
        (vec![BOB.to_owned()], vec!["r2".to_owned()])
    );
    assert_eq!(
        store.get_event_room_receipt_events(ROOM, "m.read", "$two"),
        (vec![ALICE.to_owned()], vec!["r3".to_owned()])
    );
    assert_eq!(
        store.get_user_room_receipt_event(ROOM, "m.read", ALICE),
        Some(("$two".to_owned(), "r3".to_owned()))
    );
    assert_eq!(store.get_user_room_receipt_event(ROOM, "m.read", CAROL), None);
    assert_eq!(store.get_user_room_receipt_event(ROOM, "m.read.private", ALICE), None);
}

#[test]
fn custom_values_are_replaced_and_removed() {
    let mut store = StateStore::new();
    assert_eq!(store.set_custom_value(CustomKey::DeviceId, b"ABCDEFGH".to_vec()), None);
    assert_eq!(store.set_custom_value(CustomKey::Session, vec![0, 159]), None);
    assert_eq!(
        store.set_custom_value(CustomKey::DeviceId, b"IJKLMNOP".to_vec()),
        Some(b"ABCDEFGH".to_vec())
    );
    assert_eq!(store.get_custom_value(CustomKey::DeviceId), Some(b"IJKLMNOP".to_vec()));
    assert_eq!(store.get_custom_value(CustomKey::Session), Some(vec![0, 159]));
    store.remove_custom_value(CustomKey::DeviceId);
    assert_eq!(store.get_custom_value(CustomKey::DeviceId), None);
    assert_eq!(store.get_custom_value(CustomKey::Session), Some(vec![0, 159]));
}

#[test]
fn media_is_kept_by_uri_and_format() {
    let mut store = StateStore::new();
    store.add_media_content("mxc://example.org/a", "file", vec![1]);
    store.add_media_content("mxc://example.org/a", "thumb", vec![2]);
    store.add_media_content("mxc://example.org/b", "file", vec![3]);
    assert_eq!(store.get_media_content("mxc://example.org/a", "file"), Some(vec![1]));
    assert_eq!(store.get_media_content("mxc://example.org/a", "thumb"), Some(vec![2]));
    assert_eq!(store.get_media_content("mxc://example.org/a", "crop"), None);
    store.remove_media_content("mxc://example.org/a", "file");
    assert_eq!(store.get_media_content("mxc://example.org/a", "file"), None);
    assert_eq!(store.get_media_content("mxc://example.org/a", "thumb"), Some(vec![2]));
    store.add_media_content("mxc://example.org/a", "file", vec![4]);
    store.remove_media_content_for_uri("mxc://example.org/a");
    assert_eq!(store.get_media_content("mxc://example.org/a", "file"), None);
    assert_eq!(store.get_media_content("mxc://example.org/a", "thumb"), None);
    assert_eq!(store.get_media_content("mxc://example.org/b", "file"), Some(vec![3]));
    assert_eq!(store.len(), 1);
}

#[test]
fn registering_again_replaces_the_mapping() {
    let mut store = StateStore::new();
    assert_eq!(store.register_user(ALICE, ROOM, "tokA"), Ok(()));
    assert_eq!(store.get_registration(ALICE), Some(("tokA".to_owned(), ROOM.to_owned())));
    assert_eq!(store.register_user(ALICE, OTHER_ROOM, "tokB"), Ok(()));
    assert_eq!(store.get_registration(ALICE), Some(("tokB".to_owned(), OTHER_ROOM.to_owned())));
    assert_eq!(store.len(), 1);
    assert_eq!(store.get_registration(BOB), None);
}

#[test]
fn unregistering_removes_the_mapping() {
    let mut store = StateStore::new();
    assert_eq!(store.register_user(ALICE, ROOM, "tokA"), Ok(()));
    assert_eq!(store.register_user(BOB, ROOM, "tokB"), Ok(()));
    store.unregister_user(ALICE);
    store.unregister_user(CAROL);
    assert_eq!(store.get_registration(ALICE), None);
    assert_eq!(store.get_registration(BOB), Some(("tokB".to_owned(), ROOM.to_owned())));
    assert_eq!(store.len(), 1);
}

#[test]
fn registering_a_malformed_user_is_refused() {
    let mut store = StateStore::new();
    assert_eq!(store.register_user(ALICE, ROOM, "tokA"), Ok(()));
    assert_eq!(
        store.register_user("alice", ROOM, "tokB"),
        Err(StoreError::MalformedUserId("alice".to_owned()))
    );
    assert_eq!(store.get_registration(ALICE), Some(("tokA".to_owned(), ROOM.to_owned())));
    assert_eq!(store.get_registration("alice"), None);
    assert_eq!(store.len(), 1);
}

#[test]
fn removing_a_room_keeps_the_mappings_issued_from_it() {
    let mut store = StateStore::new();
    assert_eq!(store.register_user(ALICE, ROOM, "tokA"), Ok(()));
    store.remove_room(ROOM);
    assert_eq!(store.get_registration(ALICE), Some(("tokA".to_owned(), ROOM.to_owned())));
}

#[test]
fn custom_keys_have_their_names() {
    assert_eq!(CustomKey::DeviceId.name(), "device_id");
    assert_eq!(CustomKey::Session.name(), "session");
    assert_eq!(CustomKey::from_name(b"device_id"), Some(CustomKey::DeviceId));
    assert_eq!(CustomKey::from_name(b"session"), Some(CustomKey::Session));
    assert_eq!(CustomKey::from_name(b""), None);
    assert_eq!(CustomKey::from_name(b"device"), None);
    assert_eq!(CustomKey::from_name(b"Session"), None);
    assert_eq!(CustomKey::from_name(b"session "), None);
}
