//! The reads and the single-row writes that the bridge makes on the store.
use vstd::prelude::*;
use crate::store::ids::{Fault, StoreError, committed, first_fault, is_user_id, key_fault};
use crate::store::keys::{CustomKey, Key, KeyView, MembershipStatus};
use crate::store::ops::{OpView, WriteOp, lookup, views};
use crate::store::query::{
    Selector, SelectorView, document_column, documents_of, is_selection, lemma_selection_row, texts,
    user_column, users_of,
};
use crate::store::table::{Row, StateStore};
use crate::store::values::{Value, ValueView};

verus! {

/// The characters of a text that may be missing.
pub open spec fn text_of(text: Option<String>) -> Option<Seq<char>> {
    match text {
        Some(t) => Some(t@),
        None => None,
    }
}

/// The bytes of a blob that may be missing.
pub open spec fn bytes_of(blob: Option<Vec<u8>>) -> Option<Seq<u8>> {
    match blob {
        Some(b) => Some(b@),
        None => None,
    }
}

/// The short text stored under the key.
pub open spec fn text_at(rows: Map<KeyView, ValueView>, key: KeyView) -> Option<Seq<char>> {
    match lookup(rows, key) {
        Some(ValueView::Text(text)) => Some(text),
        _ => None,
    }
}

/// The document stored under the key.
pub open spec fn document_at(rows: Map<KeyView, ValueView>, key: KeyView) -> Option<Seq<char>> {
    match lookup(rows, key) {
        Some(ValueView::Document(document)) => Some(document),
        _ => None,
    }
}

/// The blob stored under the key.
pub open spec fn blob_at(rows: Map<KeyView, ValueView>, key: KeyView) -> Option<Seq<u8>> {
    match lookup(rows, key) {
        Some(ValueView::Blob(bytes)) => Some(bytes),
        _ => None,
    }
}

/// The two writes that replace the mapping of a home user.
pub open spec fn registration_writes(user: Seq<char>, room: Seq<char>, token: Seq<char>) -> Seq<
    OpView,
> {
    seq![
        OpView::Delete { key: KeyView::PuppetMapping { user } },
        OpView::Put { key: KeyView::PuppetMapping { user }, value: ValueView::Mapping { token, room } },
    ]
}

/// The writes that replace the mapping of a home user: the removal of the
/// mapping that the user has, then the new one.
pub fn registration_ops(user: &str, room: &str, token: &str) -> (ops: Vec<WriteOp>)
    ensures
        views(ops@) == registration_writes(user@, room@, token@),
{
    let mut ops: Vec<WriteOp> = Vec::new();
    ops.push(WriteOp::Delete { key: Key::PuppetMapping { user: user.to_owned() } });
    ops.push(
        WriteOp::Put {
            key: Key::PuppetMapping { user: user.to_owned() },
            value: Value::Mapping { token: token.to_owned(), room: room.to_owned() },
        },
    );
    assert(views(ops@) =~= registration_writes(user@, room@, token@));
    ops
}

impl StateStore {
    /// The short text stored under the key.
    fn text(&self, key: &Key) -> (r: Option<String>)
        ensures
            text_of(r) == text_at(self@, key@),
    {
        match self.get(key) {
            Some(Value::Text(text)) => Some(text.clone()),
            _ => None,
        }
    }

    /// The document stored under the key.
    fn document(&self, key: &Key) -> (r: Option<String>)
        ensures
            text_of(r) == document_at(self@, key@),
    {
        match self.get(key) {
            Some(Value::Document(document)) => Some(document.clone()),
            _ => None,
        }
    }

    /// The blob stored under the key.
    fn blob(&self, key: &Key) -> (r: Option<Vec<u8>>)
        ensures
            bytes_of(r) == blob_at(self@, key@),
    {
        match self.get(key) {
            Some(Value::Blob(bytes)) => Some(bytes.clone()),
            _ => None,
        }
    }

    /// Stores the filter id under the filter name.
    pub fn save_filter(&mut self, filter_name: &str, filter_id: &str)
        ensures
            final(self)@ == old(self)@.insert(
                KeyView::Filter { name: filter_name@ },
                ValueView::Text(filter_id@),
            ),
    {
        self.put(Key::Filter { name: filter_name.to_owned() }, Value::Text(filter_id.to_owned()));
    }

    /// The filter id stored under the filter name.
    pub fn get_filter(&self, filter_name: &str) -> (r: Option<String>)
        ensures
            text_of(r) == text_at(self@, KeyView::Filter { name: filter_name@ }),
    {
        self.text(&Key::Filter { name: filter_name.to_owned() })
    }

    /// The sync cursor of the last batch that brought one.
    pub fn get_sync_token(&self) -> (r: Option<String>)
        ensures
            text_of(r) == text_at(self@, KeyView::SyncToken),
    {
        self.text(&Key::SyncToken)
    }

    /// The latest presence event of the user.
    pub fn get_presence_event(&self, user_id: &str) -> (r: Option<String>)
        ensures
            text_of(r) == document_at(self@, KeyView::Presence { user: user_id@ }),
    {
        self.document(&Key::Presence { user: user_id.to_owned() })
    }

    /// The pre-join state event of the room with the type and state key.
    pub fn get_state_event(&self, room_id: &str, event_type: &str, state_key: &str) -> (r: Option<
        String,
    >)
        ensures
            text_of(r) == document_at(
                self@,
                KeyView::StrippedState {
                    room: room_id@,
                    event_type: event_type@,
                    state_key: state_key@,
                },
            ),
    {
        self.document(
            &Key::StrippedState {
                room: room_id.to_owned(),
                event_type: event_type.to_owned(),
                state_key: state_key.to_owned(),
            },
        )
    }

    /// The pre-join state events of the room with the type, one for each
    /// state key.
    pub fn get_state_events(&self, room_id: &str, event_type: &str) -> (r: Vec<String>)
        ensures
            exists|found: Seq<Row>|
                is_selection(
                    found,
                    self@,
                    SelectorView::State { room: room_id@, event_type: event_type@ },
                ) && texts(r@) == documents_of(found),
    {
        let selector = Selector::State {
            room: room_id.to_owned(),
            event_type: event_type.to_owned(),
        };
        let found = self.scan(&selector);
        let documents = document_column(&found);
        proof {
            assert forall|i: int| 0 <= i < found.len() implies documents@[i]@ == documents_of(
                found@,
            )[i] by {
                lemma_selection_row(found@, self@, selector@, i);
            }
            assert(texts(documents@) =~= documents_of(found@));
        }
        documents
    }

    /// The latest profile of the user in the room.
    pub fn get_profile(&self, room_id: &str, user_id: &str) -> (r: Option<String>)
        ensures
            text_of(r) == document_at(self@, KeyView::Profile { room: room_id@, user: user_id@ }),
    {
        self.document(&Key::Profile { room: room_id.to_owned(), user: user_id.to_owned() })
    }

    /// The latest member event of the user in the room.
    pub fn get_member_event(&self, room_id: &str, state_key: &str) -> (r: Option<String>)
        ensures
            text_of(r) == document_at(self@, KeyView::Member { room: room_id@, user: state_key@ }),
    {
        self.document(&Key::Member { room: room_id.to_owned(), user: state_key.to_owned() })
    }

    /// The coarse status of the user in the room: none where the user is
    /// neither joined nor invited.
    pub fn get_member_status(&self, room_id: &str, user_id: &str) -> (r: Option<MembershipStatus>)
        ensures
            r == match lookup(self@, KeyView::MemberStatus { room: room_id@, user: user_id@ }) {
                Some(ValueView::Status(status)) => Some(status),
                _ => None,
            },
    {
        match self.get(&Key::MemberStatus { room: room_id.to_owned(), user: user_id.to_owned() }) {
            Some(Value::Status(status)) => Some(*status),
            _ => None,
        }
    }

    /// The users of the room with the given coarse status, or with any where
    /// none is given, each once.
    pub fn get_users_by_status(&self, room_id: &str, status: Option<MembershipStatus>) -> (r: Vec<
        String,
    >)
        ensures
            exists|found: Seq<Row>|
                is_selection(found, self@, SelectorView::Members { room: room_id@, status })
                    && texts(r@) == users_of(found),
    {
        let selector = Selector::Members { room: room_id.to_owned(), status };
        let found = self.scan(&selector);
        let users = user_column(&found);
        proof {
            assert forall|i: int| 0 <= i < found.len() implies users@[i]@ == users_of(found@)[i] by {
                lemma_selection_row(found@, self@, selector@, i);
            }
            assert(texts(users@) =~= users_of(found@));
        }
        users
    }

    /// The users that are joined to the room or invited to it.
    pub fn get_user_ids(&self, room_id: &str) -> (r: Vec<String>)
        ensures
            exists|found: Seq<Row>|
                is_selection(found, self@, SelectorView::Members { room: room_id@, status: None })
                    && texts(r@) == users_of(found),
    {
        self.get_users_by_status(room_id, None)
    }

    /// The users that are invited to the room.
    pub fn get_invited_user_ids(&self, room_id: &str) -> (r: Vec<String>)
        ensures
            exists|found: Seq<Row>|
                is_selection(
                    found,
                    self@,
                    SelectorView::Members {
                        room: room_id@,
                        status: Some(MembershipStatus::Invited),
                    },
                ) && texts(r@) == users_of(found),
    {
        self.get_users_by_status(room_id, Some(MembershipStatus::Invited))
    }

    /// The users that are joined to the room.
    pub fn get_joined_user_ids(&self, room_id: &str) -> (r: Vec<String>)
        ensures
            exists|found: Seq<Row>|
                is_selection(
                    found,
                    self@,
                    SelectorView::Members { room: room_id@, status: Some(MembershipStatus::Joined) },
                ) && texts(r@) == users_of(found),
    {
        self.get_users_by_status(room_id, Some(MembershipStatus::Joined))
    }

    /// The room metadata of one kind, one document for each room.
    fn room_infos_of_kind(&self, stripped: bool) -> (r: Vec<String>)
        ensures
            exists|found: Seq<Row>|
                is_selection(found, self@, SelectorView::RoomInfos { stripped }) && texts(r@)
                    == documents_of(found),
    {
        let selector = Selector::RoomInfos { stripped };
        let found = self.scan(&selector);
        let documents = document_column(&found);
        proof {
            assert forall|i: int| 0 <= i < found.len() implies documents@[i]@ == documents_of(
                found@,
            )[i] by {
                lemma_selection_row(found@, self@, selector@, i);
            }
            assert(texts(documents@) =~= documents_of(found@));
        }
        documents
    }

    /// The metadata of the rooms whose latest metadata is not of the pre-join
    /// kind.
    pub fn get_room_infos(&self) -> (r: Vec<String>)
        ensures
            exists|found: Seq<Row>|
                is_selection(found, self@, SelectorView::RoomInfos { stripped: false }) && texts(r@)
                    == documents_of(found),
    {
        self.room_infos_of_kind(false)
    }

    /// The metadata of the rooms whose latest metadata is of the pre-join
    /// kind.
    pub fn get_stripped_room_infos(&self) -> (r: Vec<String>)
        ensures
            exists|found: Seq<Row>|
                is_selection(found, self@, SelectorView::RoomInfos { stripped: true }) && texts(r@)
                    == documents_of(found),
    {
        self.room_infos_of_kind(true)
    }

    /// The users that go by the display name in the room, each once.
    pub fn get_users_with_display_name(&self, room_id: &str, display_name: &str) -> (r: Vec<String>)
        ensures
            exists|found: Seq<Row>|
                is_selection(
                    found,
                    self@,
                    SelectorView::DisplayName { room: room_id@, name: display_name@ },
                ) && texts(r@) == users_of(found),
    {
        let selector = Selector::DisplayName {
            room: room_id.to_owned(),
            name: display_name.to_owned(),
        };
        let found = self.scan(&selector);
        let users = user_column(&found);
        proof {
            assert forall|i: int| 0 <= i < found.len() implies users@[i]@ == users_of(found@)[i] by {
                lemma_selection_row(found@, self@, selector@, i);
            }
            assert(texts(users@) =~= users_of(found@));
        }
        users
    }

    /// The global account data event of the type.
    pub fn get_account_data_event(&self, event_type: &str) -> (r: Option<String>)
        ensures
            text_of(r) == document_at(self@, KeyView::AccountData { event_type: event_type@ }),
    {
        self.document(&Key::AccountData { event_type: event_type.to_owned() })
    }

    /// The account data event of the room and type.
    pub fn get_room_account_data_event(&self, room_id: &str, event_type: &str) -> (r: Option<String>)
        ensures
            text_of(r) == document_at(
                self@,
                KeyView::RoomAccountData { room: room_id@, event_type: event_type@ },
            ),
    {
        self.document(
            &Key::RoomAccountData { room: room_id.to_owned(), event_type: event_type.to_owned() },
        )
    }

    /// The latest receipt of the type that the user gave in the room: the
    /// event it acknowledges, and the receipt.
    pub fn get_user_room_receipt_event(&self, room_id: &str, receipt_type: &str, user_id: &str) -> (r:
        Option<(String, String)>)
        ensures
            match lookup(
                self@,
                KeyView::Receipt { room: room_id@, receipt_type: receipt_type@, user: user_id@ },
            ) {
                Some(ValueView::Receipt { event_id, document }) => r matches Some(pair)
                    && pair.0@ == event_id && pair.1@ == document,
                _ => r is None,
            },
    {
        let key = Key::Receipt {
            room: room_id.to_owned(),
            receipt_type: receipt_type.to_owned(),
            user: user_id.to_owned(),
        };
        match self.get(&key) {
            Some(Value::Receipt { event_id, document }) => Some((event_id.clone(), document.clone())),
            _ => None,
        }
    }

    /// The receipts of the type that acknowledge the event of the room: the
    /// users, each once, and after them the receipts, in the same order.
    pub fn get_event_room_receipt_events(
        &self,
        room_id: &str,
        receipt_type: &str,
        event_id: &str,
    ) -> (r: (Vec<String>, Vec<String>))
        ensures
            exists|found: Seq<Row>|
                is_selection(
                    found,
                    self@,
                    SelectorView::Receipts {
                        room: room_id@,
                        receipt_type: receipt_type@,
                        event_id: event_id@,
                    },
                ) && texts(r.0@) == users_of(found) && texts(r.1@) == documents_of(found),
    {
        let selector = Selector::Receipts {
            room: room_id.to_owned(),
            receipt_type: receipt_type.to_owned(),
            event_id: event_id.to_owned(),
        };
        let found = self.scan(&selector);
        let users = user_column(&found);
        let receipts = document_column(&found);
        proof {
            assert forall|i: int| 0 <= i < found.len() implies users@[i]@ == users_of(found@)[i]
                && receipts@[i]@ == documents_of(found@)[i] by {
                lemma_selection_row(found@, self@, selector@, i);
            }
            assert(texts(users@) =~= users_of(found@));
            assert(texts(receipts@) =~= documents_of(found@));
        }
        (users, receipts)
    }

    /// The blob that a client keeps under the key.
    pub fn get_custom_value(&self, key: CustomKey) -> (r: Option<Vec<u8>>)
        ensures
            bytes_of(r) == blob_at(self@, KeyView::Custom { key }),
    {
        self.blob(&Key::Custom { key })
    }

    /// Stores the blob under the key and hands back the blob that it
    /// replaces.
    pub fn set_custom_value(&mut self, key: CustomKey, value: Vec<u8>) -> (r: Option<Vec<u8>>)
        ensures
            bytes_of(r) == blob_at(old(self)@, KeyView::Custom { key }),
            final(self)@ == old(self)@.insert(KeyView::Custom { key }, ValueView::Blob(value@)),
    {
        let previous = self.blob(&Key::Custom { key });
        self.put(Key::Custom { key }, Value::Blob(value));
        previous
    }

    /// Removes the blob under the key.
    pub fn remove_custom_value(&mut self, key: CustomKey)
        ensures
            final(self)@ == old(self)@.remove(KeyView::Custom { key }),
    {
        self.delete(&Key::Custom { key });
    }

    /// Stores the content of a media file under its URI and format.
    pub fn add_media_content(&mut self, uri: &str, format: &str, content: Vec<u8>)
        ensures
            final(self)@ == old(self)@.insert(
                KeyView::Media { uri: uri@, format: format@ },
                ValueView::Blob(content@),
            ),
    {
        self.put(Key::Media { uri: uri.to_owned(), format: format.to_owned() }, Value::Blob(content));
    }

    /// The content of the media file with the URI and format.
    pub fn get_media_content(&self, uri: &str, format: &str) -> (r: Option<Vec<u8>>)
        ensures
            bytes_of(r) == blob_at(self@, KeyView::Media { uri: uri@, format: format@ }),
    {
        self.blob(&Key::Media { uri: uri.to_owned(), format: format.to_owned() })
    }

    /// Removes the content of the media file with the URI and format.
    pub fn remove_media_content(&mut self, uri: &str, format: &str)
        ensures
            final(self)@ == old(self)@.remove(KeyView::Media { uri: uri@, format: format@ }),
    {
        self.delete(&Key::Media { uri: uri.to_owned(), format: format.to_owned() });
    }

    /// Removes the content of the media files with the URI, in every format.
    pub fn remove_media_content_for_uri(&mut self, uri: &str)
        ensures
            final(self)@ == old(self)@.remove_keys(
                SelectorView::Media { uri: uri@ }.keys(old(self)@),
            ),
    {
        self.remove_matching(&Selector::Media { uri: uri.to_owned() });
    }

    /// Removes every row keyed by the room.
    pub fn remove_room(&mut self, room_id: &str)
        ensures
            final(self)@ == old(self)@.remove_keys(
                SelectorView::Room { room: room_id@ }.keys(old(self)@),
            ),
    {
        self.remove_matching(&Selector::Room { room: room_id.to_owned() });
    }

    /// Removes the mapping of the home user, if there is one.
    pub fn unregister_user(&mut self, user: &str)
        ensures
            final(self)@ == old(self)@.remove(KeyView::PuppetMapping { user: user@ }),
    {
        self.delete(&Key::PuppetMapping { user: user.to_owned() });
    }

    /// Maps the home user to the token and to the management room that it was
    /// issued from, in place of the mapping that the user had. A user that is
    /// no user id is refused, and the store stays as it was.
    pub fn register_user(&mut self, user: &str, room: &str, token: &str) -> (r: Result<
        (),
        StoreError,
    >)
        ensures
            r is Ok <==> is_user_id(user@),
            r matches Err(e) ==> e@ == Fault::MalformedUserId(user@),
            final(self)@ == committed(old(self)@, registration_writes(user@, room@, token@)),
    {
        let ops = registration_ops(user, room, token);
        proof {
            let writes = registration_writes(user@, room@, token@);
            assert(key_fault(writes[0].key()) is None <==> is_user_id(user@));
            assert(writes.drop_first()[0] == writes[1]);
            assert(writes.drop_first().drop_first().len() == 0);
            reveal_with_fuel(first_fault, 3);
        }
        self.commit(ops)
    }

    /// The token of the home user and the management room that it was issued
    /// from.
    pub fn get_registration(&self, user: &str) -> (r: Option<(String, String)>)
        ensures
            match lookup(self@, KeyView::PuppetMapping { user: user@ }) {
                Some(ValueView::Mapping { token, room }) => r matches Some(pair) && pair.0@ == token
                    && pair.1@ == room,
                _ => r is None,
            },
    {
        match self.get(&Key::PuppetMapping { user: user.to_owned() }) {
            Some(Value::Mapping { token, room }) => Some((token.clone(), room.clone())),
            _ => None,
        }
    }
}

} // verus!
