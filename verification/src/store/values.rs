//! Payloads of the rows that the store holds.
use vstd::prelude::*;
use crate::store::keys::MembershipStatus;

verus! {

/// What a row holds beside its key.
#[derive(Debug, PartialEq, Eq)]
pub enum Value {
    /// A short text: the sync cursor, a filter id.
    Text(String),
    /// The coarse membership status of a user in a room.
    Status(MembershipStatus),
    /// A serialized state document.
    Document(String),
    /// Room metadata, and whether it is the pre-join (stripped) kind.
    RoomInfo { stripped: bool, document: String },
    /// A receipt and the event that it acknowledges.
    Receipt { event_id: String, document: String },
    /// The credential of a home user and the room it was issued from.
    Mapping { token: String, room: String },
    /// Opaque bytes.
    Blob(Vec<u8>),
    /// A row that is all key, such as a display name.
    Marker,
}

/// A payload as contracts see it.
pub enum ValueView {
    Text(Seq<char>),
    Status(MembershipStatus),
    Document(Seq<char>),
    RoomInfo { stripped: bool, document: Seq<char> },
    Receipt { event_id: Seq<char>, document: Seq<char> },
    Mapping { token: Seq<char>, room: Seq<char> },
    Blob(Seq<u8>),
    Marker,
}

impl View for Value {
    type V = ValueView;

    open spec fn view(&self) -> ValueView {
        match *self {
            Value::Text(t) => ValueView::Text(t@),
            Value::Status(s) => ValueView::Status(s),
            Value::Document(d) => ValueView::Document(d@),
            Value::RoomInfo { stripped, document } => ValueView::RoomInfo {
                stripped,
                document: document@,
            },
            Value::Receipt { event_id, document } => ValueView::Receipt {
                event_id: event_id@,
                document: document@,
            },
            Value::Mapping { token, room } => ValueView::Mapping { token: token@, room: room@ },
            Value::Blob(b) => ValueView::Blob(b@),
            Value::Marker => ValueView::Marker,
        }
    }
}

impl ValueView {
    /// The serialized document in the payload, where it holds one.
    pub open spec fn document(self) -> Option<Seq<char>> {
        match self {
            ValueView::Document(document) => Some(document),
            ValueView::RoomInfo { document, .. } => Some(document),
            ValueView::Receipt { document, .. } => Some(document),
            _ => None,
        }
    }
}

impl Value {
    /// The serialized document in the payload, where it holds one.
    pub fn document(&self) -> (r: Option<&String>)
        ensures
            r is Some == self@.document() is Some,
            r matches Some(document) ==> self@.document() == Some(document@),
    {
        match self {
            Value::Document(document) => Some(document),
            Value::RoomInfo { document, .. } => Some(document),
            Value::Receipt { document, .. } => Some(document),
            _ => None,
        }
    }
}

impl Clone for Value {
    fn clone(&self) -> (r: Value)
        ensures
            r@ == self@,
    {
        match self {
            Value::Text(t) => Value::Text(t.clone()),
            Value::Status(s) => Value::Status(*s),
            Value::Document(d) => Value::Document(d.clone()),
            Value::RoomInfo { stripped, document } => Value::RoomInfo {
                stripped: *stripped,
                document: document.clone(),
            },
            Value::Receipt { event_id, document } => Value::Receipt {
                event_id: event_id.clone(),
                document: document.clone(),
            },
            Value::Mapping { token, room } => Value::Mapping {
                token: token.clone(),
                room: room.clone(),
            },
            Value::Blob(b) => Value::Blob(b.clone()),
            Value::Marker => Value::Marker,
        }
    }
}

} // verus!
