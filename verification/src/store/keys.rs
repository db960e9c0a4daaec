//! Natural keys and payloads of the rows that the store holds.
use vstd::prelude::*;
use vstd::string::{StringSliceAdditionalSpecFns, is_ascii_spec_bytes};
use crate::text::same_bytes;

verus! {

/// Coarse membership of a user in a room. A user who is neither joined nor
/// invited has no status row at all.
#[derive(Clone, Copy, Debug, PartialEq, Eq, Structural)]
pub enum MembershipStatus {
    Joined,
    Invited,
}

/// The keys under which a client keeps opaque blobs in the store.
#[derive(Clone, Copy, Debug, PartialEq, Eq, Structural)]
pub enum CustomKey {
    /// The device id of the bridge's own session.
    DeviceId,
    /// The cached login credential of the bridge's own session.
    Session,
}

impl CustomKey {
    /// The name of the key: `device_id` or `session`, in ASCII.
    pub open spec fn name_bytes(self) -> Seq<u8> {
        match self {
            CustomKey::DeviceId => seq![100u8, 101u8, 118u8, 105u8, 99u8, 101u8, 95u8, 105u8, 100u8],
            CustomKey::Session => seq![115u8, 101u8, 115u8, 115u8, 105u8, 111u8, 110u8],
        }
    }

    /// The name of the key.
    pub fn name(self) -> (name: &'static str)
        ensures
            name.spec_bytes() == self.name_bytes(),
    {
        proof {
            reveal_strlit("device_id");
            reveal_strlit("session");
        }
        match self {
            CustomKey::DeviceId => {
                let name = "device_id";
                proof {
                    is_ascii_spec_bytes(name);
                    assert(name.spec_bytes() =~= self.name_bytes());
                }
                name
            },
            CustomKey::Session => {
                let name = "session";
                proof {
                    is_ascii_spec_bytes(name);
                    assert(name.spec_bytes() =~= self.name_bytes());
                }
                name
            },
        }
    }

    /// The key with the name, if the name is that of a key.
    pub fn from_name(name: &[u8]) -> (key: Option<CustomKey>)
        ensures
            match key {
                Some(k) => name@ == k.name_bytes(),
                None => name@ != CustomKey::DeviceId.name_bytes() && name@
                    != CustomKey::Session.name_bytes(),
            },
    {
        if same_bytes(name, CustomKey::DeviceId.name().as_bytes()) {
            Some(CustomKey::DeviceId)
        } else if same_bytes(name, CustomKey::Session.name().as_bytes()) {
            Some(CustomKey::Session)
        } else {
            None
        }
    }
}

/// The natural key of a row: the row family and its key columns.
#[derive(Debug, PartialEq, Eq)]
pub enum Key {
    SyncToken,
    Filter { name: String },
    MemberStatus { room: String, user: String },
    Member { room: String, user: String },
    Profile { room: String, user: String },
    DisplayName { room: String, user: String, name: String },
    AccountData { event_type: String },
    RoomAccountData { room: String, event_type: String },
    RoomInfo { room: String },
    Presence { user: String },
    StrippedMember { room: String, user: String },
    StrippedState { room: String, event_type: String, state_key: String },
    Receipt { room: String, receipt_type: String, user: String },
    Custom { key: CustomKey },
    Media { uri: String, format: String },
    PuppetMapping { user: String },
}

/// A key as contracts see it: every column by its characters.
pub enum KeyView {
    SyncToken,
    Filter { name: Seq<char> },
    MemberStatus { room: Seq<char>, user: Seq<char> },
    Member { room: Seq<char>, user: Seq<char> },
    Profile { room: Seq<char>, user: Seq<char> },
    DisplayName { room: Seq<char>, user: Seq<char>, name: Seq<char> },
    AccountData { event_type: Seq<char> },
    RoomAccountData { room: Seq<char>, event_type: Seq<char> },
    RoomInfo { room: Seq<char> },
    Presence { user: Seq<char> },
    StrippedMember { room: Seq<char>, user: Seq<char> },
    StrippedState { room: Seq<char>, event_type: Seq<char>, state_key: Seq<char> },
    Receipt { room: Seq<char>, receipt_type: Seq<char>, user: Seq<char> },
    Custom { key: CustomKey },
    Media { uri: Seq<char>, format: Seq<char> },
    PuppetMapping { user: Seq<char> },
}

impl View for Key {
    type V = KeyView;

    open spec fn view(&self) -> KeyView {
        match *self {
            Key::SyncToken => KeyView::SyncToken,
            Key::Filter { name } => KeyView::Filter { name: name@ },
            Key::MemberStatus { room, user } => KeyView::MemberStatus { room: room@, user: user@ },
            Key::Member { room, user } => KeyView::Member { room: room@, user: user@ },
            Key::Profile { room, user } => KeyView::Profile { room: room@, user: user@ },
            Key::DisplayName { room, user, name } => KeyView::DisplayName {
                room: room@,
                user: user@,
                name: name@,
            },
            Key::AccountData { event_type } => KeyView::AccountData { event_type: event_type@ },
            Key::RoomAccountData { room, event_type } => KeyView::RoomAccountData {
                room: room@,
                event_type: event_type@,
            },
            Key::RoomInfo { room } => KeyView::RoomInfo { room: room@ },
            Key::Presence { user } => KeyView::Presence { user: user@ },
            Key::StrippedMember { room, user } => KeyView::StrippedMember {
                room: room@,
                user: user@,
            },
            Key::StrippedState { room, event_type, state_key } => KeyView::StrippedState {
                room: room@,
                event_type: event_type@,
                state_key: state_key@,
            },
            Key::Receipt { room, receipt_type, user } => KeyView::Receipt {
                room: room@,
                receipt_type: receipt_type@,
                user: user@,
            },
            Key::Custom { key } => KeyView::Custom { key },
            Key::Media { uri, format } => KeyView::Media { uri: uri@, format: format@ },
            Key::PuppetMapping { user } => KeyView::PuppetMapping { user: user@ },
        }
    }
}

impl KeyView {
    /// The room that the row belongs to, for the row families keyed by room.
    pub open spec fn room(self) -> Option<Seq<char>> {
        match self {
            KeyView::MemberStatus { room, .. } => Some(room),
            KeyView::Member { room, .. } => Some(room),
            KeyView::Profile { room, .. } => Some(room),
            KeyView::DisplayName { room, .. } => Some(room),
            KeyView::RoomAccountData { room, .. } => Some(room),
            KeyView::RoomInfo { room } => Some(room),
            KeyView::StrippedMember { room, .. } => Some(room),
            KeyView::StrippedState { room, .. } => Some(room),
            KeyView::Receipt { room, .. } => Some(room),
            _ => None,
        }
    }

    /// The user that the row is about, for the row families keyed by user.
    pub open spec fn user(self) -> Option<Seq<char>> {
        match self {
            KeyView::MemberStatus { user, .. } => Some(user),
            KeyView::Member { user, .. } => Some(user),
            KeyView::Profile { user, .. } => Some(user),
            KeyView::DisplayName { user, .. } => Some(user),
            KeyView::Presence { user } => Some(user),
            KeyView::StrippedMember { user, .. } => Some(user),
            KeyView::Receipt { user, .. } => Some(user),
            KeyView::PuppetMapping { user } => Some(user),
            _ => None,
        }
    }
}

impl Key {
    /// The room that the row belongs to, for the row families keyed by room.
    pub fn room(&self) -> (r: Option<&String>)
        ensures
            r is Some == self@.room() is Some,
            r matches Some(room) ==> self@.room() == Some(room@),
    {
        match self {
            Key::MemberStatus { room, .. } => Some(room),
            Key::Member { room, .. } => Some(room),
            Key::Profile { room, .. } => Some(room),
            Key::DisplayName { room, .. } => Some(room),
            Key::RoomAccountData { room, .. } => Some(room),
            Key::RoomInfo { room } => Some(room),
            Key::StrippedMember { room, .. } => Some(room),
            Key::StrippedState { room, .. } => Some(room),
            Key::Receipt { room, .. } => Some(room),
            _ => None,
        }
    }

    /// The user that the row is about, for the row families keyed by user.
    pub fn user(&self) -> (r: Option<&String>)
        ensures
            r is Some == self@.user() is Some,
            r matches Some(user) ==> self@.user() == Some(user@),
    {
        match self {
            Key::MemberStatus { user, .. } => Some(user),
            Key::Member { user, .. } => Some(user),
            Key::Profile { user, .. } => Some(user),
            Key::DisplayName { user, .. } => Some(user),
            Key::Presence { user } => Some(user),
            Key::StrippedMember { user, .. } => Some(user),
            Key::Receipt { user, .. } => Some(user),
            Key::PuppetMapping { user } => Some(user),
            _ => None,
        }
    }

    /// Whether two keys name the same row.
    pub fn same(&self, other: &Key) -> (b: bool)
        ensures
            b == (self@ == other@),
    {
        match (self, other) {
            (Key::SyncToken, Key::SyncToken) => true,
            (Key::Filter { name: a }, Key::Filter { name: b }) => *a == *b,
            (Key::MemberStatus { room: r1, user: u1 }, Key::MemberStatus { room: r2, user: u2 }) => {
                *r1 == *r2 && *u1 == *u2
            },
            (Key::Member { room: r1, user: u1 }, Key::Member { room: r2, user: u2 }) => {
                *r1 == *r2 && *u1 == *u2
            },
            (Key::Profile { room: r1, user: u1 }, Key::Profile { room: r2, user: u2 }) => {
                *r1 == *r2 && *u1 == *u2
            },
            (
                Key::DisplayName { room: r1, user: u1, name: n1 },
                Key::DisplayName { room: r2, user: u2, name: n2 },
            ) => *r1 == *r2 && *u1 == *u2 && *n1 == *n2,
            (Key::AccountData { event_type: a }, Key::AccountData { event_type: b }) => *a == *b,
            (
                Key::RoomAccountData { room: r1, event_type: t1 },
                Key::RoomAccountData { room: r2, event_type: t2 },
            ) => *r1 == *r2 && *t1 == *t2,
            (Key::RoomInfo { room: a }, Key::RoomInfo { room: b }) => *a == *b,
            (Key::Presence { user: a }, Key::Presence { user: b }) => *a == *b,
            (
                Key::StrippedMember { room: r1, user: u1 },
                Key::StrippedMember { room: r2, user: u2 },
            ) => *r1 == *r2 && *u1 == *u2,
            (
                Key::StrippedState { room: r1, event_type: t1, state_key: s1 },
                Key::StrippedState { room: r2, event_type: t2, state_key: s2 },
            ) => *r1 == *r2 && *t1 == *t2 && *s1 == *s2,
            (
                Key::Receipt { room: r1, receipt_type: t1, user: u1 },
                Key::Receipt { room: r2, receipt_type: t2, user: u2 },
            ) => *r1 == *r2 && *t1 == *t2 && *u1 == *u2,
            (Key::Custom { key: a }, Key::Custom { key: b }) => *a == *b,
            (Key::Media { uri: u1, format: f1 }, Key::Media { uri: u2, format: f2 }) => {
                *u1 == *u2 && *f1 == *f2
            },
            (Key::PuppetMapping { user: a }, Key::PuppetMapping { user: b }) => *a == *b,
            _ => false,
        }
    }
}

impl Clone for Key {
    fn clone(&self) -> (r: Key)
        ensures
            r == *self,
    {
        match self {
            Key::SyncToken => Key::SyncToken,
            Key::Filter { name } => Key::Filter { name: name.clone() },
            Key::MemberStatus { room, user } => Key::MemberStatus {
                room: room.clone(),
                user: user.clone(),
            },
            Key::Member { room, user } => Key::Member { room: room.clone(), user: user.clone() },
            Key::Profile { room, user } => Key::Profile { room: room.clone(), user: user.clone() },
            Key::DisplayName { room, user, name } => Key::DisplayName {
                room: room.clone(),
                user: user.clone(),
                name: name.clone(),
            },
            Key::AccountData { event_type } => Key::AccountData { event_type: event_type.clone() },
            Key::RoomAccountData { room, event_type } => Key::RoomAccountData {
                room: room.clone(),
                event_type: event_type.clone(),
            },
            Key::RoomInfo { room } => Key::RoomInfo { room: room.clone() },
            Key::Presence { user } => Key::Presence { user: user.clone() },
            Key::StrippedMember { room, user } => Key::StrippedMember {
                room: room.clone(),
                user: user.clone(),
            },
            Key::StrippedState { room, event_type, state_key } => Key::StrippedState {
                room: room.clone(),
                event_type: event_type.clone(),
                state_key: state_key.clone(),
            },
            Key::Receipt { room, receipt_type, user } => Key::Receipt {
                room: room.clone(),
                receipt_type: receipt_type.clone(),
                user: user.clone(),
            },
            Key::Custom { key } => Key::Custom { key: *key },
            Key::Media { uri, format } => Key::Media { uri: uri.clone(), format: format.clone() },
            Key::PuppetMapping { user } => Key::PuppetMapping { user: user.clone() },
        }
    }
}

} // verus!
