//! The session of one client: its private sync cursor, the steps by which it
//! joins a room, and the device and login that it keeps across restarts.
use vstd::prelude::*;
use vstd::utf8::{decode_utf8, valid_utf8};
use crate::puppet::name_of;
use crate::registration::is_alphanumeric_text;

verus! {

/// What a private sync asks the home server for.
#[derive(Debug, PartialEq, Eq)]
pub struct SyncRequest {
    /// How long the server may hold the request, in seconds.
    pub timeout_secs: u64,
    /// The cursor to continue from, where there is one.
    pub since: Option<String>,
}

/// The sync cursor of a client as contracts see it.
pub struct CursorModel {
    /// The cursor that the last answered sync brought.
    pub token: Option<Seq<char>>,
    /// Whether a sync was begun and is not answered yet.
    pub syncing: bool,
}

/// The sync cursor of one client, and whether a sync of the client is in
/// flight: one is at a time.
#[derive(Debug)]
pub struct SyncCursor {
    token: Option<String>,
    syncing: bool,
}

impl View for SyncCursor {
    type V = CursorModel;

    closed spec fn view(&self) -> CursorModel {
        CursorModel { token: name_of(self.token), syncing: self.syncing }
    }
}

impl SyncCursor {
    /// The cursor of a client that has not synced yet.
    pub fn new() -> (cursor: SyncCursor)
        ensures
            cursor@.token is None,
            !cursor@.syncing,
    {
        SyncCursor { token: None, syncing: false }
    }

    /// Begins a sync, unless one is in flight. The request does not wait, and
    /// continues from the cursor where there is one.
    pub fn begin(&mut self) -> (request: Option<SyncRequest>)
        ensures
            final(self)@.token == old(self)@.token,
            final(self)@.syncing,
            request is Some == !old(self)@.syncing,
            request matches Some(r) ==> r.timeout_secs == 0 && name_of(r.since) == old(self)@.token,
    {
        if self.syncing {
            None
        } else {
            self.syncing = true;
            Some(SyncRequest { timeout_secs: 0, since: self.token.clone() })
        }
    }

    /// Ends the sync in flight with the cursor that its answer brought. With
    /// no sync in flight the cursor is not taken.
    pub fn finish(&mut self, next_batch: String) -> (taken: bool)
        ensures
            taken == old(self)@.syncing,
            !final(self)@.syncing,
            final(self)@.token == (if taken {
                Some(next_batch@)
            } else {
                old(self)@.token
            }),
    {
        if self.syncing {
            self.token = Some(next_batch);
            self.syncing = false;
            true
        } else {
            false
        }
    }

    /// Ends the sync in flight without an answer: the cursor stays.
    pub fn abandon(&mut self)
        ensures
            final(self)@.token == old(self)@.token,
            !final(self)@.syncing,
    {
        self.syncing = false;
    }
}

/// How a room looks to a client after a sync.
#[derive(Clone, Copy, Debug, PartialEq, Eq, Structural)]
pub enum RoomView {
    /// The client does not see the room.
    Absent,
    Invited,
    Joined,
    Left,
}

/// Where the joining of a room stands.
#[derive(Clone, Copy, Debug, PartialEq, Eq, Structural)]
pub enum JoinState {
    /// The first sync is under way.
    Refreshing,
    /// The invitation is being accepted.
    Accepting,
    /// The second sync is under way.
    Confirming,
    /// The room was handed back, or the joining failed.
    Finished,
}

/// What happened since the last step.
#[derive(Debug, PartialEq, Eq)]
pub enum JoinEvent {
    /// A sync came back: the room now looks like this.
    Synced(RoomView),
    /// The invitation was accepted.
    Accepted,
    /// The sync or the acceptance failed, with the reason.
    Failed(String),
}

/// Why a room was not joined.
#[derive(Debug, PartialEq, Eq)]
pub enum JoinError {
    /// The client does not see the room, even after the second sync.
    RoomNotFound,
    /// A sync or the acceptance failed, with the reason.
    Upstream(String),
    /// An event came that the step under way does not end with.
    OutOfTurn,
}

/// What the caller does next.
#[derive(Debug, PartialEq, Eq)]
pub enum JoinAction {
    /// Sync once, without waiting.
    Sync,
    /// Accept the invitation to the room.
    AcceptInvitation,
    /// Hand the room back as it looks now.
    Return(RoomView),
    /// Give up.
    Fail(JoinError),
}

/// The step that an event leads to. A room that is joined after the first
/// sync is handed back, and so is one that the client has left; one that is
/// not seen, or seen as an invitation, has its invitation accepted and is
/// looked at again after a second sync, which has to show it.
pub open spec fn join_step(state: JoinState, event: JoinEvent) -> (JoinState, JoinAction) {
    match (state, event) {
        (JoinState::Finished, _) => (JoinState::Finished, JoinAction::Fail(JoinError::OutOfTurn)),
        (_, JoinEvent::Failed(reason)) => (
            JoinState::Finished,
            JoinAction::Fail(JoinError::Upstream(reason)),
        ),
        (JoinState::Refreshing, JoinEvent::Synced(RoomView::Joined)) => (
            JoinState::Finished,
            JoinAction::Return(RoomView::Joined),
        ),
        (JoinState::Refreshing, JoinEvent::Synced(RoomView::Left)) => (
            JoinState::Finished,
            JoinAction::Return(RoomView::Left),
        ),
        (JoinState::Refreshing, JoinEvent::Synced(_)) => (
            JoinState::Accepting,
            JoinAction::AcceptInvitation,
        ),
        (JoinState::Accepting, JoinEvent::Accepted) => (JoinState::Confirming, JoinAction::Sync),
        (JoinState::Confirming, JoinEvent::Synced(RoomView::Absent)) => (
            JoinState::Finished,
            JoinAction::Fail(JoinError::RoomNotFound),
        ),
        (JoinState::Confirming, JoinEvent::Synced(view)) => (
            JoinState::Finished,
            JoinAction::Return(view),
        ),
        _ => (JoinState::Finished, JoinAction::Fail(JoinError::OutOfTurn)),
    }
}

/// The state after the events, taken in order.
pub open spec fn join_state_after(state: JoinState, events: Seq<JoinEvent>) -> JoinState
    decreases events.len(),
{
    if events.len() == 0 {
        state
    } else {
        join_step(join_state_after(state, events.drop_last()), events.last()).0
    }
}

/// The joining of one room on behalf of one client.
#[derive(Debug)]
pub struct JoinFlow {
    state: JoinState,
}

impl View for JoinFlow {
    type V = JoinState;

    closed spec fn view(&self) -> JoinState {
        self.state
    }
}

impl JoinFlow {
    /// Begins to join a room. The caller starts with a sync.
    pub fn start() -> (r: (JoinFlow, JoinAction))
        ensures
            r.0@ == JoinState::Refreshing,
            r.1 == JoinAction::Sync,
    {
        (JoinFlow { state: JoinState::Refreshing }, JoinAction::Sync)
    }

    /// Where the joining stands.
    pub fn state(&self) -> (state: JoinState)
        ensures
            state == self@,
    {
        self.state
    }

    /// Takes note of what happened and says what to do next.
    pub fn on_event(&mut self, event: JoinEvent) -> (action: JoinAction)
        ensures
            (final(self)@, action) == join_step(old(self)@, event),
    {
        let (state, action) = match (self.state, event) {
            (JoinState::Finished, _) => (JoinState::Finished, JoinAction::Fail(JoinError::OutOfTurn)),
            (_, JoinEvent::Failed(reason)) => (
                JoinState::Finished,
                JoinAction::Fail(JoinError::Upstream(reason)),
            ),
            (JoinState::Refreshing, JoinEvent::Synced(RoomView::Joined)) => (
                JoinState::Finished,
                JoinAction::Return(RoomView::Joined),
            ),
            (JoinState::Refreshing, JoinEvent::Synced(RoomView::Left)) => (
                JoinState::Finished,
                JoinAction::Return(RoomView::Left),
            ),
            (JoinState::Refreshing, JoinEvent::Synced(_)) => (
                JoinState::Accepting,
                JoinAction::AcceptInvitation,
            ),
            (JoinState::Accepting, JoinEvent::Accepted) => (JoinState::Confirming, JoinAction::Sync),
            (JoinState::Confirming, JoinEvent::Synced(RoomView::Absent)) => (
                JoinState::Finished,
                JoinAction::Fail(JoinError::RoomNotFound),
            ),
            (JoinState::Confirming, JoinEvent::Synced(view)) => (
                JoinState::Finished,
                JoinAction::Return(view),
            ),
            _ => (JoinState::Finished, JoinAction::Fail(JoinError::OutOfTurn)),
        };
        self.state = state;
        action
    }
}

/// The joining of a room is over after three events at the latest, whatever
/// they are: it takes at most two syncs and one acceptance.
pub proof fn lemma_join_ends(events: Seq<JoinEvent>)
    requires
        events.len() >= 3,
    ensures
        join_state_after(JoinState::Refreshing, events) == JoinState::Finished,
    decreases events.len(),
{
    if events.len() == 3 {
        let two = events.drop_last();
        let one = two.drop_last();
        let none = one.drop_last();
        assert(none.len() == 0);
        let s0 = join_state_after(JoinState::Refreshing, none);
        let s1 = join_state_after(JoinState::Refreshing, one);
        let s2 = join_state_after(JoinState::Refreshing, two);
        assert(s0 == JoinState::Refreshing);
        assert(s1 == join_step(s0, one.last()).0);
        assert(s1 == JoinState::Accepting || s1 == JoinState::Finished);
        assert(s2 == join_step(s1, two.last()).0);
        assert(s2 == JoinState::Confirming || s2 == JoinState::Finished);
    } else {
        lemma_join_ends(events.drop_last());
    }
}

/// Calls `String::from_utf8` of std: the text that the bytes encode, or
/// `None` where they are not UTF-8.
#[verifier::external_body]
fn text_from_utf8(bytes: Vec<u8>) -> (text: Option<String>)
    ensures
        text is Some == valid_utf8(bytes@),
        text matches Some(t) ==> t@ == decode_utf8(bytes@),
{
    String::from_utf8(bytes).ok()
}

/// Calls `DeviceId::new` of ruma, as matrix-sdk exports it: a random device
/// id of eight ASCII letters and digits. Which ones is left open.
#[verifier::external_body]
fn random_device_id() -> (id: String)
    ensures
        is_alphanumeric_text(id@, 8),
{
    matrix_sdk::ruma::DeviceId::new().as_str().to_owned()
}

/// Where the device id of the bridge's session comes from.
#[derive(Debug, PartialEq, Eq)]
pub enum DeviceIdSource {
    /// The store holds it.
    Stored(String),
    /// The store holds none: this new one is to be stored.
    Created(String),
    /// What the store holds is no text.
    Corrupt,
}

/// The device id of a session, given the blob that the store holds under the
/// key of the device id: the stored one where the blob is text, a new one of
/// eight letters and digits where there is no blob.
pub fn device_id(stored: Option<Vec<u8>>) -> (source: DeviceIdSource)
    ensures
        match stored {
            Some(bytes) => if valid_utf8(bytes@) {
                source matches DeviceIdSource::Stored(id) && id@ == decode_utf8(bytes@)
            } else {
                source == DeviceIdSource::Corrupt
            },
            None => source matches DeviceIdSource::Created(id) && is_alphanumeric_text(id@, 8),
        },
{
    match stored {
        Some(bytes) => match text_from_utf8(bytes) {
            Some(id) => DeviceIdSource::Stored(id),
            None => DeviceIdSource::Corrupt,
        },
        None => DeviceIdSource::Created(random_device_id()),
    }
}

/// Where the login of the bridge's session comes from.
#[derive(Debug, PartialEq, Eq)]
pub enum SessionSource {
    /// The store holds a serialized session: restore it.
    Cached(Vec<u8>),
    /// The store holds none: log in as an application service under this
    /// device name, and store the session that the login gives.
    Login { device_name: String },
}

/// The login of a session, given the blob that the store holds under the key
/// of the session.
pub fn client_session(stored: Option<Vec<u8>>) -> (source: SessionSource)
    ensures
        match stored {
            Some(bytes) => source == SessionSource::Cached(bytes),
            None => source matches SessionSource::Login { device_name } && device_name@
                == "discordbot"@,
        },
{
    match stored {
        Some(bytes) => SessionSource::Cached(bytes),
        None => SessionSource::Login { device_name: "discordbot".to_owned() },
    }
}

} // verus!
