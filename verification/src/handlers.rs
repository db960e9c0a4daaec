//! What the supervisor and the handlers decide: which handler an event goes
//! to, what becomes of a handler's failure, and what an event asks for.
use vstd::prelude::*;
use vstd::slice::slice_index_get;
use vstd::string::{StringSliceAdditionalSpecFns, is_ascii_spec_bytes};
use vstd::utf8::encode_utf8;
use crate::queue::{EventQueue, MemberNotice, MessageNotice, QueueError, QueueEvent, RoomKind};
use crate::retry::{Backoff, auto_join_policy};

verus! {

/// The handler of an event.
#[derive(Clone, Copy, Debug, PartialEq, Eq, Structural)]
pub enum Handler {
    /// The event asks for nothing.
    Nothing,
    RoomMember,
    RoomMessage,
}

/// The handler that an event goes to.
pub fn handle_event(event: &QueueEvent) -> (handler: Handler)
    ensures
        handler == match *event {
            QueueEvent::Close => Handler::Nothing,
            QueueEvent::RoomMemberEvent(_) => Handler::RoomMember,
            QueueEvent::RoomMessageEvent(_) => Handler::RoomMessage,
        },
{
    match event {
        QueueEvent::Close => Handler::Nothing,
        QueueEvent::RoomMemberEvent(_) => Handler::RoomMember,
        QueueEvent::RoomMessageEvent(_) => Handler::RoomMessage,
    }
}

/// How the unit that ran a handler ended.
#[derive(Debug, PartialEq, Eq)]
pub enum HandlerOutcome {
    Completed,
    /// The handler returned an error.
    Failed(String),
    /// The unit panicked or was aborted.
    Aborted(String),
}

/// What the supervisor makes of an outcome. It goes on in either case: no
/// outcome of a handler ends the loop.
#[derive(Debug, PartialEq, Eq)]
pub enum Supervision {
    /// Go on with the next event.
    Continue,
    /// Report the error to the monitoring and print it, then go on with the
    /// next event.
    ReportAndContinue(String),
}

/// What the supervisor makes of the outcome of a handler.
pub fn supervise(outcome: HandlerOutcome) -> (supervision: Supervision)
    ensures
        supervision == match outcome {
            HandlerOutcome::Completed => Supervision::Continue,
            HandlerOutcome::Failed(error) => Supervision::ReportAndContinue(error),
            HandlerOutcome::Aborted(error) => Supervision::ReportAndContinue(error),
        },
{
    match outcome {
        HandlerOutcome::Completed => Supervision::Continue,
        HandlerOutcome::Failed(error) => Supervision::ReportAndContinue(error),
        HandlerOutcome::Aborted(error) => Supervision::ReportAndContinue(error),
    }
}

/// Whether the protocol sync goes on.
#[derive(Clone, Copy, Debug, PartialEq, Eq, Structural)]
pub enum LoopControl {
    Continue,
    Break,
}

/// Whether the protocol sync goes on after an iteration: it stops once the
/// interrupt signal was seen.
pub fn after_sync(interrupted: bool) -> (control: LoopControl)
    ensures
        control == (if interrupted {
            LoopControl::Break
        } else {
            LoopControl::Continue
        }),
{
    if interrupted {
        LoopControl::Break
    } else {
        LoopControl::Continue
    }
}

/// Asks the queue to stop once the protocol sync has stopped: what is pending
/// is still run, and nothing more is accepted.
pub fn shutdown(queue: &mut EventQueue) -> (r: Result<(), QueueError>)
    ensures
        r is Ok <==> old(queue)@.accepts(QueueEvent::Close),
        final(queue)@ == old(queue)@.offer(QueueEvent::Close),
{
    queue.dispatch(QueueEvent::Close)
}

/// What a membership event asks for.
#[derive(Clone, Copy, Debug, PartialEq, Eq, Structural)]
pub enum MemberEventPlan {
    /// Nothing: the event is about another user, or no invitation is open.
    Ignore,
    /// Accept the invitation, under this retry policy.
    AutoJoin(Backoff),
}

/// What a membership event asks of the bot: an invitation of the bot itself
/// is accepted, under the retry policy for invitations.
pub fn handle_room_member_event(notice: &MemberNotice, bot_user_id: &str) -> (plan: MemberEventPlan)
    ensures
        plan == (if notice.state_key@ == bot_user_id@ && notice.room_kind is Invited {
            MemberEventPlan::AutoJoin(auto_join_policy())
        } else {
            MemberEventPlan::Ignore
        }),
{
    let bot = bot_user_id.to_owned();
    if notice.state_key == bot {
        match notice.room_kind {
            RoomKind::Invited => MemberEventPlan::AutoJoin(Backoff::auto_join()),
            _ => MemberEventPlan::Ignore,
        }
    } else {
        MemberEventPlan::Ignore
    }
}

/// The bytes of `needle` stand in `hay` from `at` on.
pub open spec fn occurs_at(hay: Seq<u8>, needle: Seq<u8>, at: int) -> bool {
    0 <= at && at + needle.len() <= hay.len() && hay.subrange(at, at + needle.len()) == needle
}

/// The bytes of `needle` stand somewhere in `hay`.
pub open spec fn occurs(hay: Seq<u8>, needle: Seq<u8>) -> bool {
    exists|at: int| occurs_at(hay, needle, at)
}

/// Whether the bytes of `needle` stand in `hay` from `at` on.
fn matches_at(hay: &[u8], needle: &[u8], at: usize) -> (b: bool)
    requires
        at + needle@.len() <= hay@.len(),
    ensures
        b == occurs_at(hay@, needle@, at as int),
{
    let hay_len: usize = hay.len();
    let mut i: usize = 0;
    while i < needle.len()
        invariant
            i <= needle@.len(),
            hay_len == hay@.len(),
            at + needle@.len() <= hay@.len(),
            forall|j: int| 0 <= j < i ==> hay@[at + j] == needle@[j],
        decreases needle@.len() - i,
    {
        if *slice_index_get(hay, at + i) != *slice_index_get(needle, i) {
            assert(hay@.subrange(at as int, at + needle@.len())[i as int] != needle@[i as int]);
            return false;
        }
        i += 1;
    }
    assert(hay@.subrange(at as int, at + needle@.len()) =~= needle@);
    true
}

/// Whether the bytes of `needle` stand somewhere in `hay`.
pub fn contains_bytes(hay: &[u8], needle: &[u8]) -> (b: bool)
    ensures
        b == occurs(hay@, needle@),
{
    if needle.len() > hay.len() {
        return false;
    }
    let last: usize = hay.len() - needle.len();
    let mut at: usize = 0;
    loop
        invariant
            at <= last,
            last == hay@.len() - needle@.len(),
            forall|k: int| 0 <= k < at ==> !occurs_at(hay@, needle@, k),
        decreases last - at,
    {
        if matches_at(hay, needle, at) {
            return true;
        }
        if at == last {
            return false;
        }
        at += 1;
    }
}

/// The bytes of the word `ping`.
pub open spec fn ping_bytes() -> Seq<u8> {
    seq![112u8, 105u8, 110u8, 103u8]
}

/// Whether the word `ping` stands in the UTF-8 bytes of the text.
pub fn mentions_ping(body: &str) -> (b: bool)
    ensures
        b == occurs(encode_utf8(body@), ping_bytes()),
{
    let word = "ping";
    proof {
        reveal_strlit("ping");
        is_ascii_spec_bytes(word);
        assert(word.spec_bytes() =~= ping_bytes());
    }
    contains_bytes(body.as_bytes(), word.as_bytes())
}

/// What a message asks for.
#[derive(Debug, PartialEq, Eq)]
pub enum MessagePlan {
    /// Nothing.
    Ignore,
    /// Provision the puppet of the guest user; the room is not one that the
    /// bot is joined to, so nothing is sent.
    Provision { guest_id: u64 },
    /// Provision the puppet of the guest user, invite it to the room, join
    /// the room on its behalf and send the text as the puppet.
    Reply { guest_id: u64, text: String },
}

/// What a message asks of the bridge: an unredacted message that holds the
/// word `ping` is answered with `pong` by the puppet of guest user 2, where
/// the bot is joined to the room.
pub fn handle_room_message_event(notice: &MessageNotice) -> (plan: MessagePlan)
    ensures
        match notice.body {
            Some(body) => if occurs(encode_utf8(body@), ping_bytes()) {
                if notice.room_kind is Joined {
                    plan matches MessagePlan::Reply { guest_id, text } && guest_id == 2 && text@
                        == "pong"@
                } else {
                    plan == (MessagePlan::Provision { guest_id: 2 })
                }
            } else {
                plan == MessagePlan::Ignore
            },
            None => plan == MessagePlan::Ignore,
        },
{
    match &notice.body {
        Some(body) => {
            if mentions_ping(body.as_str()) {
                match notice.room_kind {
                    RoomKind::Joined => MessagePlan::Reply { guest_id: 2, text: "pong".to_owned() },
                    _ => MessagePlan::Provision { guest_id: 2 },
                }
            } else {
                MessagePlan::Ignore
            }
        },
        None => MessagePlan::Ignore,
    }
}

} // verus!
