//! Decisions of the room service, the facade over all room actors: which room a join goes
//! to, how chat input is checked before it is queued, which error each delivery failure
//! becomes, which events are published, and and the events published; the live rooms themselves are held in a `Registry`.

use crate::app_error::{AppError, AppErrorView};
use crate::events::DomainEvent;
use crate::ids::{PlayerId, RoomId, uuid_variant, uuid_version};
use crate::room::{MAX_ROOM_PLAYERS, Room, RoomState, clamp_spec};
use crate::room_actor::{ActorModel, EffectView, MAX_CHAT_CHARS, RoomEventView, chat_spec};
use crate::text::{
    law_trim_is_idempotent, law_trimmed_ends_are_not_white_space, law_white_space_trims_to_nothing,
    trim, trim_spec, unicode_white_space,
};
use crate::time::UtcTime;
use vstd::prelude::*;
use vstd::string::*;

verus! {

/// Settings of the room service.
#[derive(Debug, Clone, Copy)]
pub struct RoomServiceConfig {
    /// Capacity of each room actor's command queue (bounded back-pressure).
    pub command_capacity: usize,
    /// Most players one room holds.
    pub max_players: u32,
}

impl RoomServiceConfig {
    /// The room that a join without a room id opens: empty, waiting, with the configured
    /// capacity clamped to `1..=MAX_ROOM_PLAYERS`.
    pub fn open_room(&self, now: UtcTime) -> (r: Room)
        ensures
            r@.members == Seq::<PlayerId>::empty(),
            r@.max_players == clamp_spec(self.max_players, 1, MAX_ROOM_PLAYERS),
            r@.state == RoomState::Waiting,
            r@.created_at == now,
            uuid_version(r@.id.0) == 7,
            uuid_variant(r@.id.0) == 2,
            r@.well_formed(),
    {
        Room::open(self.max_players, now)
    }
}

/// What chat input becomes: trimmed; refused when blank or longer than `MAX_CHAT_CHARS`
/// characters.
pub open spec fn chat_rule(text: Seq<char>) -> Result<Seq<char>, AppErrorView> {
    let t = trim_spec(text);
    if t.len() == 0 {
        Err(AppErrorView::Validation("聊天内容不能为空"@))
    } else if t.len() > MAX_CHAT_CHARS {
        Err(AppErrorView::Validation("聊天内容不能超过 512 字"@))
    } else {
        Ok(t)
    }
}

/// Checks chat input before it is queued; the queued text is the trimmed one.
pub fn validate_chat(text: &str) -> (r: Result<String, AppError>)
    ensures
        match r {
            Ok(s) => chat_rule(text@) == Ok::<Seq<char>, AppErrorView>(s@),
            Err(e) => chat_rule(text@) == Err::<Seq<char>, AppErrorView>(e@),
        },
{
    let t = trim(text);
    let n = t.unicode_len();
    if n == 0 {
        return Err(AppError::Validation(String::from_str("聊天内容不能为空")));
    }
    if n > MAX_CHAT_CHARS {
        return Err(AppError::Validation(String::from_str("聊天内容不能超过 512 字")));
    }
    Ok(t.to_string())
}

/// Chat, once the room was looked up: the input is checked first; then a room without a
/// live actor is missing; otherwise the trimmed text is what gets queued.
pub fn chat_plan(text: &str, handle_live: bool) -> (r: Result<String, AppError>)
    ensures
        match chat_rule(text@) {
            Err(e) => r matches Err(err) && err@ == e,
            Ok(t) => if handle_live {
                r matches Ok(s) && s@ == t
            } else {
                r matches Err(err) && err@ == missing_room_spec()
            },
        },
{
    let t = validate_chat(text)?;
    if !handle_live {
        return Err(missing_room());
    }
    Ok(t)
}

/// Leave, once the room was looked up: with no live actor the leave is done already
/// (`false`: nothing is sent and nothing published); otherwise the leave is queued.
pub fn leave_plan(handle_live: bool) -> (send: bool)
    ensures
        send == handle_live,
{
    handle_live
}

/// Leave, after queueing: a failed queueing is reported and nothing is published; a queued
/// leave is published as a left-room event stamped `at`.
pub fn leave_outcome(sent: Result<(), AppError>, room_id: RoomId, player_id: PlayerId, at: UtcTime) -> (r: (
    Result<(), AppError>,
    Option<DomainEvent>,
))
    ensures
        match sent {
            Err(e) => r.0 == Err::<(), AppError>(e) && r.1 is None,
            Ok(_) => r.0 is Ok && (r.1 matches Some(DomainEvent::PlayerLeftRoom { room_id: ri, player_id: pi, reason, at: t })
                && ri == room_id && pi == player_id && reason@ == "client leave"@ && t == at),
        },
{
    match sent {
        Err(e) => (Err(e), None),
        Ok(()) => (Ok(()), Some(left_event(room_id, player_id, at))),
    }
}

/// The error of a command addressed to a room that the registry does not hold.
pub open spec fn missing_room_spec() -> AppErrorView {
    AppErrorView::NotFound("房间不存在"@)
}

/// A room that the registry does not hold (or whose actor has stopped).
pub fn missing_room() -> (e: AppError)
    ensures
        e@ == missing_room_spec(),
{
    AppError::NotFound(String::from_str("房间不存在"))
}

/// Why a non-blocking delivery to a room actor failed.
#[derive(Debug, Clone, Copy, PartialEq, Eq, Structural)]
pub enum SendFailure {
    /// The command queue is full.
    Full,
    /// The actor has stopped.
    Closed,
}

/// The error of a failed non-blocking delivery: a full queue is `Busy`, a stopped actor is a
/// missing room.
pub fn try_send_error(failure: SendFailure) -> (e: AppError)
    ensures
        failure == SendFailure::Full ==> e@ == AppErrorView::Busy,
        failure == SendFailure::Closed ==> e@ == missing_room_spec(),
{
    match failure {
        SendFailure::Full => AppError::Busy,
        SendFailure::Closed => missing_room(),
    }
}

/// What a join learns from the actor's answer: the answer itself, or, when the actor
/// stopped before answering, an internal error.
pub fn join_reply(reply: Option<Result<(), AppError>>) -> (r: Result<(), AppError>)
    ensures
        match reply {
            Some(Ok(())) => r is Ok,
            Some(Err(e)) => r == Err::<(), AppError>(e),
            None => match r {
                Err(e) => e@ == AppErrorView::Internal("房间已关闭,加入结果未知"@),
                Ok(_) => false,
            },
        },
{
    match reply {
        Some(answer) => answer,
        None => Err(AppError::Internal(String::from_str("房间已关闭,加入结果未知"))),
    }
}

/// The event published after a successful join.
pub fn joined_event(room_id: RoomId, player_id: PlayerId, at: UtcTime) -> (e: DomainEvent)
    ensures
        e == (DomainEvent::PlayerJoinedRoom { room_id, player_id, at }),
{
    DomainEvent::PlayerJoinedRoom { room_id, player_id, at }
}

/// The event published after a leave was queued; its reason is always "client leave".
pub fn left_event(room_id: RoomId, player_id: PlayerId, at: UtcTime) -> (e: DomainEvent)
    ensures
        match e {
            DomainEvent::PlayerLeftRoom { room_id: r, player_id: p, reason, at: t } => {
                &&& r == room_id
                &&& p == player_id
                &&& reason@ == "client leave"@
                &&& t == at
            },
            _ => false,
        },
{
    DomainEvent::PlayerLeftRoom { room_id, player_id, reason: String::from_str("client leave"), at }
}

/// Text the service accepted passes the actor's own check unchanged: a member's validated
/// chat is broadcast exactly as it was queued.
pub proof fn law_validated_chat_reaches_room_unchanged(m: ActorModel, p: PlayerId, text: Seq<char>)
    requires
        chat_rule(text) is Ok,
        m.nicknames.contains_key(p.0),
    ensures
        chat_spec(m, p, chat_rule(text)->Ok_0) == seq![
            EffectView::Broadcast(
                RoomEventView::Chat {
                    room_id: m.room.id,
                    sender: p,
                    nickname: m.nicknames[p.0],
                    text: chat_rule(text)->Ok_0,
                },
            ),
        ],
{
    law_trim_is_idempotent(text);
}

/// Blank chat is refused: a text made only of `White_Space` characters (the full-width
/// space of CJK input included) is refused as empty; accepted text has no `White_Space` at
/// either end and holds 1..=`MAX_CHAT_CHARS` characters.
pub proof fn law_blank_chat_is_refused(text: Seq<char>)
    ensures
        (forall|i: int| 0 <= i < text.len() ==> unicode_white_space(#[trigger] text[i])) ==> chat_rule(text)
            == Err::<Seq<char>, AppErrorView>(AppErrorView::Validation("聊天内容不能为空"@)),
        chat_rule(text) matches Ok(t) ==> (0 < t.len() <= MAX_CHAT_CHARS && !unicode_white_space(t[0])
            && !unicode_white_space(t.last())),
{
    if forall|i: int| 0 <= i < text.len() ==> unicode_white_space(#[trigger] text[i]) {
        law_white_space_trims_to_nothing(text);
    }
    law_trimmed_ends_are_not_white_space(text);
}

/// Checking accepted chat text again accepts it unchanged.
pub proof fn law_chat_check_is_idempotent(text: Seq<char>)
    requires
        chat_rule(text) is Ok,
    ensures
        chat_rule(chat_rule(text)->Ok_0) == chat_rule(text),
{
    law_trim_is_idempotent(text);
}

} // verus!
