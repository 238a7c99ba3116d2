//! Decisions of a room actor. Each room has one actor that owns the room's state and handles
//! its commands one at a time; this module decides, for each command, the new state and the
//! ordered effects (replies, member sinks to add or drop, broadcasts, the closed signal) that
//! the task running the actor carries out on its channels.

use crate::app_error::{domain_to_app, AppError, AppErrorView};
use crate::error::DomainErrorView;
use crate::ids::{PlayerId, RoomId};
use crate::room::{try_join_spec, try_leave_spec, Room, RoomState, RoomView};
use crate::text::{trim, trim_spec};
use std::collections::HashMap;
use vstd::prelude::*;
use vstd::string::*;

verus! {

broadcast use {vstd::std_specs::hash::group_hash_axioms, vstd::string::group_string_axioms};

/// Capacity of each member's room-event channel.
pub const ROOM_EVENT_CAPACITY: usize = 64;

/// Longest chat text, in characters.
pub const MAX_CHAT_CHARS: usize = 512;

/// An event that the actor broadcasts to the members of its room.
#[derive(Debug, Clone, PartialEq, Eq)]
pub enum RoomEvent {
    MemberJoined { room_id: RoomId, player_id: PlayerId, nickname: String },
    MemberLeft { room_id: RoomId, player_id: PlayerId },
    Chat { room_id: RoomId, sender: PlayerId, nickname: String, text: String },
    Closed { room_id: RoomId, reason: String },
}

/// `RoomEvent` with its texts taken as character sequences.
pub enum RoomEventView {
    MemberJoined { room_id: RoomId, player_id: PlayerId, nickname: Seq<char> },
    MemberLeft { room_id: RoomId, player_id: PlayerId },
    Chat { room_id: RoomId, sender: PlayerId, nickname: Seq<char>, text: Seq<char> },
    Closed { room_id: RoomId, reason: Seq<char> },
}

impl View for RoomEvent {
    type V = RoomEventView;

    open spec fn view(&self) -> RoomEventView {
        match self {
            RoomEvent::MemberJoined { room_id, player_id, nickname } => RoomEventView::MemberJoined {
                room_id: *room_id,
                player_id: *player_id,
                nickname: nickname@,
            },
            RoomEvent::MemberLeft { room_id, player_id } => RoomEventView::MemberLeft {
                room_id: *room_id,
                player_id: *player_id,
            },
            RoomEvent::Chat { room_id, sender, nickname, text } => RoomEventView::Chat {
                room_id: *room_id,
                sender: *sender,
                nickname: nickname@,
                text: text@,
            },
            RoomEvent::Closed { room_id, reason } => RoomEventView::Closed {
                room_id: *room_id,
                reason: reason@,
            },
        }
    }
}

/// The room an event belongs to.
pub open spec fn event_room(e: RoomEventView) -> RoomId {
    match e {
        RoomEventView::MemberJoined { room_id, .. } => room_id,
        RoomEventView::MemberLeft { room_id, .. } => room_id,
        RoomEventView::Chat { room_id, .. } => room_id,
        RoomEventView::Closed { room_id, .. } => room_id,
    }
}

impl RoomEvent {
    pub fn room_id(&self) -> (r: RoomId)
        ensures
            r == event_room(self@),
    {
        match self {
            RoomEvent::MemberJoined { room_id, .. } => *room_id,
            RoomEvent::MemberLeft { room_id, .. } => *room_id,
            RoomEvent::Chat { room_id, .. } => *room_id,
            RoomEvent::Closed { room_id, .. } => *room_id,
        }
    }
}

/// A command, without the channels that come with it.
pub enum ActorCommand {
    Join { player_id: PlayerId, nickname: String },
    Chat { player_id: PlayerId, text: String },
    Leave { player_id: PlayerId, reason: String },
    Close { reason: String },
}

/// Something the actor's task must do, in the order given.
#[derive(Debug)]
pub enum ActorEffect {
    /// Keep the sink that came with the current Join as this member's event sink.
    AddMember(PlayerId),
    /// Answer the current Join on its reply channel.
    Reply(Result<(), AppError>),
    /// Offer the event to every member sink held now (a full sink drops it).
    Broadcast(RoomEvent),
    /// Drop this member's event sink.
    RemoveMember(PlayerId),
    /// Set the room's closed flag.
    SignalClosed,
}

/// `ActorEffect` taken by views.
pub enum EffectView {
    AddMember(PlayerId),
    Reply(Result<(), AppErrorView>),
    Broadcast(RoomEventView),
    RemoveMember(PlayerId),
    SignalClosed,
}

impl View for ActorEffect {
    type V = EffectView;

    open spec fn view(&self) -> EffectView {
        match self {
            ActorEffect::AddMember(p) => EffectView::AddMember(*p),
            ActorEffect::Reply(r) => EffectView::Reply(
                match r {
                    Ok(u) => Ok(*u),
                    Err(e) => Err(e@),
                },
            ),
            ActorEffect::Broadcast(e) => EffectView::Broadcast(e@),
            ActorEffect::RemoveMember(p) => EffectView::RemoveMember(*p),
            ActorEffect::SignalClosed => EffectView::SignalClosed,
        }
    }
}

/// Views of a sequence of effects.
pub open spec fn effects_view(v: Seq<ActorEffect>) -> Seq<EffectView> {
    v.map_values(|e: ActorEffect| e@)
}

/// Abstract state of an actor: its room, the nickname of each member it holds a sink for,
/// and whether anyone ever joined.
pub struct ActorModel {
    pub room: RoomView,
    pub nicknames: Map<u128, Seq<char>>,
    pub had_members: bool,
}

/// Closing: the room becomes Closed; `Closed` is broadcast only if it was open; the closed
/// flag is set either way.
pub open spec fn finish_spec(m: ActorModel, reason: Seq<char>) -> (ActorModel, Seq<EffectView>) {
    let room = RoomView { state: RoomState::Closed, ..m.room };
    (
        ActorModel { room, ..m },
        if !m.room.is_closed() {
            seq![
                EffectView::Broadcast(RoomEventView::Closed { room_id: m.room.id, reason }),
                EffectView::SignalClosed,
            ]
        } else {
            seq![EffectView::SignalClosed]
        },
    )
}

/// Join: a newcomer's sink is kept, the join is answered, then announced to all members
/// (the newcomer included); a repeated join is answered and nothing else; a refused join is
/// answered with the error.
pub open spec fn join_spec(m: ActorModel, p: PlayerId, nickname: Seq<char>) -> (ActorModel, Seq<EffectView>) {
    let (room, res) = try_join_spec(m.room, p);
    match res {
        Ok(true) => (
            ActorModel { room, nicknames: m.nicknames.insert(p.0, nickname), had_members: true },
            seq![
                EffectView::AddMember(p),
                EffectView::Reply(Ok(())),
                EffectView::Broadcast(
                    RoomEventView::MemberJoined { room_id: m.room.id, player_id: p, nickname },
                ),
            ],
        ),
        Ok(false) => (ActorModel { room, ..m }, seq![EffectView::Reply(Ok(()))]),
        Err(e) => (ActorModel { room, ..m }, seq![EffectView::Reply(Err(domain_to_app(e)))]),
    }
}

/// Chat: only a member's non-blank text of at most `MAX_CHAT_CHARS` characters is
/// broadcast, trimmed; anything else is ignored.
pub open spec fn chat_spec(m: ActorModel, p: PlayerId, text: Seq<char>) -> Seq<EffectView> {
    let t = trim_spec(text);
    if !m.nicknames.contains_key(p.0) || t.len() == 0 || t.len() > MAX_CHAT_CHARS {
        seq![]
    } else {
        seq![
            EffectView::Broadcast(
                RoomEventView::Chat {
                    room_id: m.room.id,
                    sender: p,
                    nickname: m.nicknames[p.0],
                    text: t,
                },
            ),
        ]
    }
}

/// Leave: a member's departure is broadcast to all members (the leaver included); if the
/// room had members and is now empty it closes; then the leaver's sink is dropped.
pub open spec fn leave_spec(m: ActorModel, p: PlayerId) -> (ActorModel, Seq<EffectView>) {
    let (room, res) = try_leave_spec(m.room, p);
    let m1 = ActorModel { room, ..m };
    match res {
        Ok(true) => {
            let (m2, fin) = if m1.had_members && room.members.len() == 0 {
                finish_spec(m1, "最后一名成员已离开"@)
            } else {
                (m1, Seq::<EffectView>::empty())
            };
            (
                ActorModel { nicknames: m2.nicknames.remove(p.0), ..m2 },
                seq![EffectView::Broadcast(RoomEventView::MemberLeft { room_id: m.room.id, player_id: p })]
                    + fin + seq![EffectView::RemoveMember(p)],
            )
        },
        _ => (m1, Seq::<EffectView>::empty()),
    }
}

/// Whether the actor stops after a Join, Chat or Leave: someone joined once and the room is
/// now empty.
pub open spec fn stops_after(m: ActorModel) -> bool {
    m.had_members && m.room.members.len() == 0
}


/// Every nickname the actor holds belongs to a current member, and the room is well formed.
pub open spec fn actor_wf(m: ActorModel) -> bool {
    &&& m.room.well_formed()
    &&& forall|k: u128| #[trigger] m.nicknames.contains_key(k) ==> m.room.members.contains(PlayerId(k))
}

/// A new actor over a well-formed room is well formed.
pub proof fn law_new_actor_is_well_formed(room: RoomView)
    requires
        room.well_formed(),
    ensures
        actor_wf(ActorModel { room, nicknames: Map::empty(), had_members: false }),
{
}

/// Every command keeps the actor well formed: members stay distinct and within capacity, and
/// the actor holds sinks only for current members.
pub proof fn law_commands_keep_actor_well_formed(m: ActorModel, p: PlayerId, text: Seq<char>, reason: Seq<char>)
    requires
        actor_wf(m),
    ensures
        actor_wf(join_spec(m, p, text).0),
        actor_wf(leave_spec(m, p).0),
        actor_wf(finish_spec(m, reason).0),
{
    crate::room::lemma_try_join_keeps_well_formed(m.room, p);
    crate::room::lemma_without(m.room.members, p);
    let (room, res) = try_join_spec(m.room, p);
    if res == Ok::<bool, DomainErrorView>(true) {
        let n = join_spec(m, p, text).0;
        assert forall|k: u128| #[trigger] n.nicknames.contains_key(k) implies n.room.members.contains(PlayerId(k)) by {
            if k != p.0 {
                assert(m.room.members.contains(PlayerId(k)));
                let i = choose|i: int| 0 <= i < m.room.members.len() && m.room.members[i] == PlayerId(k);
                assert(n.room.members[i] == PlayerId(k));
            } else {
                assert(n.room.members[n.room.members.len() - 1] == p);
            }
        }
    }
    let (lroom, lres) = try_leave_spec(m.room, p);
    if !m.room.is_closed() {
        let n = leave_spec(m, p).0;
        assert forall|k: u128| #[trigger] n.nicknames.contains_key(k) implies n.room.members.contains(PlayerId(k)) by {
            if lres == Ok::<bool, DomainErrorView>(true) {
                assert(k != p.0);
                assert(PlayerId(k) != p);
            } else {
                assert(m.room.members.contains(PlayerId(k)));
                assert(PlayerId(k) != p) by {
                    if PlayerId(k) == p {
                        assert(crate::room::without(m.room.members, p).len() == m.room.members.len());
                    }
                }
            }
        }
    }
}

/// A repeated join by a member of an open room changes nothing and is only answered.
pub proof fn law_repeat_join_is_idempotent(m: ActorModel, p: PlayerId, nickname: Seq<char>)
    requires
        !m.room.is_closed(),
        m.room.members.contains(p),
    ensures
        join_spec(m, p, nickname) == (m, seq![EffectView::Reply(Ok(()))]),
{
}

/// A closed room answers every join with the conflict "房间已关闭" and changes nothing.
pub proof fn law_closed_room_refuses_join(m: ActorModel, p: PlayerId, nickname: Seq<char>)
    requires
        m.room.is_closed(),
    ensures
        join_spec(m, p, nickname) == (m, seq![EffectView::Reply(Err(AppErrorView::Conflict("房间已关闭"@)))]),
{
}

/// An open, full room answers a newcomer with the conflict "房间已满" and changes nothing.
pub proof fn law_full_room_refuses_newcomer(m: ActorModel, p: PlayerId, nickname: Seq<char>)
    requires
        !m.room.is_closed(),
        m.room.is_full(),
        !m.room.members.contains(p),
    ensures
        join_spec(m, p, nickname) == (m, seq![EffectView::Reply(Err(AppErrorView::Conflict("房间已满"@)))]),
{
}

/// Chat from anyone the actor holds no sink for is ignored.
pub proof fn law_outsider_chat_is_ignored(m: ActorModel, p: PlayerId, text: Seq<char>)
    requires
        !m.nicknames.contains_key(p.0),
    ensures
        chat_spec(m, p, text) == Seq::<EffectView>::empty(),
{
}

/// When the last member of a room that had members leaves, everyone still holding a sink
/// sees the departure and then `Closed`, the closed flag is set, the leaver's sink is dropped
/// last, the room is closed and the actor stops.
pub proof fn law_last_member_leaving_closes_room(m: ActorModel, p: PlayerId)
    requires
        m.had_members,
        !m.room.is_closed(),
        m.room.members == seq![p],
    ensures
        leave_spec(m, p).1 == seq![
            EffectView::Broadcast(RoomEventView::MemberLeft { room_id: m.room.id, player_id: p }),
            EffectView::Broadcast(RoomEventView::Closed { room_id: m.room.id, reason: "最后一名成员已离开"@ }),
            EffectView::SignalClosed,
            EffectView::RemoveMember(p),
        ],
        leave_spec(m, p).0.room.is_closed(),
        stops_after(leave_spec(m, p).0),
{
    assert(m.room.members.drop_last() =~= Seq::<PlayerId>::empty());
    assert(crate::room::without(Seq::<PlayerId>::empty(), p) == Seq::<PlayerId>::empty());
    assert(m.room.members.last() == p);
    assert(crate::room::without(m.room.members, p) == Seq::<PlayerId>::empty());
    let (m2, fin) = finish_spec(ActorModel { room: try_leave_spec(m.room, p).0, ..m }, "最后一名成员已离开"@);
    assert(leave_spec(m, p).1 =~= seq![
            EffectView::Broadcast(RoomEventView::MemberLeft { room_id: m.room.id, player_id: p }),
            EffectView::Broadcast(RoomEventView::Closed { room_id: m.room.id, reason: "最后一名成员已离开"@ }),
            EffectView::SignalClosed,
            EffectView::RemoveMember(p),
        ]);
}

/// `Closed` is broadcast at most once: closing a closed room only sets the closed flag again.
pub proof fn law_close_is_announced_once(m: ActorModel, r1: Seq<char>, r2: Seq<char>)
    ensures
        finish_spec(finish_spec(m, r1).0, r2).1 == seq![EffectView::SignalClosed],
        finish_spec(finish_spec(m, r1).0, r2).0 == finish_spec(m, r1).0,
{
}

/// The state that a room actor keeps.
pub struct RoomActorState {
    room: Room,
    nicknames: HashMap<u128, String>,
    had_members: bool,
}

impl View for RoomActorState {
    type V = ActorModel;

    closed spec fn view(&self) -> ActorModel {
        ActorModel {
            room: self.room@,
            nicknames: self.nicknames@.map_values(|s: String| s@),
            had_members: self.had_members,
        }
    }
}

impl RoomActorState {
    /// The state of a new actor for `room`: no member sinks, nobody joined yet.
    pub fn new(room: Room) -> (s: RoomActorState)
        ensures
            s@.room == room@,
            s@.nicknames == Map::<u128, Seq<char>>::empty(),
            !s@.had_members,
    {
        let s = RoomActorState { room, nicknames: HashMap::new(), had_members: false };
        assert(s@.nicknames =~= Map::<u128, Seq<char>>::empty());
        s
    }

    pub fn room_id(&self) -> (r: RoomId)
        ensures
            r == self@.room.id,
    {
        self.room.id()
    }

    pub fn room(&self) -> (r: &Room)
        ensures
            r@ == self@.room,
    {
        &self.room
    }

    /// Closes the room with `reason`.
    pub fn finish(&mut self, reason: &str) -> (effects: Vec<ActorEffect>)
        ensures
            (final(self)@, effects_view(effects@)) == finish_spec(old(self)@, reason@),
    {
        let ghost m0 = self@;
        let mut effects: Vec<ActorEffect> = Vec::new();
        let id = self.room.id();
        if self.room.close() {
            effects.push(
                ActorEffect::Broadcast(RoomEvent::Closed { room_id: id, reason: String::from_str(reason) }),
            );
        }
        effects.push(ActorEffect::SignalClosed);
        proof {
            let (m1, es) = finish_spec(m0, reason@);
            assert(self@.room == m1.room);
            assert(self@.nicknames == m1.nicknames);
            assert(effects_view(effects@) =~= es);
        }
        effects
    }

    fn handle_join(&mut self, player_id: PlayerId, nickname: String) -> (effects: Vec<ActorEffect>)
        ensures
            (final(self)@, effects_view(effects@)) == join_spec(old(self)@, player_id, nickname@),
    {
        let ghost m0 = self@;
        let ghost nick = nickname@;
        let mut effects: Vec<ActorEffect> = Vec::new();
        let id = self.room.id();
        match self.room.try_join(player_id) {
            Ok(true) => {
                let announced = nickname.clone();
                self.nicknames.insert(player_id.0, nickname);
                self.had_members = true;
                effects.push(ActorEffect::AddMember(player_id));
                effects.push(ActorEffect::Reply(Ok(())));
                effects.push(
                    ActorEffect::Broadcast(
                        RoomEvent::MemberJoined { room_id: id, player_id, nickname: announced },
                    ),
                );
                proof {
                    assert(self@.nicknames =~= m0.nicknames.insert(player_id.0, nick));
                }
            },
            Ok(false) => {
                effects.push(ActorEffect::Reply(Ok(())));
            },
            Err(e) => {
                effects.push(ActorEffect::Reply(Err(AppError::from_domain(e))));
            },
        }
        proof {
            assert(effects_view(effects@) =~= join_spec(m0, player_id, nick).1);
        }
        effects
    }

    fn handle_chat(&mut self, player_id: PlayerId, text: String) -> (effects: Vec<ActorEffect>)
        ensures
            final(self)@ == old(self)@,
            effects_view(effects@) == chat_spec(old(self)@, player_id, text@),
    {
        let mut effects: Vec<ActorEffect> = Vec::new();
        let nickname = match self.nicknames.get(&player_id.0) {
            Some(n) => n.clone(),
            None => {
                assert(effects_view(effects@) =~= chat_spec(self@, player_id, text@));
                return effects;
            },
        };
        let trimmed = trim(text.as_str());
        let count = trimmed.unicode_len();
        if count == 0 || count > MAX_CHAT_CHARS {
            assert(effects_view(effects@) =~= chat_spec(self@, player_id, text@));
            return effects;
        }
        effects.push(
            ActorEffect::Broadcast(
                RoomEvent::Chat {
                    room_id: self.room.id(),
                    sender: player_id,
                    nickname,
                    text: String::from_str(trimmed),
                },
            ),
        );
        assert(effects_view(effects@) =~= chat_spec(self@, player_id, text@));
        effects
    }

    fn handle_leave(&mut self, player_id: PlayerId) -> (effects: Vec<ActorEffect>)
        ensures
            (final(self)@, effects_view(effects@)) == leave_spec(old(self)@, player_id),
    {
        let ghost m0 = self@;
        let mut effects: Vec<ActorEffect> = Vec::new();
        let id = self.room.id();
        match self.room.try_leave(player_id) {
            Ok(true) => {
                effects.push(
                    ActorEffect::Broadcast(RoomEvent::MemberLeft { room_id: id, player_id }),
                );
                let ghost m1 = self@;
                if self.had_members && self.room.member_count() == 0 {
                    let mut fin = self.finish("最后一名成员已离开");
                    effects.append(&mut fin);
                }
                let ghost m2 = self@;
                self.nicknames.remove(&player_id.0);
                effects.push(ActorEffect::RemoveMember(player_id));
                proof {
                    assert(self@.nicknames =~= m2.nicknames.remove(player_id.0));
                    assert(effects_view(effects@) =~= leave_spec(m0, player_id).1);
                }
            },
            _ => {
                assert(effects_view(effects@) =~= Seq::<EffectView>::empty());
            },
        }
        effects
    }

    /// Handles one command: the effects to carry out, and whether the actor stops.
    pub fn handle(&mut self, command: ActorCommand) -> (r: (Vec<ActorEffect>, bool))
        ensures
            match command {
                ActorCommand::Join { player_id, nickname } => (final(self)@, effects_view(r.0@))
                    == join_spec(old(self)@, player_id, nickname@) && r.1 == stops_after(final(self)@),
                ActorCommand::Chat { player_id, text } => final(self)@ == old(self)@
                    && effects_view(r.0@) == chat_spec(old(self)@, player_id, text@) && r.1
                    == stops_after(final(self)@),
                ActorCommand::Leave { player_id, .. } => (final(self)@, effects_view(r.0@))
                    == leave_spec(old(self)@, player_id) && r.1 == stops_after(final(self)@),
                ActorCommand::Close { reason } => (final(self)@, effects_view(r.0@)) == finish_spec(
                    old(self)@,
                    reason@,
                ) && r.1,
            },
    {
        let effects = match command {
            ActorCommand::Join { player_id, nickname } => self.handle_join(player_id, nickname),
            ActorCommand::Chat { player_id, text } => self.handle_chat(player_id, text),
            ActorCommand::Leave { player_id, reason } => self.handle_leave(player_id),
            ActorCommand::Close { reason } => {
                let effects = self.finish(reason.as_str());
                return (effects, true);
            },
        };
        let stop = self.had_members && self.room.member_count() == 0;
        (effects, stop)
    }
}

} // verus!
