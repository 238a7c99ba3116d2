//! Room aggregate: membership and the lifecycle state machine. The live state of a room is
//! held by its actor, which drives this aggregate command by command.

use crate::error::{DomainError, DomainErrorView};
use crate::ids::{fresh_uuid, uuid_variant, uuid_version, PlayerId, RoomId};
use crate::time::UtcTime;
use vstd::prelude::*;
use vstd::string::*;

verus! {

/// Lifecycle of a room.
#[derive(Debug, Clone, Copy, PartialEq, Eq, Structural)]
pub enum RoomState {
    Waiting,
    InProgress,
    Settling,
    Closed,
}

/// Display name of a room state.
pub open spec fn state_name(s: RoomState) -> Seq<char> {
    match s {
        RoomState::Waiting => "Waiting"@,
        RoomState::InProgress => "InProgress"@,
        RoomState::Settling => "Settling"@,
        RoomState::Closed => "Closed"@,
    }
}

/// The only allowed moves: Waiting → InProgress → Settling → Closed.
pub open spec fn transition_allowed(from: RoomState, to: RoomState) -> bool {
    ||| from == RoomState::Waiting && to == RoomState::InProgress
    ||| from == RoomState::InProgress && to == RoomState::Settling
    ||| from == RoomState::Settling && to == RoomState::Closed
}

impl RoomState {
    /// Display name of this state.
    pub fn name(&self) -> (s: &'static str)
        ensures
            s@ == state_name(*self),
    {
        match self {
            RoomState::Waiting => "Waiting",
            RoomState::InProgress => "InProgress",
            RoomState::Settling => "Settling",
            RoomState::Closed => "Closed",
        }
    }

    /// Display text of this state.
    pub fn to_string(&self) -> (s: String)
        ensures
            s@ == state_name(*self),
    {
        String::from_str(self.name())
    }
}

/// Hard cap on room size.
pub const MAX_ROOM_PLAYERS: u32 = 1024;

/// `v` clamped to `lo..=hi`.
pub open spec fn clamp_spec(v: u32, lo: u32, hi: u32) -> u32 {
    if v < lo {
        lo
    } else if v > hi {
        hi
    } else {
        v
    }
}

/// Room aggregate root.
#[derive(Debug, Clone)]
pub struct Room {
    id: RoomId,
    members: Vec<PlayerId>,
    max_players: u32,
    state: RoomState,
    created_at: UtcTime,
}

/// Abstract state of a room.
pub struct RoomView {
    pub id: RoomId,
    pub members: Seq<PlayerId>,
    pub max_players: u32,
    pub state: RoomState,
    pub created_at: UtcTime,
}

impl RoomView {
    pub open spec fn is_full(self) -> bool {
        self.members.len() >= self.max_players
    }

    pub open spec fn is_closed(self) -> bool {
        self.state == RoomState::Closed
    }

    /// Members appear once each and never exceed the capacity.
    pub open spec fn well_formed(self) -> bool {
        &&& self.members.no_duplicates()
        &&& self.members.len() <= self.max_players
    }
}

impl View for Room {
    type V = RoomView;

    closed spec fn view(&self) -> RoomView {
        RoomView {
            id: self.id,
            members: self.members@,
            max_players: self.max_players,
            state: self.state,
            created_at: self.created_at,
        }
    }
}

/// Outcome of `try_join`: the new state and the result.
pub open spec fn try_join_spec(r: RoomView, player: PlayerId) -> (RoomView, Result<bool, DomainErrorView>) {
    if r.is_closed() {
        (r, Err(DomainErrorView::RoomClosed(r.id)))
    } else if r.members.contains(player) {
        (r, Ok(false))
    } else if r.is_full() {
        (r, Err(DomainErrorView::RoomFull(r.id)))
    } else {
        (RoomView { members: r.members.push(player), ..r }, Ok(true))
    }
}

/// The members other than `player`, in order.
pub open spec fn without(members: Seq<PlayerId>, player: PlayerId) -> Seq<PlayerId>
    decreases members.len(),
{
    if members.len() == 0 {
        members
    } else {
        let rest = without(members.drop_last(), player);
        if members.last() != player {
            rest.push(members.last())
        } else {
            rest
        }
    }
}

/// Outcome of `try_leave`: the new state and the result.
pub open spec fn try_leave_spec(r: RoomView, player: PlayerId) -> (RoomView, Result<bool, DomainErrorView>) {
    if r.is_closed() {
        (r, Err(DomainErrorView::RoomClosed(r.id)))
    } else {
        (
            RoomView { members: without(r.members, player), ..r },
            Ok(without(r.members, player).len() != r.members.len()),
        )
    }
}

/// Outcome of `transition_to`.
pub open spec fn transition_spec(r: RoomView, target: RoomState) -> (RoomView, Result<(), DomainErrorView>) {
    if transition_allowed(r.state, target) {
        (RoomView { state: target, ..r }, Ok(()))
    } else {
        (
            r,
            Err(
                DomainErrorView::IllegalTransition {
                    from: state_name(r.state),
                    to: state_name(target),
                },
            ),
        )
    }
}

/// Removing a player from a sequence drops exactly its occurrences.
pub proof fn lemma_without(members: Seq<PlayerId>, player: PlayerId)
    ensures
        !without(members, player).contains(player),
        without(members, player).len() <= members.len(),
        without(members, player).len() == members.len() <==> !members.contains(player),
        forall|q: PlayerId| q != player ==> (without(members, player).contains(q) <==> members.contains(q)),
        members.no_duplicates() ==> without(members, player).no_duplicates(),
    decreases members.len(),
{
    broadcast use vstd::seq_lib::group_seq_properties;

    if members.len() > 0 {
        let rest = members.drop_last();
        let x = members.last();
        let wr = without(rest, player);
        lemma_without(rest, player);
        assert(members =~= rest.push(x));
        assert forall|q: PlayerId| #[trigger] members.contains(q) <==> (rest.contains(q) || x == q) by {
            assert(members == rest.push(x));
        }
        if x != player {
            assert forall|q: PlayerId| #[trigger] without(members, player).contains(q) <==> (wr.contains(q) || x == q) by {
                assert(without(members, player) == wr.push(x));
            }
            if members.no_duplicates() {
                assert(!rest.contains(x)) by {
                    if rest.contains(x) {
                        let k = choose|k: int| 0 <= k < rest.len() && rest[k] == x;
                        assert(members[k] == members[members.len() - 1]);
                    }
                }
                assert(rest.no_duplicates()) by {
                    assert forall|i: int, j: int| 0 <= i < rest.len() && 0 <= j < rest.len() && i != j implies rest[i] != rest[j] by {
                        assert(rest[i] == members[i] && rest[j] == members[j]);
                    }
                }
                let w = wr.push(x);
                assert forall|i: int, j: int| 0 <= i < w.len() && 0 <= j < w.len() && i != j implies w[i]
                    != w[j] by {
                    if i < wr.len() && j < wr.len() {
                        assert(w[i] == wr[i] && w[j] == wr[j]);
                    } else if i < wr.len() {
                        assert(wr.contains(wr[i]));
                    } else {
                        assert(wr.contains(wr[j]));
                    }
                }
            }
        } else {
            if members.no_duplicates() {
                assert(rest.no_duplicates()) by {
                    assert forall|i: int, j: int| 0 <= i < rest.len() && 0 <= j < rest.len() && i != j implies rest[i] != rest[j] by {
                        assert(rest[i] == members[i] && rest[j] == members[j]);
                    }
                }
            }
        }
    }
}

/// Joining keeps a room well formed.
pub proof fn lemma_try_join_keeps_well_formed(r: RoomView, p: PlayerId)
    requires
        r.well_formed(),
    ensures
        try_join_spec(r, p).0.well_formed(),
{
    let (n, res) = try_join_spec(r, p);
    if res == Ok::<bool, DomainErrorView>(true) {
        assert forall|i: int, j: int| 0 <= i < n.members.len() && 0 <= j < n.members.len() && i != j implies n.members[i]
            != n.members[j] by {
            if i < r.members.len() && j < r.members.len() {
            } else if i < r.members.len() {
                assert(r.members.contains(r.members[i]));
            } else {
                assert(r.members.contains(r.members[j]));
            }
        }
    }
}

/// Removing an absent player changes nothing.
pub proof fn lemma_without_absent(members: Seq<PlayerId>, player: PlayerId)
    requires
        !members.contains(player),
    ensures
        without(members, player) == members,
    decreases members.len(),
{
    if members.len() > 0 {
        let rest = members.drop_last();
        assert(!rest.contains(player)) by {
            if rest.contains(player) {
                let k = choose|k: int| 0 <= k < rest.len() && rest[k] == player;
                assert(members[k] == player);
            }
        }
        lemma_without_absent(rest, player);
        assert(members.last() != player) by {
            assert(members[members.len() - 1] == members.last());
        }
        assert(members =~= rest.push(members.last()));
    }
}

/// A newcomer who joins an open room and then leaves it leaves the room as it was.
pub proof fn law_join_then_leave_restores_room(r: RoomView, p: PlayerId)
    requires
        !r.is_closed(),
        !r.is_full(),
        !r.members.contains(p),
    ensures
        try_join_spec(r, p).1 == Ok::<bool, DomainErrorView>(true),
        try_leave_spec(try_join_spec(r, p).0, p).1 == Ok::<bool, DomainErrorView>(true),
        try_leave_spec(try_join_spec(r, p).0, p).0 == r,
{
    let joined = try_join_spec(r, p).0;
    assert(joined.members.drop_last() =~= r.members);
    lemma_without_absent(r.members, p);
    lemma_without(joined.members, p);
    assert(joined.members.contains(p)) by {
        assert(joined.members[joined.members.len() - 1] == p);
    }
}

/// A closed room is terminal: no transition leaves it, and joins and leaves are refused
/// without change.
pub proof fn law_closed_is_terminal(r: RoomView, target: RoomState, p: PlayerId)
    requires
        r.is_closed(),
    ensures
        transition_spec(r, target).0 == r,
        transition_spec(r, target).1 is Err,
        try_join_spec(r, p) == (r, Err::<bool, DomainErrorView>(DomainErrorView::RoomClosed(r.id))),
        try_leave_spec(r, p) == (r, Err::<bool, DomainErrorView>(DomainErrorView::RoomClosed(r.id))),
{
}

/// The lifecycle only moves forward, one step at a time: each allowed move raises the
/// state's rank by exactly one.
pub proof fn law_transitions_move_forward(r: RoomView, target: RoomState)
    ensures
        transition_spec(r, target).1 is Ok ==> state_rank(target) == state_rank(r.state) + 1,
        transition_spec(r, target).1 is Err ==> transition_spec(r, target).0 == r,
{
}

/// Position of a state in the lifecycle.
pub open spec fn state_rank(s: RoomState) -> int {
    match s {
        RoomState::Waiting => 0,
        RoomState::InProgress => 1,
        RoomState::Settling => 2,
        RoomState::Closed => 3,
    }
}

impl Room {
    /// Opens a room with a fresh version-7 id; the capacity is clamped to 1..=MAX_ROOM_PLAYERS.
    pub fn open(max_players: u32, now: UtcTime) -> (r: Room)
        ensures
            r@.members == Seq::<PlayerId>::empty(),
            r@.max_players == clamp_spec(max_players, 1, MAX_ROOM_PLAYERS),
            r@.state == RoomState::Waiting,
            r@.created_at == now,
            uuid_version(r@.id.0) == 7,
            uuid_variant(r@.id.0) == 2,
            r@.well_formed(),
    {
        let id = RoomId(fresh_uuid());
        let max = if max_players < 1 {
            1
        } else if max_players > MAX_ROOM_PLAYERS {
            MAX_ROOM_PLAYERS
        } else {
            max_players
        };
        Room { id, members: Vec::new(), max_players: max, state: RoomState::Waiting, created_at: now }
    }

    /// Rebuilds a room from existing data, without checks.
    pub fn reconstitute(
        id: RoomId,
        members: Vec<PlayerId>,
        max_players: u32,
        state: RoomState,
        created_at: UtcTime,
    ) -> (r: Room)
        ensures
            r@ == (RoomView { id, members: members@, max_players, state, created_at }),
    {
        Room { id, members, max_players, state, created_at }
    }

    pub fn id(&self) -> (i: RoomId)
        ensures
            i == self@.id,
    {
        self.id
    }

    pub fn members(&self) -> (m: &[PlayerId])
        ensures
            m@ == self@.members,
    {
        self.members.as_slice()
    }

    pub fn max_players(&self) -> (m: u32)
        ensures
            m == self@.max_players,
    {
        self.max_players
    }

    pub fn state(&self) -> (s: RoomState)
        ensures
            s == self@.state,
    {
        self.state
    }

    pub fn created_at(&self) -> (t: UtcTime)
        ensures
            t == self@.created_at,
    {
        self.created_at
    }

    pub fn member_count(&self) -> (n: usize)
        ensures
            n == self@.members.len(),
    {
        self.members.len()
    }

    pub fn is_full(&self) -> (b: bool)
        ensures
            b == self@.is_full(),
    {
        self.member_count() >= self.max_players as usize
    }

    pub fn is_closed(&self) -> (b: bool)
        ensures
            b == self@.is_closed(),
    {
        self.state == RoomState::Closed
    }

    fn contains(&self, player: PlayerId) -> (b: bool)
        ensures
            b == self@.members.contains(player),
    {
        let mut i: usize = 0;
        while i < self.members.len()
            invariant
                i <= self.members@.len(),
                forall|j: int| 0 <= j < i ==> self.members@[j] != player,
            decreases self.members.len() - i,
        {
            if self.members[i] == player {
                assert(self.members@[i as int] == player);
                return true;
            }
            i = i + 1;
        }
        false
    }

    /// Joins `player`: `Ok(true)` when newly added, `Ok(false)` when already a member.
    /// A closed room refuses, and a full room refuses newcomers.
    pub fn try_join(&mut self, player: PlayerId) -> (r: Result<bool, DomainError>)
        ensures
            final(self)@ == try_join_spec(old(self)@, player).0,
            r matches Ok(b) ==> try_join_spec(old(self)@, player).1 == Ok::<bool, DomainErrorView>(b),
            r matches Err(e) ==> try_join_spec(old(self)@, player).1 == Err::<bool, DomainErrorView>(e@),
            old(self)@.well_formed() ==> final(self)@.well_formed(),
            r is Ok ==> final(self)@.members.contains(player),
    {
        if self.is_closed() {
            return Err(DomainError::RoomClosed(self.id));
        }
        if self.contains(player) {
            return Ok(false);
        }
        if self.is_full() {
            return Err(DomainError::RoomFull(self.id));
        }
        let ghost before = self.members@;
        self.members.push(player);
        proof {
            assert(self.members@.last() == player);
            assert(self.members@.contains(player)) by {
                assert(self.members@[self.members@.len() - 1] == player);
            }
            if before.no_duplicates() {
                assert forall|i: int, j: int|
                    0 <= i < self.members@.len() && 0 <= j < self.members@.len() && i != j implies self.members@[i]
                    != self.members@[j] by {
                    if i < before.len() && j < before.len() {
                    } else if i < before.len() {
                        assert(before.contains(before[i]));
                    } else {
                        assert(before.contains(before[j]));
                    }
                }
            }
        }
        Ok(true)
    }

    /// Removes `player`: `Ok(true)` when it was a member, `Ok(false)` otherwise.
    /// A closed room refuses.
    pub fn try_leave(&mut self, player: PlayerId) -> (r: Result<bool, DomainError>)
        ensures
            final(self)@ == try_leave_spec(old(self)@, player).0,
            r matches Ok(b) ==> try_leave_spec(old(self)@, player).1 == Ok::<bool, DomainErrorView>(b),
            r matches Err(e) ==> try_leave_spec(old(self)@, player).1 == Err::<bool, DomainErrorView>(e@),
            old(self)@.well_formed() ==> final(self)@.well_formed(),
            !old(self)@.is_closed() ==> !final(self)@.members.contains(player),
    {
        if self.is_closed() {
            return Err(DomainError::RoomClosed(self.id));
        }
        let before = self.members.len();
        let ghost old_members = self.members@;
        let mut kept: Vec<PlayerId> = Vec::new();
        let mut i: usize = 0;
        while i < self.members.len()
            invariant
                i <= self.members@.len(),
                self.members@ == old_members,
                kept@ == without(old_members.take(i as int), player),
            decreases self.members.len() - i,
        {
            let m = self.members[i];
            assert(old_members.take(i + 1).drop_last() =~= old_members.take(i as int));
            if m != player {
                kept.push(m);
            }
            i = i + 1;
        }
        assert(old_members.take(old_members.len() as int) =~= old_members);
        proof {
            lemma_without(old_members, player);
        }
        self.members = kept;
        Ok(self.members.len() != before)
    }

    /// Moves along the lifecycle; any other move is refused and leaves the room unchanged.
    pub fn transition_to(&mut self, target: RoomState) -> (r: Result<(), DomainError>)
        ensures
            final(self)@ == transition_spec(old(self)@, target).0,
            r matches Ok(u) ==> transition_spec(old(self)@, target).1 == Ok::<(), DomainErrorView>(u),
            r matches Err(e) ==> transition_spec(old(self)@, target).1 == Err::<(), DomainErrorView>(e@),
    {
        let allowed = match (self.state, target) {
            (RoomState::Waiting, RoomState::InProgress) => true,
            (RoomState::InProgress, RoomState::Settling) => true,
            (RoomState::Settling, RoomState::Closed) => true,
            _ => false,
        };
        if !allowed {
            return Err(
                DomainError::IllegalTransition {
                    from: self.state.to_string(),
                    to: target.to_string(),
                },
            );
        }
        self.state = target;
        Ok(())
    }

    /// Closes the room (terminal); `false` when it was already closed.
    pub fn close(&mut self) -> (b: bool)
        ensures
            b == !old(self)@.is_closed(),
            final(self)@ == (RoomView { state: RoomState::Closed, ..old(self)@ }),
    {
        if self.is_closed() {
            return false;
        }
        self.state = RoomState::Closed;
        true
    }
}

} // verus!
