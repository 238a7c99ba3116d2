//! Online session: the server's view of one connection (unauthenticated → bound to a player).

use crate::ids::{fresh_uuid, uuid_variant, uuid_version, PlayerId, SessionId};
use crate::time::{TimeSpan, UtcTime};
use vstd::prelude::*;

verus! {

/// Session aggregate, one per connection; every accepted frame refreshes its activity time.
#[derive(Debug, Clone)]
pub struct Session {
    id: SessionId,
    player_id: Option<PlayerId>,
    connected_at: UtcTime,
    last_heartbeat_at: UtcTime,
}

/// Abstract state of a session.
pub struct SessionView {
    pub id: SessionId,
    pub player_id: Option<PlayerId>,
    pub connected_at: UtcTime,
    pub last_heartbeat_at: UtcTime,
}

impl View for Session {
    type V = SessionView;

    closed spec fn view(&self) -> SessionView {
        SessionView {
            id: self.id,
            player_id: self.player_id,
            connected_at: self.connected_at,
            last_heartbeat_at: self.last_heartbeat_at,
        }
    }
}

impl Session {
    /// A session opened at `now`, not yet authenticated.
    pub fn new(now: UtcTime) -> (s: Session)
        ensures
            s@.player_id is None,
            s@.connected_at == now,
            s@.last_heartbeat_at == now,
            uuid_version(s@.id.0) == 7,
            uuid_variant(s@.id.0) == 2,
    {
        let id = SessionId(fresh_uuid());
        Session { id, player_id: None, connected_at: now, last_heartbeat_at: now }
    }

    /// Rebuilds a session from connection state.
    pub fn reconstitute(
        id: SessionId,
        player_id: Option<PlayerId>,
        connected_at: UtcTime,
        last_heartbeat_at: UtcTime,
    ) -> (s: Session)
        ensures
            s@ == (SessionView { id, player_id, connected_at, last_heartbeat_at }),
    {
        Session { id, player_id, connected_at, last_heartbeat_at }
    }

    pub fn id(&self) -> (i: SessionId)
        ensures
            i == self@.id,
    {
        self.id
    }

    /// Binds the session to an authenticated player and counts that as activity.
    pub fn bind_player(&mut self, player_id: PlayerId, now: UtcTime)
        ensures
            final(self)@ == (SessionView {
                player_id: Some(player_id),
                last_heartbeat_at: now,
                ..old(self)@
            }),
    {
        self.player_id = Some(player_id);
        self.last_heartbeat_at = now;
    }

    pub fn player_id(&self) -> (p: Option<PlayerId>)
        ensures
            p == self@.player_id,
    {
        self.player_id
    }

    pub fn is_authenticated(&self) -> (b: bool)
        ensures
            b == self@.player_id is Some,
    {
        self.player_id.is_some()
    }

    pub fn connected_at(&self) -> (t: UtcTime)
        ensures
            t == self@.connected_at,
    {
        self.connected_at
    }

    pub fn last_heartbeat_at(&self) -> (t: UtcTime)
        ensures
            t == self@.last_heartbeat_at,
    {
        self.last_heartbeat_at
    }

    /// Records activity at `now`.
    pub fn touch_heartbeat(&mut self, now: UtcTime)
        ensures
            final(self)@ == (SessionView { last_heartbeat_at: now, ..old(self)@ }),
    {
        self.last_heartbeat_at = now;
    }

    /// Expired when more than `timeout` has passed since the last activity.
    pub fn is_heartbeat_expired(&self, now: UtcTime, timeout: TimeSpan) -> (b: bool)
        ensures
            b == (now.total() - self@.last_heartbeat_at.total() > timeout.total()),
    {
        now.nanos_since(&self.last_heartbeat_at) > timeout.as_nanos()
    }
}

} // verus!
