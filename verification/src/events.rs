//! Domain events raised on key state changes of the aggregates.

use crate::ids::{PlayerId, RoomId};
use crate::time::UtcTime;
use vstd::prelude::*;

verus! {

/// A domain event; each carries the instant it happened.
#[derive(Debug, Clone, PartialEq, Eq)]
pub enum DomainEvent {
    PlayerLeveledUp { player_id: PlayerId, new_level: u32, at: UtcTime },
    PlayerJoinedRoom { room_id: RoomId, player_id: PlayerId, at: UtcTime },
    PlayerLeftRoom { room_id: RoomId, player_id: PlayerId, reason: String, at: UtcTime },
    RoomClosed { room_id: RoomId, reason: String, at: UtcTime },
}

/// The instant carried by an event.
pub open spec fn event_time(e: DomainEvent) -> UtcTime {
    match e {
        DomainEvent::PlayerLeveledUp { at, .. } => at,
        DomainEvent::PlayerJoinedRoom { at, .. } => at,
        DomainEvent::PlayerLeftRoom { at, .. } => at,
        DomainEvent::RoomClosed { at, .. } => at,
    }
}

impl DomainEvent {
    pub fn occurred_at(&self) -> (t: UtcTime)
        ensures
            t == event_time(*self),
    {
        match self {
            DomainEvent::PlayerLeveledUp { at, .. } => *at,
            DomainEvent::PlayerJoinedRoom { at, .. } => *at,
            DomainEvent::PlayerLeftRoom { at, .. } => *at,
            DomainEvent::RoomClosed { at, .. } => *at,
        }
    }
}

} // verus!
