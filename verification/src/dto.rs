//! Inputs and outputs of the use cases: the contract between the gateway and the use cases,
//! which does not expose the aggregates.

use crate::ids::{AccountId, PlayerId, RoomId};
use crate::player::{Player, PlayerView};
use crate::time::UtcTime;
use vstd::prelude::*;
use vstd::std_specs::convert::FromSpecImpl;
use vstd::string::*;

verus! {

/// Registration input (the plain password lives here only until it is hashed).
pub struct RegisterCommand {
    pub username: String,
    pub password: String,
    pub nickname: String,
}

#[derive(Debug, Clone)]
pub struct RegisterResult {
    pub account_id: AccountId,
    pub player_id: PlayerId,
    pub nickname: String,
}

/// Login input.
pub struct LoginCommand {
    pub username: String,
    pub password: String,
}

#[derive(Debug, Clone)]
pub struct LoginResult {
    pub token: String,
    pub player_id: PlayerId,
    pub nickname: String,
    pub expires_in_secs: u64,
}

/// A player's profile as queries return it.
#[derive(Debug, Clone)]
pub struct PlayerProfile {
    pub player_id: PlayerId,
    pub nickname: String,
    pub level: u32,
    pub exp: u64,
    pub last_login_at: Option<UtcTime>,
}

/// Whether `profile` shows the player `p`.
pub open spec fn profile_of(profile: PlayerProfile, p: PlayerView) -> bool {
    &&& profile.player_id == p.id
    &&& profile.nickname@ == p.nickname
    &&& profile.level == p.level
    &&& profile.exp == p.exp
    &&& profile.last_login_at == p.last_login_at
}

impl PlayerProfile {
    /// The profile of `player`.
    pub fn from_player(player: &Player) -> (r: PlayerProfile)
        ensures
            profile_of(r, player@),
    {
        PlayerProfile {
            player_id: player.id(),
            nickname: String::from_str(player.nickname().as_str()),
            level: player.level(),
            exp: player.exp(),
            last_login_at: player.last_login_at(),
        }
    }
}

impl<'a> From<&'a Player> for PlayerProfile {
    /// The profile of `player`, as `from_player`.
    fn from(player: &'a Player) -> (r: PlayerProfile)
        ensures
            profile_of(r, player@),
    {
        PlayerProfile::from_player(player)
    }
}

impl<'a> FromSpecImpl<&'a Player> for PlayerProfile {
    /// The nickname of the result is a new string, which no spec value can name; the
    /// contract of `from` states the result through `profile_of`.
    open spec fn obeys_from_spec() -> bool {
        false
    }

    open spec fn from_spec(player: &'a Player) -> PlayerProfile {
        arbitrary()
    }
}

/// Summary of a room (reply after creating or joining one).
#[derive(Debug, Clone)]
pub struct RoomSummary {
    pub room_id: RoomId,
    pub member_count: u32,
    pub max_players: u32,
    pub state: String,
}

} // verus!
