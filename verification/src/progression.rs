//! Player use cases: profile query, and gaining experience (a level-up is published as a
//! domain event before the player is saved).

use crate::app_error::{repo_to_app, AppError, AppErrorView};
use crate::dto::{profile_of, PlayerProfile};
use crate::error::RepoError;
use crate::events::DomainEvent;
use crate::ids::PlayerId;
use crate::player::{gain_exp_spec, Player, PlayerView};
use crate::time::UtcTime;
use vstd::prelude::*;
use vstd::string::*;

verus! {

/// The answer to an unknown player.
pub open spec fn player_missing() -> AppErrorView {
    AppErrorView::NotFound("玩家不存在"@)
}

/// Profile query, after the lookup: a failed lookup is reported; an unknown player is not
/// found.
pub fn profile_from_lookup(found: Result<Option<Player>, RepoError>) -> (r: Result<PlayerProfile, AppError>)
    ensures
        match found {
            Err(e) => r matches Err(err) && err@ == repo_to_app(e@),
            Ok(None) => r matches Err(err) && err@ == player_missing(),
            Ok(Some(p)) => r matches Ok(profile) && profile_of(profile, p@),
        },
{
    match found {
        Err(e) => Err(AppError::from_repo(e)),
        Ok(None) => Err(AppError::NotFound(String::from_str("玩家不存在"))),
        Ok(Some(p)) => Ok(PlayerProfile::from_player(&p)),
    }
}

/// Gaining experience, stage 1: the player must be looked up.
pub struct GainExpAwaitPlayer {
    player_id: PlayerId,
    amount: u64,
}

/// Stage 2: experience was added; a level-up must be published.
pub struct GainExpAwaitPublish {
    player_id: PlayerId,
    player: Player,
    new_level: Option<u32>,
}

/// Stage 3: the player must be saved.
pub struct GainExpAwaitSave {
    player: Player,
}

impl GainExpAwaitPlayer {
    /// Starts; zero experience is refused.
    pub fn begin(player_id: PlayerId, amount: u64) -> (r: Result<GainExpAwaitPlayer, AppError>)
        ensures
            amount == 0 ==> (r matches Err(err) && err@ == AppErrorView::Validation("经验值必须大于 0"@)),
            amount != 0 ==> (r matches Ok(s) && s.player_id_spec() == player_id && s.amount_spec() == amount),
    {
        if amount == 0 {
            return Err(AppError::Validation(String::from_str("经验值必须大于 0")));
        }
        Ok(GainExpAwaitPlayer { player_id, amount })
    }

    pub closed spec fn player_id_spec(&self) -> PlayerId {
        self.player_id
    }

    pub closed spec fn amount_spec(&self) -> u64 {
        self.amount
    }

    /// The player to look up.
    pub fn player_id(&self) -> (p: PlayerId)
        ensures
            p == self.player_id_spec(),
    {
        self.player_id
    }

    /// After the lookup: a failed lookup is reported; an unknown player is not found;
    /// otherwise the experience is added and level-ups are taken.
    pub fn on_player(self, found: Result<Option<Player>, RepoError>) -> (r: Result<GainExpAwaitPublish, AppError>)
        ensures
            match found {
                Err(e) => r matches Err(err) && err@ == repo_to_app(e@),
                Ok(None) => r matches Err(err) && err@ == player_missing(),
                Ok(Some(p)) => r matches Ok(s) && (s.player_spec(), s.new_level_spec()) == gain_exp_spec(
                    p@,
                    self.amount_spec(),
                ) && s.player_id_spec() == self.player_id_spec(),
            },
    {
        match found {
            Err(e) => Err(AppError::from_repo(e)),
            Ok(None) => Err(AppError::NotFound(String::from_str("玩家不存在"))),
            Ok(Some(player)) => {
                let mut player = player;
                let new_level = player.gain_exp(self.amount);
                Ok(GainExpAwaitPublish { player_id: self.player_id, player, new_level })
            },
        }
    }
}

impl GainExpAwaitPublish {
    pub closed spec fn player_id_spec(&self) -> PlayerId {
        self.player_id
    }

    pub closed spec fn player_spec(&self) -> PlayerView {
        self.player@
    }

    pub closed spec fn new_level_spec(&self) -> Option<u32> {
        self.new_level
    }

    /// The level-up event to publish, stamped `at` (none when the level did not change).
    pub fn level_up_event(&self, at: UtcTime) -> (e: Option<DomainEvent>)
        ensures
            match self.new_level_spec() {
                Some(l) => e == Some(
                    DomainEvent::PlayerLeveledUp { player_id: self.player_id_spec(), new_level: l, at },
                ),
                None => e is None,
            },
    {
        match self.new_level {
            Some(l) => Some(DomainEvent::PlayerLeveledUp { player_id: self.player_id, new_level: l, at }),
            None => None,
        }
    }

    /// After publishing (`None`: nothing was published): a publishing failure is reported.
    pub fn on_published(self, published: Option<Result<(), AppError>>) -> (r: Result<GainExpAwaitSave, AppError>)
        ensures
            match published {
                Some(Err(e)) => r matches Err(err) && err@ == e@,
                _ => r matches Ok(s) && s.player_spec() == self.player_spec(),
            },
    {
        match published {
            Some(Err(e)) => Err(e),
            _ => Ok(GainExpAwaitSave { player: self.player }),
        }
    }
}

impl GainExpAwaitSave {
    pub closed spec fn player_spec(&self) -> PlayerView {
        self.player@
    }

    /// The player to save.
    pub fn player(&self) -> (p: &Player)
        ensures
            p@ == self.player_spec(),
    {
        &self.player
    }

    /// After the save: a failed save is reported; otherwise the updated profile.
    pub fn on_saved(self, saved: Result<(), RepoError>) -> (r: Result<PlayerProfile, AppError>)
        ensures
            match saved {
                Err(e) => r matches Err(err) && err@ == repo_to_app(e@),
                Ok(_) => r matches Ok(p) && profile_of(p, self.player_spec()),
            },
    {
        match saved {
            Err(e) => Err(AppError::from_repo(e)),
            Ok(()) => Ok(PlayerProfile::from_player(&self.player)),
        }
    }
}

} // verus!
