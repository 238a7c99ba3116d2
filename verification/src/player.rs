//! Player aggregate: profile and progression values, computed on the server.

use crate::ids::{fresh_uuid, uuid_variant, uuid_version, AccountId, PlayerId};
use crate::time::UtcTime;
use crate::value::Nickname;
use vstd::prelude::*;

verus! {

/// Highest level; stops level-up loops driven by extreme experience values.
pub const MAX_LEVEL: u32 = 999;

/// Experience needed to leave a level = level * EXP_PER_LEVEL.
pub const EXP_PER_LEVEL: u64 = 100;

/// Experience needed to go from `level` to the next one.
pub open spec fn exp_to_next_spec(level: u32) -> u64 {
    (EXP_PER_LEVEL * level) as u64
}

/// Level and experience once every level-up that `exp` pays for has been taken.
pub open spec fn settle(level: u32, exp: u64) -> (u32, u64)
    decreases (if level < MAX_LEVEL { MAX_LEVEL - level } else { 0 }),
{
    if level < MAX_LEVEL && exp >= exp_to_next_spec(level) {
        settle((level + 1) as u32, (exp - exp_to_next_spec(level)) as u64)
    } else {
        (level, exp)
    }
}

/// Experience spent to reach `level` from level 0, plus what is held: the player's total.
pub open spec fn cumulative_exp(level: u32, exp: u64) -> int {
    50 * level * (level - 1) + exp
}

/// `a + b` clamped to `u64::MAX`.
pub open spec fn saturating_add_u64(a: u64, b: u64) -> u64 {
    if a + b > u64::MAX {
        u64::MAX
    } else {
        (a + b) as u64
    }
}

/// Settling never lowers the level, keeps the total, and stops at a settled state.
pub proof fn lemma_settle(level: u32, exp: u64)
    ensures
        settle(level, exp).0 >= level,
        level >= MAX_LEVEL ==> settle(level, exp) == (level, exp),
        level < MAX_LEVEL ==> settle(level, exp).0 <= MAX_LEVEL,
        cumulative_exp(settle(level, exp).0, settle(level, exp).1) == cumulative_exp(level, exp),
        settle(level, exp).0 == MAX_LEVEL || settle(level, exp).1 < exp_to_next_spec(
            settle(level, exp).0,
        ) || (level > MAX_LEVEL && settle(level, exp).0 == level),
    decreases (if level < MAX_LEVEL { MAX_LEVEL - level } else { 0 }),
{
    if level < MAX_LEVEL && exp >= exp_to_next_spec(level) {
        let l1 = (level + 1) as u32;
        let e1 = (exp - exp_to_next_spec(level)) as u64;
        lemma_settle(l1, e1);
        assert(50 * l1 * (l1 - 1) == 50 * level * (level - 1) + 100 * level) by (nonlinear_arith)
            requires
                l1 == level + 1,
        ;
    }
}

/// Player aggregate root.
#[derive(Debug, Clone)]
pub struct Player {
    id: PlayerId,
    account_id: AccountId,
    nickname: Nickname,
    level: u32,
    exp: u64,
    last_login_at: Option<UtcTime>,
    created_at: UtcTime,
}

/// Abstract state of a player.
pub struct PlayerView {
    pub id: PlayerId,
    pub account_id: AccountId,
    pub nickname: Seq<char>,
    pub level: u32,
    pub exp: u64,
    pub last_login_at: Option<UtcTime>,
    pub created_at: UtcTime,
}

impl View for Player {
    type V = PlayerView;

    closed spec fn view(&self) -> PlayerView {
        PlayerView {
            id: self.id,
            account_id: self.account_id,
            nickname: self.nickname@,
            level: self.level,
            exp: self.exp,
            last_login_at: self.last_login_at,
            created_at: self.created_at,
        }
    }
}

/// Outcome of gaining `amount` experience from `p`: the new state and the reached level if any
/// level-up happened.
pub open spec fn gain_exp_spec(p: PlayerView, amount: u64) -> (PlayerView, Option<u32>) {
    let (level, exp) = settle(p.level, saturating_add_u64(p.exp, amount));
    (PlayerView { level, exp, ..p }, if level != p.level { Some(level) } else { None })
}

impl Player {
    /// A new player at level 1 with no experience.
    pub fn create(account_id: AccountId, nickname: Nickname, now: UtcTime) -> (p: Player)
        ensures
            p@.account_id == account_id,
            p@.nickname == nickname@,
            p@.level == 1,
            p@.exp == 0,
            p@.last_login_at is None,
            p@.created_at == now,
            uuid_version(p@.id.0) == 7,
            uuid_variant(p@.id.0) == 2,
    {
        let id = PlayerId(fresh_uuid());
        Player {
            id,
            account_id,
            nickname,
            level: 1,
            exp: 0,
            last_login_at: None,
            created_at: now,
        }
    }

    /// Rebuilds a player from stored data.
    pub fn reconstitute(
        id: PlayerId,
        account_id: AccountId,
        nickname: Nickname,
        level: u32,
        exp: u64,
        last_login_at: Option<UtcTime>,
        created_at: UtcTime,
    ) -> (p: Player)
        ensures
            p@ == (PlayerView {
                id,
                account_id,
                nickname: nickname@,
                level,
                exp,
                last_login_at,
                created_at,
            }),
    {
        Player { id, account_id, nickname, level, exp, last_login_at, created_at }
    }

    pub fn id(&self) -> (i: PlayerId)
        ensures
            i == self@.id,
    {
        self.id
    }

    pub fn account_id(&self) -> (i: AccountId)
        ensures
            i == self@.account_id,
    {
        self.account_id
    }

    pub fn nickname(&self) -> (n: &Nickname)
        ensures
            n@ == self@.nickname,
    {
        &self.nickname
    }

    pub fn level(&self) -> (l: u32)
        ensures
            l == self@.level,
    {
        self.level
    }

    pub fn exp(&self) -> (e: u64)
        ensures
            e == self@.exp,
    {
        self.exp
    }

    pub fn last_login_at(&self) -> (t: Option<UtcTime>)
        ensures
            t == self@.last_login_at,
    {
        self.last_login_at
    }

    pub fn created_at(&self) -> (t: UtcTime)
        ensures
            t == self@.created_at,
    {
        self.created_at
    }

    fn exp_to_next(level: u32) -> (e: u64)
        ensures
            e == exp_to_next_spec(level),
    {
        EXP_PER_LEVEL * (level as u64)
    }

    /// Adds experience (saturating) and takes every level-up it pays for, up to `MAX_LEVEL`;
    /// returns the reached level when at least one level-up happened. Below the cap the
    /// player's total experience grows by exactly `amount`, and the leftover is less than
    /// the next level's cost.
    pub fn gain_exp(&mut self, amount: u64) -> (r: Option<u32>)
        ensures
            (final(self)@, r) == gain_exp_spec(old(self)@, amount),
            old(self)@.exp + amount <= u64::MAX && old(self)@.level <= MAX_LEVEL ==> cumulative_exp(
                final(self)@.level,
                final(self)@.exp,
            ) == cumulative_exp(old(self)@.level, old(self)@.exp) + amount,
            final(self)@.level >= old(self)@.level,
            old(self)@.level <= MAX_LEVEL ==> final(self)@.level <= MAX_LEVEL,
            old(self)@.level <= MAX_LEVEL ==> (final(self)@.level == MAX_LEVEL || final(self)@.exp
                < exp_to_next_spec(final(self)@.level)),
    {
        let ghost start = self.level;
        self.exp = self.exp.saturating_add(amount);
        let ghost exp0 = self.exp;
        proof {
            lemma_settle(start, exp0);
        }
        let mut new_level: Option<u32> = None;
        while self.level < MAX_LEVEL && self.exp >= Self::exp_to_next(self.level)
            invariant
                settle(self.level, self.exp) == settle(start, exp0),
                self.level >= start,
                new_level == (if self.level != start { Some(self.level) } else { None::<u32> }),
                self.id == old(self).id,
                self.account_id == old(self).account_id,
                self.nickname == old(self).nickname,
                self.last_login_at == old(self).last_login_at,
                self.created_at == old(self).created_at,
                start == old(self).level,
            decreases MAX_LEVEL - self.level,
        {
            self.exp = self.exp - Self::exp_to_next(self.level);
            self.level = self.level.saturating_add(1);
            new_level = Some(self.level);
        }
        new_level
    }

    /// Records a successful login at `at`.
    pub fn record_login(&mut self, at: UtcTime)
        ensures
            final(self)@ == (PlayerView { last_login_at: Some(at), ..old(self)@ }),
    {
        self.last_login_at = Some(at);
    }
}

} // verus!
