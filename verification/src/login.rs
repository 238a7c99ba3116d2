//! Login: user-name check → account lookup → password check → status check → player lookup
//! → revoke the player's earlier tokens → new token → login time saved → audit.
//!
//! Each stage is a type: a stage is left only by the answer of its outside call, so a token
//! is asked for only after the password checked out and then the account allowed login, and
//! the login time is saved only once the new token exists.

use crate::account::{Account, AccountView};
use crate::app_error::{domain_to_app, repo_to_app, AppError, AppErrorView};
use crate::dto::{LoginCommand, LoginResult};
use crate::error::{DomainErrorView, RepoError};
use crate::ids::{AccountId, PlayerId};
use crate::player::{Player, PlayerView};
use crate::time::UtcTime;
use crate::value::{username_rule, Username};
use vstd::prelude::*;
use vstd::string::*;

verus! {

/// The answer to a wrong user name or password; it does not tell which was wrong.
pub open spec fn bad_credentials() -> AppErrorView {
    AppErrorView::Unauthorized("用户名或密码错误"@)
}

/// Stage 1: the account with this (normalised) user name must be looked up.
pub struct LoginAwaitAccount {
    username: Username,
    password: String,
    ttl_secs: u64,
}

/// Stage 2: the password must be checked against the account's hash.
pub struct LoginAwaitPassword {
    account: Account,
    password: String,
    ttl_secs: u64,
}

/// Stage 3: the player of the account must be looked up.
pub struct LoginAwaitPlayer {
    account_id: AccountId,
    ttl_secs: u64,
}

/// Stage 4: the player's earlier tokens must be revoked.
pub struct LoginAwaitRevoke {
    player: Player,
    ttl_secs: u64,
}

/// Stage 5: a new token must be created for the player.
pub struct LoginAwaitToken {
    player: Player,
    ttl_secs: u64,
}

/// Stage 6: the player, with its login time recorded, must be saved.
pub struct LoginAwaitSave {
    player: Player,
    token: String,
    ttl_secs: u64,
}

/// Stage 7: the login must be audited.
pub struct LoginAwaitAudit {
    player: Player,
    token: String,
    ttl_secs: u64,
}

impl LoginAwaitAccount {
    /// Starts a login whose token lives `token_ttl_secs` seconds: the user name must pass
    /// its rule.
    pub fn begin(cmd: &LoginCommand, token_ttl_secs: u64) -> (r: Result<LoginAwaitAccount, AppError>)
        ensures
            match username_rule(cmd.username@) {
                Ok(name) => r matches Ok(s) && s.username_spec() == name && s.password_spec()
                    == cmd.password@ && s.ttl_spec() == token_ttl_secs,
                Err(e) => r matches Err(err) && err@ == domain_to_app(e),
            },
    {
        match Username::try_new(cmd.username.as_str()) {
            Ok(username) => Ok(
                LoginAwaitAccount { username, password: cmd.password.clone(), ttl_secs: token_ttl_secs },
            ),
            Err(e) => Err(AppError::from_domain(e)),
        }
    }

    pub closed spec fn username_spec(&self) -> Seq<char> {
        self.username@
    }

    pub closed spec fn password_spec(&self) -> Seq<char> {
        self.password@
    }

    pub closed spec fn ttl_spec(&self) -> u64 {
        self.ttl_secs
    }

    /// The normalised user name to look up.
    pub fn username(&self) -> (s: &str)
        ensures
            s@ == self.username_spec(),
    {
        self.username.as_str()
    }

    /// After the lookup: a failed lookup is reported; an unknown user gets the generic
    /// answer; a found account goes on to the password check, whatever its status.
    pub fn on_account(self, found: Result<Option<Account>, RepoError>) -> (r: Result<LoginAwaitPassword, AppError>)
        ensures
            match found {
                Err(e) => r matches Err(err) && err@ == repo_to_app(e@),
                Ok(None) => r matches Err(err) && err@ == bad_credentials(),
                Ok(Some(a)) => r matches Ok(s) && s.account_spec() == a@ && s.password_spec()
                    == self.password_spec() && s.ttl_spec() == self.ttl_spec(),
            },
    {
        match found {
            Err(e) => Err(AppError::from_repo(e)),
            Ok(None) => Err(AppError::Unauthorized(String::from_str("用户名或密码错误"))),
            Ok(Some(account)) => Ok(
                LoginAwaitPassword { account, password: self.password, ttl_secs: self.ttl_secs },
            ),
        }
    }
}

impl LoginAwaitPassword {
    pub closed spec fn account_spec(&self) -> AccountView {
        self.account@
    }

    pub closed spec fn password_spec(&self) -> Seq<char> {
        self.password@
    }

    pub closed spec fn ttl_spec(&self) -> u64 {
        self.ttl_secs
    }

    /// The password as given.
    pub fn password(&self) -> (s: &str)
        ensures
            s@ == self.password_spec(),
    {
        self.password.as_str()
    }

    /// The stored hash to check it against.
    pub fn password_hash(&self) -> (s: &str)
        ensures
            s@ == self.account_spec().password_hash,
    {
        self.account.password_hash().expose()
    }

    /// After the check: a hasher failure is reported as it is; a mismatch gets the generic
    /// answer, whatever the account's status; only with the right password is an account
    /// that may not log in at `now` told that it is forbidden.
    pub fn on_verified(self, verified: Result<bool, AppError>, now: UtcTime) -> (r: Result<LoginAwaitPlayer, AppError>)
        ensures
            match verified {
                Err(e) => r matches Err(err) && err@ == e@,
                Ok(false) => r matches Err(err) && err@ == bad_credentials(),
                Ok(true) => if self.account_spec().status.allows_login(now) {
                    r matches Ok(s) && s.account_id_spec() == self.account_spec().id
                        && s.ttl_spec() == self.ttl_spec()
                } else {
                    r matches Err(err) && err@ == AppErrorView::Forbidden("账号当前不可登录"@)
                },
            },
    {
        match verified {
            Err(e) => Err(e),
            Ok(false) => Err(AppError::Unauthorized(String::from_str("用户名或密码错误"))),
            Ok(true) => {
                if !self.account.status().allows_login(now) {
                    return Err(AppError::Forbidden(String::from_str("账号当前不可登录")));
                }
                Ok(LoginAwaitPlayer { account_id: self.account.id(), ttl_secs: self.ttl_secs })
            },
        }
    }
}

impl LoginAwaitPlayer {
    pub closed spec fn account_id_spec(&self) -> AccountId {
        self.account_id
    }

    pub closed spec fn ttl_spec(&self) -> u64 {
        self.ttl_secs
    }

    /// The account whose player to look up.
    pub fn account_id(&self) -> (a: AccountId)
        ensures
            a == self.account_id_spec(),
    {
        self.account_id
    }

    /// After the lookup: a failed lookup is reported; an account without a player is an
    /// internal error.
    pub fn on_player(self, found: Result<Option<Player>, RepoError>) -> (r: Result<LoginAwaitRevoke, AppError>)
        ensures
            match found {
                Err(e) => r matches Err(err) && err@ == repo_to_app(e@),
                Ok(None) => r matches Err(err) && err@ == AppErrorView::Internal("账号缺少对应的玩家档案"@),
                Ok(Some(p)) => r matches Ok(s) && s.player_spec() == p@ && s.ttl_spec() == self.ttl_spec(),
            },
    {
        match found {
            Err(e) => Err(AppError::from_repo(e)),
            Ok(None) => Err(AppError::Internal(String::from_str("账号缺少对应的玩家档案"))),
            Ok(Some(player)) => Ok(LoginAwaitRevoke { player, ttl_secs: self.ttl_secs }),
        }
    }
}

impl LoginAwaitRevoke {
    pub closed spec fn player_spec(&self) -> PlayerView {
        self.player@
    }

    pub closed spec fn ttl_spec(&self) -> u64 {
        self.ttl_secs
    }

    /// The player whose earlier tokens to revoke (one session per player).
    pub fn player_id(&self) -> (p: PlayerId)
        ensures
            p == self.player_spec().id,
    {
        self.player.id()
    }

    /// After the revocation: its failure does not stop the login (the caller logs it).
    pub fn on_revoked(self, revoked: Result<(), AppError>) -> (s: LoginAwaitToken)
        ensures
            s.player_spec() == self.player_spec(),
            s.ttl_spec() == self.ttl_spec(),
    {
        LoginAwaitToken { player: self.player, ttl_secs: self.ttl_secs }
    }
}

impl LoginAwaitToken {
    pub closed spec fn player_spec(&self) -> PlayerView {
        self.player@
    }

    pub closed spec fn ttl_spec(&self) -> u64 {
        self.ttl_secs
    }

    /// The player to create a token for.
    pub fn player_id(&self) -> (p: PlayerId)
        ensures
            p == self.player_spec().id,
    {
        self.player.id()
    }

    /// After the token store answered: its failure is reported; otherwise the login at `now`
    /// is recorded on the player.
    pub fn on_token(self, created: Result<String, AppError>, now: UtcTime) -> (r: Result<LoginAwaitSave, AppError>)
        ensures
            match created {
                Err(e) => r matches Err(err) && err@ == e@,
                Ok(t) => r matches Ok(s) && s.player_spec() == (PlayerView {
                    last_login_at: Some(now),
                    ..self.player_spec()
                }) && s.token_spec() == t@ && s.ttl_spec() == self.ttl_spec(),
            },
    {
        match created {
            Err(e) => Err(e),
            Ok(token) => {
                let mut player = self.player;
                player.record_login(now);
                Ok(LoginAwaitSave { player, token, ttl_secs: self.ttl_secs })
            },
        }
    }
}

impl LoginAwaitSave {
    pub closed spec fn player_spec(&self) -> PlayerView {
        self.player@
    }

    pub closed spec fn token_spec(&self) -> Seq<char> {
        self.token@
    }

    pub closed spec fn ttl_spec(&self) -> u64 {
        self.ttl_secs
    }

    /// The player to save.
    pub fn player(&self) -> (p: &Player)
        ensures
            p@ == self.player_spec(),
    {
        &self.player
    }

    /// After the save: a failed save is reported.
    pub fn on_saved(self, saved: Result<(), RepoError>) -> (r: Result<LoginAwaitAudit, AppError>)
        ensures
            match saved {
                Err(e) => r matches Err(err) && err@ == repo_to_app(e@),
                Ok(_) => r matches Ok(s) && s.player_spec() == self.player_spec() && s.token_spec()
                    == self.token_spec() && s.ttl_spec() == self.ttl_spec(),
            },
    {
        match saved {
            Err(e) => Err(AppError::from_repo(e)),
            Ok(()) => Ok(LoginAwaitAudit { player: self.player, token: self.token, ttl_secs: self.ttl_secs }),
        }
    }
}

impl LoginAwaitAudit {
    pub closed spec fn player_spec(&self) -> PlayerView {
        self.player@
    }

    pub closed spec fn token_spec(&self) -> Seq<char> {
        self.token@
    }

    pub closed spec fn ttl_spec(&self) -> u64 {
        self.ttl_secs
    }

    /// The audit record: player, action `login`, detail `{}`.
    pub fn audit_record(&self) -> (r: (PlayerId, &'static str, String))
        ensures
            r.0 == self.player_spec().id,
            r.1@ == "login"@,
            r.2@ == "{}"@,
    {
        (self.player.id(), "login", String::from_str("{}"))
    }

    /// After the audit: its failure does not stop the login (the caller logs it). The result
    /// carries the token, the player, its nickname and the token's lifetime in seconds.
    pub fn on_audited(self, audited: Result<(), AppError>) -> (r: LoginResult)
        ensures
            r.token@ == self.token_spec(),
            r.player_id == self.player_spec().id,
            r.nickname@ == self.player_spec().nickname,
            r.expires_in_secs == self.ttl_spec(),
    {
        LoginResult {
            player_id: self.player.id(),
            nickname: String::from_str(self.player.nickname().as_str()),
            token: self.token,
            expires_in_secs: self.ttl_secs,
        }
    }
}

} // verus!
