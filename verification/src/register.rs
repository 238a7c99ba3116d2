//! Registration: an account and its player (one to one); the password is stored only as a
//! hash. Inputs are checked before anything is looked up or saved, and an account whose
//! player could not be saved is removed again.

use crate::account::{Account, AccountStatusView, AccountView};
use crate::app_error::{domain_to_app, repo_to_app, AppError, AppErrorView};
use crate::dto::{RegisterCommand, RegisterResult};
use crate::error::{DomainErrorView, RepoError, RepoErrorView};
use crate::ids::{uuid_hyphenated, uuid_text, AccountId, PlayerId};
use crate::player::{Player, PlayerView};
use crate::time::UtcTime;
use crate::value::{
    nickname_rule, password_rule, username_rule, Nickname, PasswordHash, PlainPassword, Username,
};
use vstd::prelude::*;
use vstd::string::*;

verus! {

/// The answer to a taken user name.
pub open spec fn name_taken() -> AppErrorView {
    AppErrorView::Conflict("用户名已被占用"@)
}

/// The first failing input check, in the order user name, nickname, password.
pub open spec fn register_input_error(cmd_username: Seq<char>, cmd_nickname: Seq<char>, cmd_password: Seq<char>) -> Option<DomainErrorView> {
    match username_rule(cmd_username) {
        Err(e) => Some(e),
        Ok(_) => match nickname_rule(cmd_nickname) {
            Err(e) => Some(e),
            Ok(_) => match password_rule(cmd_password) {
                Err(e) => Some(e),
                Ok(_) => None,
            },
        },
    }
}

/// Stage 1: inputs checked; whether the user name is taken must be looked up.
pub struct RegisterAwaitLookup {
    username: Username,
    nickname: Nickname,
    password: PlainPassword,
}

/// Stage 2: the password must be hashed.
pub struct RegisterAwaitHash {
    username: Username,
    nickname: Nickname,
    password: PlainPassword,
}

/// Stage 3: the new account must be saved.
pub struct RegisterAwaitAccountSave {
    account: Account,
    player: Player,
}

/// Stage 4: the new player must be saved.
pub struct RegisterAwaitPlayerSave {
    account: Account,
    player: Player,
}

/// Compensation: the player could not be saved, so the account saved before it must be
/// removed; the registration then fails with the save's error.
#[derive(Debug)]
pub struct RegisterAwaitUndo {
    account_id: AccountId,
    error: AppError,
}

/// Stage 5: the registration must be audited.
pub struct RegisterAwaitAudit {
    account: Account,
    player: Player,
}

impl RegisterAwaitLookup {
    /// Checks the inputs in the order user name, nickname, password; the first failure is
    /// reported.
    pub fn begin(cmd: &RegisterCommand) -> (r: Result<RegisterAwaitLookup, AppError>)
        ensures
            match register_input_error(cmd.username@, cmd.nickname@, cmd.password@) {
                Some(e) => r matches Err(err) && err@ == domain_to_app(e),
                None => r matches Ok(s) && username_rule(cmd.username@) == Ok::<Seq<char>, DomainErrorView>(
                    s.username_spec(),
                ) && nickname_rule(cmd.nickname@) == Ok::<Seq<char>, DomainErrorView>(s.nickname_spec())
                    && s.password_spec() == cmd.password@,
            },
    {
        let username = match Username::try_new(cmd.username.as_str()) {
            Ok(u) => u,
            Err(e) => return Err(AppError::from_domain(e)),
        };
        let nickname = match Nickname::try_new(cmd.nickname.as_str()) {
            Ok(n) => n,
            Err(e) => return Err(AppError::from_domain(e)),
        };
        let password = match PlainPassword::try_new(cmd.password.as_str()) {
            Ok(p) => p,
            Err(e) => return Err(AppError::from_domain(e)),
        };
        Ok(RegisterAwaitLookup { username, nickname, password })
    }

    pub closed spec fn username_spec(&self) -> Seq<char> {
        self.username@
    }

    pub closed spec fn nickname_spec(&self) -> Seq<char> {
        self.nickname@
    }

    pub closed spec fn password_spec(&self) -> Seq<char> {
        self.password@
    }

    /// The normalised user name to look up.
    pub fn username(&self) -> (s: &str)
        ensures
            s@ == self.username_spec(),
    {
        self.username.as_str()
    }

    /// After the lookup: a failed lookup is reported; a taken name is a conflict.
    pub fn on_lookup(self, found: Result<Option<Account>, RepoError>) -> (r: Result<RegisterAwaitHash, AppError>)
        ensures
            match found {
                Err(e) => r matches Err(err) && err@ == repo_to_app(e@),
                Ok(Some(_)) => r matches Err(err) && err@ == name_taken(),
                Ok(None) => r matches Ok(s) && s.username_spec() == self.username_spec()
                    && s.nickname_spec() == self.nickname_spec() && s.password_spec() == self.password_spec(),
            },
    {
        match found {
            Err(e) => Err(AppError::from_repo(e)),
            Ok(Some(_)) => Err(AppError::Conflict(String::from_str("用户名已被占用"))),
            Ok(None) => Ok(
                RegisterAwaitHash { username: self.username, nickname: self.nickname, password: self.password },
            ),
        }
    }
}

impl RegisterAwaitHash {
    pub closed spec fn username_spec(&self) -> Seq<char> {
        self.username@
    }

    pub closed spec fn nickname_spec(&self) -> Seq<char> {
        self.nickname@
    }

    pub closed spec fn password_spec(&self) -> Seq<char> {
        self.password@
    }

    /// The password to hash.
    pub fn password(&self) -> (s: &str)
        ensures
            s@ == self.password_spec(),
    {
        self.password.expose()
    }

    /// After hashing: a hasher failure is reported as it is; otherwise an Active account with
    /// the hash (created at `account_at`) and its level-1 player (created at `player_at`).
    pub fn on_hashed(self, hashed: Result<String, AppError>, account_at: UtcTime, player_at: UtcTime) -> (r: Result<RegisterAwaitAccountSave, AppError>)
        ensures
            match hashed {
                Err(e) => r matches Err(err) && err@ == e@,
                Ok(h) => r matches Ok(s) && s.account_spec().username == self.username_spec()
                    && s.account_spec().password_hash == h@ && s.account_spec().status
                    == AccountStatusView::Active && s.account_spec().created_at == account_at
                    && s.player_spec().account_id == s.account_spec().id && s.player_spec().nickname
                    == self.nickname_spec() && s.player_spec().level == 1 && s.player_spec().exp == 0
                    && s.player_spec().last_login_at is None && s.player_spec().created_at == player_at,
            },
    {
        match hashed {
            Err(e) => Err(e),
            Ok(h) => {
                let account = Account::register(self.username, PasswordHash::new(h), account_at);
                let player = Player::create(account.id(), self.nickname, player_at);
                Ok(RegisterAwaitAccountSave { account, player })
            },
        }
    }
}

impl RegisterAwaitAccountSave {
    pub closed spec fn account_spec(&self) -> AccountView {
        self.account@
    }

    pub closed spec fn player_spec(&self) -> PlayerView {
        self.player@
    }

    /// The account to save.
    pub fn account(&self) -> (a: &Account)
        ensures
            a@ == self.account_spec(),
    {
        &self.account
    }

    /// After the save: a failed save is reported.
    pub fn on_saved(self, saved: Result<(), RepoError>) -> (r: Result<RegisterAwaitPlayerSave, AppError>)
        ensures
            match saved {
                Err(e) => r matches Err(err) && err@ == repo_to_app(e@),
                Ok(_) => r matches Ok(s) && s.account_spec() == self.account_spec() && s.player_spec()
                    == self.player_spec(),
            },
    {
        match saved {
            Err(e) => Err(AppError::from_repo(e)),
            Ok(()) => Ok(RegisterAwaitPlayerSave { account: self.account, player: self.player }),
        }
    }
}

impl RegisterAwaitPlayerSave {
    pub closed spec fn account_spec(&self) -> AccountView {
        self.account@
    }

    pub closed spec fn player_spec(&self) -> PlayerView {
        self.player@
    }

    /// The player to save.
    pub fn player(&self) -> (p: &Player)
        ensures
            p@ == self.player_spec(),
    {
        &self.player
    }

    /// After the save: a failed save means the account saved before it must be removed
    /// again, so that no account is left without its player.
    pub fn on_saved(self, saved: Result<(), RepoError>) -> (r: Result<RegisterAwaitAudit, RegisterAwaitUndo>)
        ensures
            match saved {
                Err(e) => r matches Err(u) && u.account_id_spec() == self.account_spec().id
                    && u.error_spec() == repo_to_app(e@),
                Ok(_) => r matches Ok(s) && s.account_spec() == self.account_spec() && s.player_spec()
                    == self.player_spec(),
            },
    {
        match saved {
            Err(e) => Err(RegisterAwaitUndo { account_id: self.account.id(), error: AppError::from_repo(e) }),
            Ok(()) => Ok(RegisterAwaitAudit { account: self.account, player: self.player }),
        }
    }
}

impl RegisterAwaitUndo {
    pub closed spec fn account_id_spec(&self) -> AccountId {
        self.account_id
    }

    pub closed spec fn error_spec(&self) -> AppErrorView {
        self.error@
    }

    /// The account to remove.
    pub fn account_id(&self) -> (a: AccountId)
        ensures
            a == self.account_id_spec(),
    {
        self.account_id
    }

    /// After the removal: the registration fails with the player save's error either way (a
    /// failed removal is for the caller to log).
    pub fn on_undone(self, undone: Result<(), RepoError>) -> (e: AppError)
        ensures
            e@ == self.error_spec(),
    {
        self.error
    }
}

impl RegisterAwaitAudit {
    pub closed spec fn account_spec(&self) -> AccountView {
        self.account@
    }

    pub closed spec fn player_spec(&self) -> PlayerView {
        self.player@
    }

    /// The audit record: player, action `register`, detail `{"username":"<player id>"}`.
    pub fn audit_record(&self) -> (r: (PlayerId, &'static str, String))
        ensures
            r.0 == self.player_spec().id,
            r.1@ == "register"@,
            r.2@ == "{\"username\":\""@ + uuid_hyphenated(self.player_spec().id.0) + "\"}"@,
    {
        let mut detail = String::from_str("{\"username\":\"");
        let id = uuid_text(self.player.id().0);
        detail.append(id.as_str());
        detail.append("\"}");
        (self.player.id(), "register", detail)
    }

    /// After the audit: its failure does not stop the registration (the caller logs it).
    pub fn on_audited(self, audited: Result<(), AppError>) -> (r: RegisterResult)
        ensures
            r.account_id == self.account_spec().id,
            r.player_id == self.player_spec().id,
            r.nickname@ == self.player_spec().nickname,
    {
        RegisterResult {
            account_id: self.account.id(),
            player_id: self.player.id(),
            nickname: String::from_str(self.player.nickname().as_str()),
        }
    }
}

/// A storage conflict on save means the user name was taken meanwhile; other failures are
/// reported as they are.
pub fn map_conflict(err: RepoError) -> (r: AppError)
    ensures
        match err@ {
            RepoErrorView::Conflict(_) => r@ == name_taken(),
            _ => r@ == repo_to_app(err@),
        },
{
    match err {
        RepoError::Conflict(_) => AppError::Conflict(String::from_str("用户名已被占用")),
        other => AppError::from_repo(other),
    }
}

} // verus!
