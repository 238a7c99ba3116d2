//! Account aggregate: login credentials and account-level status.

use crate::ids::{fresh_uuid, uuid_variant, uuid_version, AccountId};
use crate::time::{lemma_lexicographic, UtcTime};
use crate::value::{PasswordHash, Username};
use vstd::prelude::*;

verus! {

/// Account status: Active, Suspended, or Banned with an optional end.
#[derive(Debug, Clone, PartialEq, Eq)]
pub enum AccountStatus {
    Active,
    Suspended,
    Banned { reason: String, until: Option<UtcTime> },
}

/// `AccountStatus` with the ban reason taken as a character sequence.
pub enum AccountStatusView {
    Active,
    Suspended,
    Banned { reason: Seq<char>, until: Option<UtcTime> },
}

impl View for AccountStatus {
    type V = AccountStatusView;

    open spec fn view(&self) -> AccountStatusView {
        match self {
            AccountStatus::Active => AccountStatusView::Active,
            AccountStatus::Suspended => AccountStatusView::Suspended,
            AccountStatus::Banned { reason, until } => AccountStatusView::Banned {
                reason: reason@,
                until: *until,
            },
        }
    }
}

impl AccountStatusView {
    /// Login is allowed when active, or banned with an end that `now` has reached;
    /// a ban without an end is permanent.
    pub open spec fn allows_login(self, now: UtcTime) -> bool {
        match self {
            AccountStatusView::Active => true,
            AccountStatusView::Suspended => false,
            AccountStatusView::Banned { until, .. } => match until {
                Some(end) => now.not_before(end),
                None => false,
            },
        }
    }

    /// Storage code: 0 Active, 1 Suspended, 2 Banned.
    pub open spec fn code(self) -> i16 {
        match self {
            AccountStatusView::Active => 0,
            AccountStatusView::Suspended => 1,
            AccountStatusView::Banned { .. } => 2,
        }
    }
}

/// A ban with an end lets the account in exactly from that instant on: for well-formed
/// instants, login is allowed when `now`, counted in nanoseconds since the epoch, is at or
/// past the end. Active accounts always log in; suspended ones and endless bans never do.
pub proof fn law_ban_lifts_at_its_end(status: AccountStatusView, now: UtcTime)
    ensures
        status matches AccountStatusView::Banned { until: Some(end), .. } ==> (now.wf() && end.wf()
            ==> status.allows_login(now) == (now.total() >= end.total())),
        status matches AccountStatusView::Banned { until: None, .. } ==> !status.allows_login(now),
        status is Active ==> status.allows_login(now),
        status is Suspended ==> !status.allows_login(now),
{
    if let AccountStatusView::Banned { until: Some(end), .. } = status {
        lemma_lexicographic(now.secs as int, now.nanos as int, end.secs as int, end.nanos as int);
    }
}

impl AccountStatus {
    /// Whether an account in this status may log in at `now`.
    pub fn allows_login(&self, now: UtcTime) -> (b: bool)
        ensures
            b == self@.allows_login(now),
            self@ matches AccountStatusView::Banned { until: Some(end), .. } ==> (now.wf() && end.wf()
                ==> b == (now.total() >= end.total())),
    {
        proof {
            law_ban_lifts_at_its_end(self@, now);
        }
        match self {
            AccountStatus::Active => true,
            AccountStatus::Suspended => false,
            AccountStatus::Banned { until, .. } => match until {
                Some(end) => now.at_or_after(end),
                None => false,
            },
        }
    }

    /// Storage code of this status.
    pub fn code(&self) -> (c: i16)
        ensures
            c == self@.code(),
    {
        match self {
            AccountStatus::Active => 0,
            AccountStatus::Suspended => 1,
            AccountStatus::Banned { .. } => 2,
        }
    }
}

/// Account aggregate root. It has no `Debug`: the password hash must not reach diagnostics.
#[derive(Clone)]
pub struct Account {
    id: AccountId,
    username: Username,
    password_hash: PasswordHash,
    status: AccountStatus,
    created_at: UtcTime,
}

/// Abstract state of an account.
pub struct AccountView {
    pub id: AccountId,
    pub username: Seq<char>,
    pub password_hash: Seq<char>,
    pub status: AccountStatusView,
    pub created_at: UtcTime,
}

impl View for Account {
    type V = AccountView;

    closed spec fn view(&self) -> AccountView {
        AccountView {
            id: self.id,
            username: self.username@,
            password_hash: self.password_hash@,
            status: self.status@,
            created_at: self.created_at,
        }
    }
}

impl Account {
    /// A newly registered account: fresh version-7 id, Active.
    pub fn register(username: Username, password_hash: PasswordHash, now: UtcTime) -> (a: Account)
        ensures
            a@.username == username@,
            a@.password_hash == password_hash@,
            a@.status == AccountStatusView::Active,
            a@.created_at == now,
            uuid_version(a@.id.0) == 7,
            uuid_variant(a@.id.0) == 2,
    {
        let id = AccountId(fresh_uuid());
        Account { id, username, password_hash, status: AccountStatus::Active, created_at: now }
    }

    /// Rebuilds an account from stored data, without checks.
    pub fn reconstitute(
        id: AccountId,
        username: Username,
        password_hash: PasswordHash,
        status: AccountStatus,
        created_at: UtcTime,
    ) -> (a: Account)
        ensures
            a@ == (AccountView {
                id,
                username: username@,
                password_hash: password_hash@,
                status: status@,
                created_at,
            }),
    {
        Account { id, username, password_hash, status, created_at }
    }

    pub fn id(&self) -> (i: AccountId)
        ensures
            i == self@.id,
    {
        self.id
    }

    pub fn username(&self) -> (u: &Username)
        ensures
            u@ == self@.username,
    {
        &self.username
    }

    pub fn password_hash(&self) -> (h: &PasswordHash)
        ensures
            h@ == self@.password_hash,
    {
        &self.password_hash
    }

    pub fn status(&self) -> (s: &AccountStatus)
        ensures
            s@ == self@.status,
    {
        &self.status
    }

    pub fn created_at(&self) -> (t: UtcTime)
        ensures
            t == self@.created_at,
    {
        self.created_at
    }

    pub fn suspend(&mut self)
        ensures
            final(self)@ == (AccountView { status: AccountStatusView::Suspended, ..old(self)@ }),
    {
        self.status = AccountStatus::Suspended;
    }

    pub fn ban(&mut self, reason: String, until: Option<UtcTime>)
        ensures
            final(self)@ == (AccountView {
                status: AccountStatusView::Banned { reason: reason@, until },
                ..old(self)@
            }),
    {
        self.status = AccountStatus::Banned { reason, until };
    }

    pub fn activate(&mut self)
        ensures
            final(self)@ == (AccountView { status: AccountStatusView::Active, ..old(self)@ }),
    {
        self.status = AccountStatus::Active;
    }
}

} // verus!
