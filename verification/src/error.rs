//! Errors of the domain rules and of the repositories.

use crate::ids::{uuid_hyphenated, uuid_text, RoomId};
use vstd::prelude::*;
use vstd::string::*;

verus! {

/// A broken domain rule: raised by value checks and by the aggregates' state machines.
#[derive(Debug, Clone, PartialEq, Eq)]
pub enum DomainError {
    InvalidValue { field: &'static str, reason: String },
    RoomFull(RoomId),
    RoomClosed(RoomId),
    NotMember { player_id: u128, room_id: RoomId },
    IllegalTransition { from: String, to: String },
}

/// `DomainError` with its texts taken as character sequences.
pub enum DomainErrorView {
    InvalidValue { field: Seq<char>, reason: Seq<char> },
    RoomFull(RoomId),
    RoomClosed(RoomId),
    NotMember { player_id: u128, room_id: RoomId },
    IllegalTransition { from: Seq<char>, to: Seq<char> },
}

impl View for DomainError {
    type V = DomainErrorView;

    open spec fn view(&self) -> DomainErrorView {
        match self {
            DomainError::InvalidValue { field, reason } => DomainErrorView::InvalidValue {
                field: field@,
                reason: reason@,
            },
            DomainError::RoomFull(id) => DomainErrorView::RoomFull(*id),
            DomainError::RoomClosed(id) => DomainErrorView::RoomClosed(*id),
            DomainError::NotMember { player_id, room_id } => DomainErrorView::NotMember {
                player_id: *player_id,
                room_id: *room_id,
            },
            DomainError::IllegalTransition { from, to } => DomainErrorView::IllegalTransition {
                from: from@,
                to: to@,
            },
        }
    }
}

/// The human-readable text of a domain error.
pub open spec fn domain_error_text(e: DomainErrorView) -> Seq<char> {
    match e {
        DomainErrorView::InvalidValue { field, reason } => field + " 不合法: "@ + reason,
        DomainErrorView::RoomFull(id) => "房间 "@ + uuid_hyphenated(id.0) + " 已满"@,
        DomainErrorView::RoomClosed(id) => "房间 "@ + uuid_hyphenated(id.0) + " 已关闭"@,
        DomainErrorView::NotMember { player_id, room_id } => "玩家 "@ + uuid_hyphenated(player_id)
            + " 不在房间 "@ + uuid_hyphenated(room_id.0) + " 中"@,
        DomainErrorView::IllegalTransition { from, to } => "房间状态机不允许从 "@ + from
            + " 迁移到 "@ + to,
    }
}

impl DomainError {
    /// The human-readable text of this error.
    pub fn message(&self) -> (s: String)
        ensures
            s@ == domain_error_text(self@),
    {
        match self {
            DomainError::InvalidValue { field, reason } => {
                let mut s = String::from_str(field);
                s.append(" 不合法: ");
                s.append(reason.as_str());
                s
            },
            DomainError::RoomFull(id) => {
                let mut s = String::from_str("房间 ");
                let t = uuid_text(id.0);
                s.append(t.as_str());
                s.append(" 已满");
                s
            },
            DomainError::RoomClosed(id) => {
                let mut s = String::from_str("房间 ");
                let t = uuid_text(id.0);
                s.append(t.as_str());
                s.append(" 已关闭");
                s
            },
            DomainError::NotMember { player_id, room_id } => {
                let mut s = String::from_str("玩家 ");
                let p = uuid_text(*player_id);
                s.append(p.as_str());
                s.append(" 不在房间 ");
                let r = uuid_text(room_id.0);
                s.append(r.as_str());
                s.append(" 中");
                s
            },
            DomainError::IllegalTransition { from, to } => {
                let mut s = String::from_str("房间状态机不允许从 ");
                s.append(from.as_str());
                s.append(" 迁移到 ");
                s.append(to.as_str());
                s
            },
        }
    }
}

/// A repository failure.
#[derive(Debug, Clone, PartialEq, Eq)]
pub enum RepoError {
    Storage(String),
    Conflict(String),
}

/// `RepoError` with its text taken as a character sequence.
pub enum RepoErrorView {
    Storage(Seq<char>),
    Conflict(Seq<char>),
}

impl View for RepoError {
    type V = RepoErrorView;

    open spec fn view(&self) -> RepoErrorView {
        match self {
            RepoError::Storage(s) => RepoErrorView::Storage(s@),
            RepoError::Conflict(s) => RepoErrorView::Conflict(s@),
        }
    }
}

/// The human-readable text of a repository error.
pub open spec fn repo_error_text(e: RepoErrorView) -> Seq<char> {
    match e {
        RepoErrorView::Storage(s) => "存储故障: "@ + s,
        RepoErrorView::Conflict(s) => "数据冲突: "@ + s,
    }
}

impl RepoError {
    /// The human-readable text of this error.
    pub fn message(&self) -> (s: String)
        ensures
            s@ == repo_error_text(self@),
    {
        match self {
            RepoError::Storage(r) => {
                let mut s = String::from_str("存储故障: ");
                s.append(r.as_str());
                s
            },
            RepoError::Conflict(r) => {
                let mut s = String::from_str("数据冲突: ");
                s.append(r.as_str());
                s
            },
        }
    }
}

} // verus!
