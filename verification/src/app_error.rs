//! Errors of the use cases; the gateway maps them to protocol errors or HTTP statuses.
//! They never carry passwords or tokens.

use crate::error::{DomainError, DomainErrorView, RepoError, RepoErrorView};
use vstd::prelude::*;
use vstd::std_specs::convert::FromSpecImpl;
use vstd::string::*;

verus! {

/// A use-case failure.
#[derive(Debug, Clone, PartialEq, Eq)]
pub enum AppError {
    Validation(String),
    Unauthorized(String),
    Forbidden(String),
    NotFound(String),
    Conflict(String),
    Busy,
    RateLimited,
    Storage(String),
    Internal(String),
}

/// `AppError` with its texts taken as character sequences.
pub enum AppErrorView {
    Validation(Seq<char>),
    Unauthorized(Seq<char>),
    Forbidden(Seq<char>),
    NotFound(Seq<char>),
    Conflict(Seq<char>),
    Busy,
    RateLimited,
    Storage(Seq<char>),
    Internal(Seq<char>),
}

impl View for AppError {
    type V = AppErrorView;

    open spec fn view(&self) -> AppErrorView {
        match self {
            AppError::Validation(s) => AppErrorView::Validation(s@),
            AppError::Unauthorized(s) => AppErrorView::Unauthorized(s@),
            AppError::Forbidden(s) => AppErrorView::Forbidden(s@),
            AppError::NotFound(s) => AppErrorView::NotFound(s@),
            AppError::Conflict(s) => AppErrorView::Conflict(s@),
            AppError::Busy => AppErrorView::Busy,
            AppError::RateLimited => AppErrorView::RateLimited,
            AppError::Storage(s) => AppErrorView::Storage(s@),
            AppError::Internal(s) => AppErrorView::Internal(s@),
        }
    }
}

/// The human-readable text of a use-case error.
pub open spec fn app_error_text(e: AppErrorView) -> Seq<char> {
    match e {
        AppErrorView::Validation(s) => "输入不合法: "@ + s,
        AppErrorView::Unauthorized(s) => "未鉴权: "@ + s,
        AppErrorView::Forbidden(s) => "禁止操作: "@ + s,
        AppErrorView::NotFound(s) => "资源不存在: "@ + s,
        AppErrorView::Conflict(s) => "状态冲突: "@ + s,
        AppErrorView::Busy => "服务繁忙,请稍后重试"@,
        AppErrorView::RateLimited => "请求过于频繁"@,
        AppErrorView::Storage(s) => "存储故障: "@ + s,
        AppErrorView::Internal(s) => "内部错误: "@ + s,
    }
}

/// How a domain error is reported by the use cases.
pub open spec fn domain_to_app(e: DomainErrorView) -> AppErrorView {
    match e {
        DomainErrorView::InvalidValue { field, reason } => AppErrorView::Validation(
            field + ": "@ + reason,
        ),
        DomainErrorView::RoomFull(_) => AppErrorView::Conflict("房间已满"@),
        DomainErrorView::RoomClosed(_) => AppErrorView::Conflict("房间已关闭"@),
        DomainErrorView::NotMember { .. } => AppErrorView::Validation("不在该房间中"@),
        DomainErrorView::IllegalTransition { .. } => AppErrorView::Internal("非法状态迁移"@),
    }
}

/// How a repository error is reported by the use cases.
pub open spec fn repo_to_app(e: RepoErrorView) -> AppErrorView {
    match e {
        RepoErrorView::Conflict(r) => AppErrorView::Conflict(r),
        RepoErrorView::Storage(r) => AppErrorView::Storage(r),
    }
}

fn prefixed(prefix: &str, s: &String) -> (r: String)
    ensures
        r@ == prefix@ + s@,
{
    let mut r = String::from_str(prefix);
    r.append(s.as_str());
    r
}

impl AppError {
    /// The human-readable text of this error.
    pub fn message(&self) -> (s: String)
        ensures
            s@ == app_error_text(self@),
    {
        match self {
            AppError::Validation(s) => prefixed("输入不合法: ", s),
            AppError::Unauthorized(s) => prefixed("未鉴权: ", s),
            AppError::Forbidden(s) => prefixed("禁止操作: ", s),
            AppError::NotFound(s) => prefixed("资源不存在: ", s),
            AppError::Conflict(s) => prefixed("状态冲突: ", s),
            AppError::Busy => String::from_str("服务繁忙,请稍后重试"),
            AppError::RateLimited => String::from_str("请求过于频繁"),
            AppError::Storage(s) => prefixed("存储故障: ", s),
            AppError::Internal(s) => prefixed("内部错误: ", s),
        }
    }

    /// Reports a domain error.
    pub fn from_domain(err: DomainError) -> (r: AppError)
        ensures
            r@ == domain_to_app(err@),
    {
        match err {
            DomainError::InvalidValue { field, reason } => {
                let mut s = String::from_str(field);
                s.append(": ");
                s.append(reason.as_str());
                AppError::Validation(s)
            },
            DomainError::RoomFull(_) => AppError::Conflict(String::from_str("房间已满")),
            DomainError::RoomClosed(_) => AppError::Conflict(String::from_str("房间已关闭")),
            DomainError::NotMember { .. } => AppError::Validation(String::from_str("不在该房间中")),
            DomainError::IllegalTransition { .. } => AppError::Internal(
                String::from_str("非法状态迁移"),
            ),
        }
    }

    /// Reports a repository error, keeping its text.
    pub fn from_repo(err: RepoError) -> (r: AppError)
        ensures
            r@ == repo_to_app(err@),
    {
        match err {
            RepoError::Conflict(reason) => AppError::Conflict(reason),
            RepoError::Storage(reason) => AppError::Storage(reason),
        }
    }
}

impl From<RepoError> for AppError {
    fn from(err: RepoError) -> (r: AppError) {
        match err {
            RepoError::Conflict(reason) => AppError::Conflict(reason),
            RepoError::Storage(reason) => AppError::Storage(reason),
        }
    }
}

impl FromSpecImpl<RepoError> for AppError {
    open spec fn obeys_from_spec() -> bool {
        true
    }

    open spec fn from_spec(err: RepoError) -> AppError {
        match err {
            RepoError::Conflict(reason) => AppError::Conflict(reason),
            RepoError::Storage(reason) => AppError::Storage(reason),
        }
    }
}

impl From<DomainError> for AppError {
    /// Reports a domain error, as `from_domain`.
    fn from(err: DomainError) -> (r: AppError)
        ensures
            r@ == domain_to_app(err@),
    {
        AppError::from_domain(err)
    }
}

impl FromSpecImpl<DomainError> for AppError {
    /// The texts of the result are built here, so no spec value can name them; the
    /// contract of `from` states the result over the views.
    open spec fn obeys_from_spec() -> bool {
        false
    }

    open spec fn from_spec(err: DomainError) -> AppError {
        AppError::Busy
    }
}

} // verus!
