//! HTTP rules: status and message for each use-case error, the HTTP→HTTPS redirect target,
//! and the HSTS header.

use crate::app_error::{AppError, AppErrorView};
use crate::dto::{LoginCommand, LoginResult, PlayerProfile, RegisterCommand, RegisterResult};
use crate::ids::PlayerId;
use crate::text::{trim, trim_spec};
use crate::time::UtcTime;
use vstd::prelude::*;
use vstd::std_specs::convert::FromSpecImpl;
use vstd::string::*;

verus! {

/// An error answer: HTTP status code and a message safe to show to clients.
#[derive(Debug)]
pub struct ApiError {
    status: u16,
    message: String,
}

/// Status and message for a use-case error; storage and internal failures are hidden
/// behind a generic message.
pub open spec fn api_error_for(e: AppErrorView) -> (u16, Seq<char>) {
    match e {
        AppErrorView::Validation(m) => (400, m),
        AppErrorView::Unauthorized(m) => (401, m),
        AppErrorView::Forbidden(m) => (403, m),
        AppErrorView::NotFound(m) => (404, m),
        AppErrorView::Conflict(m) => (409, m),
        AppErrorView::Busy => (503, "服务繁忙,请稍后重试"@),
        AppErrorView::RateLimited => (429, "请求过于频繁"@),
        AppErrorView::Storage(_) => (500, "服务器内部错误"@),
        AppErrorView::Internal(_) => (500, "服务器内部错误"@),
    }
}

impl ApiError {
    pub fn new(status: u16, message: String) -> (r: ApiError)
        ensures
            r.status_spec() == status,
            r.message_spec() == message@,
    {
        ApiError { status, message }
    }

    pub closed spec fn status_spec(&self) -> u16 {
        self.status
    }

    pub closed spec fn message_spec(&self) -> Seq<char> {
        self.message@
    }

    pub fn status(&self) -> (s: u16)
        ensures
            s == self.status_spec(),
    {
        self.status
    }

    pub fn message(&self) -> (m: &str)
        ensures
            m@ == self.message_spec(),
    {
        self.message.as_str()
    }

    /// The answer for a use-case error.
    pub fn from_app_error(err: AppError) -> (r: ApiError)
        ensures
            (r.status_spec(), r.message_spec()) == api_error_for(err@),
    {
        match err {
            AppError::Validation(msg) => ApiError { status: 400, message: msg },
            AppError::Unauthorized(msg) => ApiError { status: 401, message: msg },
            AppError::Forbidden(msg) => ApiError { status: 403, message: msg },
            AppError::NotFound(msg) => ApiError { status: 404, message: msg },
            AppError::Conflict(msg) => ApiError { status: 409, message: msg },
            AppError::Busy => ApiError {
                status: 503,
                message: String::from_str("服务繁忙,请稍后重试"),
            },
            AppError::RateLimited => ApiError { status: 429, message: String::from_str("请求过于频繁") },
            AppError::Storage(_) => ApiError {
                status: 500,
                message: String::from_str("服务器内部错误"),
            },
            AppError::Internal(_) => ApiError {
                status: 500,
                message: String::from_str("服务器内部错误"),
            },
        }
    }
}

impl From<AppError> for ApiError {
    /// The answer for a use-case error, as `from_app_error`.
    fn from(err: AppError) -> (r: ApiError)
        ensures
            (r.status_spec(), r.message_spec()) == api_error_for(err@),
    {
        ApiError::from_app_error(err)
    }
}

impl FromSpecImpl<AppError> for ApiError {
    /// Some messages of the result are new strings, which no spec value can name; the
    /// contract of `from` states the result through `api_error_for`.
    open spec fn obeys_from_spec() -> bool {
        false
    }

    open spec fn from_spec(err: AppError) -> ApiError {
        arbitrary()
    }
}

/// Redirect target for a plain-HTTP request: same host and path-and-query over HTTPS; a
/// missing host is empty and a missing path is `/`.
pub open spec fn redirect_target_spec(host: Option<Seq<char>>, path_and_query: Option<Seq<char>>) -> Seq<char> {
    "https://"@ + (match host {
        Some(h) => h,
        None => Seq::<char>::empty(),
    }) + (match path_and_query {
        Some(p) => p,
        None => "/"@,
    })
}

/// Where a plain-HTTP request is sent (with status 308, which keeps method and body).
pub fn redirect_target(host: Option<&str>, path_and_query: Option<&str>) -> (r: String)
    ensures
        r@ == redirect_target_spec(
            match host {
                Some(h) => Some(h@),
                None => None,
            },
            match path_and_query {
                Some(p) => Some(p@),
                None => None,
            },
        ),
{
    let mut target = String::from_str("https://");
    match host {
        Some(h) => target.append(h),
        None => {},
    }
    match path_and_query {
        Some(p) => target.append(p),
        None => target.append("/"),
    }
    target
}

/// Name of the strict-transport-security header.
pub const HSTS_HEADER: &'static str = "strict-transport-security";

/// Value of the strict-transport-security header that every HTTPS answer carries.
pub const HSTS_VALUE: &'static str = "max-age=63072000; includeSubDomains";

/// Body of `POST /register`.
pub struct RegisterRequest {
    pub username: String,
    pub password: String,
    pub nickname: String,
}

impl RegisterRequest {
    /// The registration command carrying the request's fields.
    pub fn into_command(self) -> (c: RegisterCommand)
        ensures
            c.username == self.username,
            c.password == self.password,
            c.nickname == self.nickname,
    {
        RegisterCommand { username: self.username, password: self.password, nickname: self.nickname }
    }
}

/// Answer of `POST /register` (status 201); ids by their 128-bit values.
pub struct RegisterResponse {
    pub account_id: u128,
    pub player_id: u128,
    pub nickname: String,
}

impl RegisterResponse {
    pub fn from_result(result: RegisterResult) -> (r: RegisterResponse)
        ensures
            r.account_id == result.account_id.0,
            r.player_id == result.player_id.0,
            r.nickname == result.nickname,
    {
        RegisterResponse {
            account_id: result.account_id.0,
            player_id: result.player_id.0,
            nickname: result.nickname,
        }
    }
}

/// Body of `POST /login`.
pub struct LoginRequest {
    pub username: String,
    pub password: String,
}

impl LoginRequest {
    /// The login command carrying the request's fields.
    pub fn into_command(self) -> (c: LoginCommand)
        ensures
            c.username == self.username,
            c.password == self.password,
    {
        LoginCommand { username: self.username, password: self.password }
    }
}

/// Answer of `POST /login`.
pub struct LoginResponse {
    pub token: String,
    pub player_id: u128,
    pub nickname: String,
    pub expires_in_secs: u64,
}

impl LoginResponse {
    pub fn from_result(result: LoginResult) -> (r: LoginResponse)
        ensures
            r.token == result.token,
            r.player_id == result.player_id.0,
            r.nickname == result.nickname,
            r.expires_in_secs == result.expires_in_secs,
    {
        LoginResponse {
            token: result.token,
            player_id: result.player_id.0,
            nickname: result.nickname,
            expires_in_secs: result.expires_in_secs,
        }
    }
}

/// Answer of `GET /me`.
pub struct PlayerResponse {
    pub player_id: u128,
    pub nickname: String,
    pub level: u32,
    pub exp: u64,
    pub last_login_at: Option<UtcTime>,
}

impl PlayerResponse {
    pub fn from_profile(profile: PlayerProfile) -> (r: PlayerResponse)
        ensures
            r.player_id == profile.player_id.0,
            r.nickname == profile.nickname,
            r.level == profile.level,
            r.exp == profile.exp,
            r.last_login_at == profile.last_login_at,
    {
        PlayerResponse {
            player_id: profile.player_id.0,
            nickname: profile.nickname,
            level: profile.level,
            exp: profile.exp,
            last_login_at: profile.last_login_at,
        }
    }
}

/// The authenticated player of a request.
#[derive(Debug, Clone, Copy)]
pub struct AuthUser {
    pub player_id: PlayerId,
}

/// The token an `Authorization` header carries: the text after `Bearer `, trimmed. A
/// missing header and any other scheme are refused with 401.
pub open spec fn bearer_rule(header: Option<Seq<char>>) -> Result<Seq<char>, (u16, Seq<char>)> {
    match header {
        None => Err((401u16, "缺少 Authorization 头"@)),
        Some(h) => if h.len() >= 7 && h.take(7) == "Bearer "@ {
            Ok(trim_spec(h.skip(7)))
        } else {
            Err((401u16, "Authorization 必须为 Bearer token"@))
        },
    }
}

/// Extracts the bearer token of an `Authorization` header (`None`: no header, or one that
/// is not visible ASCII).
pub fn bearer_token(header: Option<&str>) -> (r: Result<String, ApiError>)
    ensures
        match header {
            None => match r {
                Err(e) => bearer_rule(None) == Err::<Seq<char>, (u16, Seq<char>)>((e.status_spec(), e.message_spec())),
                Ok(_) => false,
            },
            Some(h) => match r {
                Ok(t) => bearer_rule(Some(h@)) == Ok::<Seq<char>, (u16, Seq<char>)>(t@),
                Err(e) => bearer_rule(Some(h@)) == Err::<Seq<char>, (u16, Seq<char>)>((e.status_spec(), e.message_spec())),
            },
        },
{
    proof {
        reveal_strlit("Bearer ");
    }
    match header {
        None => Err(ApiError::new(401, String::from_str("缺少 Authorization 头"))),
        Some(h) => {
            let n = h.unicode_len();
            let scheme = "Bearer ";
            let mut ok = n >= 7;
            let mut i: usize = 0;
            while ok && i < 7
                invariant
                    i <= 7,
                    n == h@.len(),
                    scheme@ == "Bearer "@,
                    scheme@.len() == 7,
                    ok ==> n >= 7,
                    ok ==> h@.take(i as int) == scheme@.take(i as int),
                    !ok ==> !(h@.len() >= 7 && h@.take(7) == "Bearer "@),
                decreases 7 - i,
            {
                if h.get_char(i) != scheme.get_char(i) {
                    proof {
                        if h@.len() >= 7 && h@.take(7) == "Bearer "@ {
                            assert(h@.take(7)[i as int] == h@[i as int]);
                        }
                    }
                    ok = false;
                    i = 7;
                } else {
                    proof {
                        assert(h@.take(i + 1) =~= h@.take(i as int).push(h@[i as int]));
                        assert(scheme@.take(i + 1) =~= scheme@.take(i as int).push(scheme@[i as int]));
                    }
                    i = i + 1;
                }
            }
            if !ok {
                return Err(ApiError::new(401, String::from_str("Authorization 必须为 Bearer token")));
            }
            assert(scheme@.take(7) =~= scheme@);
            let rest = h.substring_char(7, n);
            assert(rest@ =~= h@.skip(7));
            let t = trim(rest);
            Ok(t.to_string())
        },
    }
}

/// The authenticated player from the token lookup: an unknown or expired token is 401; a
/// failed lookup answers as its error.
pub fn auth_user_from(resolved: Result<Option<PlayerId>, AppError>) -> (r: Result<AuthUser, ApiError>)
    ensures
        match resolved {
            Ok(Some(p)) => r == Ok::<AuthUser, ApiError>(AuthUser { player_id: p }),
            Ok(None) => match r {
                Err(e) => e.status_spec() == 401 && e.message_spec() == "token 无效或已过期"@,
                Ok(_) => false,
            },
            Err(err) => match r {
                Err(e) => (e.status_spec(), e.message_spec()) == api_error_for(err@),
                Ok(_) => false,
            },
        },
{
    match resolved {
        Ok(Some(player_id)) => Ok(AuthUser { player_id }),
        Ok(None) => Err(ApiError::new(401, String::from_str("token 无效或已过期"))),
        Err(err) => Err(ApiError::from_app_error(err)),
    }
}

} // verus!
