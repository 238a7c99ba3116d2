//! Rules of a long connection: which frames are admitted before and after binding, how each
//! request kind is decided once the outside calls have answered, and what a client is told.
//! The task that owns the connection performs the calls and the sends.

use crate::app_error::{app_error_text, AppError, AppErrorView};
use crate::dto::PlayerProfile;
use crate::error::{repo_error_text, RepoError};
use crate::http::api_error_for;
use crate::ids::{parse_uuid, uuid_hyphenated, uuid_parse, uuid_text, PlayerId, RoomId};
use crate::room_actor::{event_room, RoomEvent, RoomEventView};
use crate::player::Player;
use crate::registry::Registry;
use crate::text::{is_blank, trim, trim_spec};
use vstd::prelude::*;
use vstd::string::*;

verus! {

broadcast use vstd::string::group_string_axioms;

/// Error codes that a client can be sent.
#[derive(Debug, Clone, Copy, PartialEq, Eq, Structural)]
pub enum ErrorCode {
    InvalidInput,
    NotAuthenticated,
    Forbidden,
    NotFound,
    Conflict,
    ServerBusy,
    RateLimited,
    Protocol,
    AlreadyBound,
    AuthRequiredFirst,
    Timeout,
    FrameTooLarge,
}

/// A message to the client, as this library decides it.
#[derive(Debug)]
pub enum Outbound {
    Error { code: ErrorCode, message: String },
    BindOk { player_id: PlayerId, nickname: String },
    BindRejected { reason: String },
    HeartbeatAck { server_ts_ms: i64 },
    Profile(PlayerProfile),
}

/// `Outbound` with its texts taken as character sequences.
pub enum OutboundView {
    Error { code: ErrorCode, message: Seq<char> },
    BindOk { player_id: PlayerId, nickname: Seq<char> },
    BindRejected { reason: Seq<char> },
    HeartbeatAck { server_ts_ms: i64 },
    Profile(PlayerProfile),
}

impl View for Outbound {
    type V = OutboundView;

    open spec fn view(&self) -> OutboundView {
        match self {
            Outbound::Error { code, message } => OutboundView::Error { code: *code, message: message@ },
            Outbound::BindOk { player_id, nickname } => OutboundView::BindOk {
                player_id: *player_id,
                nickname: nickname@,
            },
            Outbound::BindRejected { reason } => OutboundView::BindRejected { reason: reason@ },
            Outbound::HeartbeatAck { server_ts_ms } => OutboundView::HeartbeatAck {
                server_ts_ms: *server_ts_ms,
            },
            Outbound::Profile(p) => OutboundView::Profile(*p),
        }
    }
}

fn error_notice(code: ErrorCode, message: &str) -> (o: Outbound)
    ensures
        o@ == (OutboundView::Error { code, message: message@ }),
{
    Outbound::Error { code, message: String::from_str(message) }
}

/// Code and message a client is sent for a use-case error; storage and internal failures
/// are hidden behind a generic message.
pub open spec fn notice_for(e: AppErrorView) -> OutboundView {
    match e {
        AppErrorView::Validation(m) => OutboundView::Error { code: ErrorCode::InvalidInput, message: m },
        AppErrorView::Unauthorized(m) => OutboundView::Error { code: ErrorCode::NotAuthenticated, message: m },
        AppErrorView::Forbidden(m) => OutboundView::Error { code: ErrorCode::Forbidden, message: m },
        AppErrorView::NotFound(m) => OutboundView::Error { code: ErrorCode::NotFound, message: m },
        AppErrorView::Conflict(m) => OutboundView::Error { code: ErrorCode::Conflict, message: m },
        AppErrorView::Busy => OutboundView::Error {
            code: ErrorCode::ServerBusy,
            message: "服务繁忙,请稍后重试"@,
        },
        AppErrorView::RateLimited => OutboundView::Error {
            code: ErrorCode::RateLimited,
            message: "请求过于频繁"@,
        },
        AppErrorView::Storage(_) => OutboundView::Error { code: ErrorCode::Protocol, message: "服务器内部错误"@ },
        AppErrorView::Internal(_) => OutboundView::Error { code: ErrorCode::Protocol, message: "服务器内部错误"@ },
    }
}

/// The client notice for a use-case error.
pub fn app_error_notification(err: AppError) -> (o: Outbound)
    ensures
        o@ == notice_for(err@),
{
    match err {
        AppError::Validation(msg) => Outbound::Error { code: ErrorCode::InvalidInput, message: msg },
        AppError::Unauthorized(msg) => Outbound::Error { code: ErrorCode::NotAuthenticated, message: msg },
        AppError::Forbidden(msg) => Outbound::Error { code: ErrorCode::Forbidden, message: msg },
        AppError::NotFound(msg) => Outbound::Error { code: ErrorCode::NotFound, message: msg },
        AppError::Conflict(msg) => Outbound::Error { code: ErrorCode::Conflict, message: msg },
        AppError::Busy => error_notice(ErrorCode::ServerBusy, "服务繁忙,请稍后重试"),
        AppError::RateLimited => error_notice(ErrorCode::RateLimited, "请求过于频繁"),
        AppError::Storage(_) => error_notice(ErrorCode::Protocol, "服务器内部错误"),
        AppError::Internal(_) => error_notice(ErrorCode::Protocol, "服务器内部错误"),
    }
}

/// Storage and internal failures are answered alike whatever their text, over HTTP and over
/// the long connection: no internal detail reaches a client.
pub proof fn law_internal_details_never_reach_clients(a: Seq<char>, b: Seq<char>)
    ensures
        api_error_for(AppErrorView::Storage(a)) == api_error_for(AppErrorView::Internal(b)),
        notice_for(AppErrorView::Storage(a)) == notice_for(AppErrorView::Internal(b)),
{
}

/// Room id of a request: absent or blank means none; otherwise it must parse as a UUID.
pub open spec fn room_id_rule(raw: Option<Seq<char>>) -> Result<Option<RoomId>, Seq<char>> {
    match raw {
        None => Ok(None),
        Some(text) => if trim_spec(text).len() == 0 {
            Ok(None)
        } else {
            match uuid_parse(trim_spec(text)) {
                Some(v) => Ok(Some(RoomId(v))),
                None => Err("room_id 不是合法的 UUID"@),
            }
        },
    }
}

/// Reads the optional room id of a request.
pub fn parse_optional_room_id(raw: Option<&str>) -> (r: Result<Option<RoomId>, String>)
    ensures
        r matches Ok(v) ==> room_id_rule(
            match raw {
                Some(t) => Some(t@),
                None => None,
            },
        ) == Ok::<Option<RoomId>, Seq<char>>(v),
        r matches Err(m) ==> room_id_rule(
            match raw {
                Some(t) => Some(t@),
                None => None,
            },
        ) == Err::<Option<RoomId>, Seq<char>>(m@),
{
    match raw {
        None => Ok(None),
        Some(text) => {
            if is_blank(text) {
                return Ok(None);
            }
            match parse_uuid(trim(text)) {
                Some(v) => Ok(Some(RoomId(v))),
                None => Err(String::from_str("room_id 不是合法的 UUID")),
            }
        },
    }
}

/// The player a connection is bound to.
#[derive(Debug, Clone)]
pub struct AuthedPlayer {
    pub player_id: PlayerId,
    pub nickname: String,
}

/// Per-connection state: the bound player, and the one room the connection is in.
#[derive(Debug, Clone)]
pub struct AuthState {
    pub player: Option<AuthedPlayer>,
    pub current_room: Option<RoomId>,
}

impl AuthState {
    /// A connection that is not bound and in no room.
    pub fn new() -> (s: AuthState)
        ensures
            s.player is None,
            s.current_room is None,
    {
        AuthState { player: None, current_room: None }
    }

    pub fn is_authenticated(&self) -> (b: bool)
        ensures
            b == self.player is Some,
    {
        self.player.is_some()
    }

    pub fn authed_player(&self) -> (p: Option<AuthedPlayer>)
        ensures
            p is Some == self.player is Some,
            p matches Some(a) ==> a.player_id == self.player->0.player_id && a.nickname@
                == self.player->0.nickname@,
    {
        match &self.player {
            Some(a) => Some(AuthedPlayer { player_id: a.player_id, nickname: a.nickname.clone() }),
            None => None,
        }
    }

    pub fn set_authed(&mut self, player: AuthedPlayer)
        ensures
            final(self).player == Some(player),
            final(self).current_room == old(self).current_room,
    {
        self.player = Some(player);
    }

    pub fn current_room(&self) -> (r: Option<RoomId>)
        ensures
            r == self.current_room,
    {
        self.current_room
    }

    pub fn set_current_room(&mut self, room_id: Option<RoomId>)
        ensures
            final(self).current_room == room_id,
            final(self).player == old(self).player,
    {
        self.current_room = room_id;
    }
}

impl Default for AuthState {
    fn default() -> (s: AuthState)
        ensures
            s.player is None,
            s.current_room is None,
    {
        AuthState::new()
    }
}

/// Kind of an incoming request.
#[derive(Debug, Clone, Copy, PartialEq, Eq, Structural)]
pub enum InboundKind {
    Bind,
    Heartbeat,
    JoinRoom,
    LeaveRoom,
    RoomChat,
    GetProfile,
}

/// What to do with a decoded frame before it reaches its handler.
#[derive(Debug)]
pub enum Admission {
    /// Hand it to its handler.
    Dispatch,
    /// Send the notice; keep the connection only if `keep` holds.
    Refuse { notice: Outbound, keep: bool },
}

/// The bind gate: an unbound connection may send only Bind (anything else ends it); a bound
/// connection's Bind is refused and the connection stays.
pub open spec fn admission_rule(authenticated: bool, kind: InboundKind) -> Option<(OutboundView, bool)> {
    if !authenticated && kind != InboundKind::Bind {
        Some((OutboundView::Error { code: ErrorCode::AuthRequiredFirst, message: "必须先完成绑定"@ }, false))
    } else if authenticated && kind == InboundKind::Bind {
        Some((OutboundView::Error { code: ErrorCode::AlreadyBound, message: "连接已完成绑定"@ }, true))
    } else {
        None
    }
}

/// Applies the bind gate to a decoded frame.
pub fn gate_frame(authenticated: bool, kind: InboundKind) -> (a: Admission)
    ensures
        a matches Admission::Dispatch ==> admission_rule(authenticated, kind) is None,
        a matches Admission::Refuse { notice, keep } ==> admission_rule(authenticated, kind)
            == Some((notice@, keep)),
{
    if !authenticated {
        if kind != InboundKind::Bind {
            return Admission::Refuse { notice: error_notice(ErrorCode::AuthRequiredFirst, "必须先完成绑定"), keep: false };
        }
    } else if kind == InboundKind::Bind {
        return Admission::Refuse { notice: error_notice(ErrorCode::AlreadyBound, "连接已完成绑定"), keep: true };
    }
    Admission::Dispatch
}

/// Before binding a connection may send only Bind: anything else is refused and ends the
/// connection. After binding Bind is refused and the connection stays, and every other
/// request reaches its handler.
pub proof fn law_bind_gate(kind: InboundKind)
    ensures
        admission_rule(false, kind) is None <==> kind == InboundKind::Bind,
        kind != InboundKind::Bind ==> (admission_rule(false, kind)->Some_0).1 == false,
        admission_rule(true, kind) is None <==> kind != InboundKind::Bind,
        kind == InboundKind::Bind ==> (admission_rule(true, kind)->Some_0).1 == true,
{
}

/// A frame that passed the rate limit; only such a frame may be decoded.
pub struct FrameAwaitDecode {
    passed: bool,
}

/// First step for every frame: the rate limit. A frame refused a token ends the connection
/// with the rate-limit notice and is neither decoded nor dispatched. (Without a limit the
/// caller passes `granted` as true.)
pub fn frame_rate_check(granted: bool) -> (r: Result<FrameAwaitDecode, Admission>)
    ensures
        granted ==> r is Ok,
        !granted ==> (r matches Err(Admission::Refuse { notice, keep }) && !keep && notice@ == (
        OutboundView::Error { code: ErrorCode::RateLimited, message: "请求过于频繁"@ })),
{
    if granted {
        Ok(FrameAwaitDecode { passed: true })
    } else {
        Err(Admission::Refuse { notice: rate_limited_notice(), keep: false })
    }
}

impl FrameAwaitDecode {
    /// Second step, once the frame was decoded: a frame that does not decode ends the
    /// connection with the decoder's text; a decoded one goes through the bind gate.
    pub fn on_decoded(self, decoded: Result<InboundKind, String>, authenticated: bool) -> (a: Admission)
        ensures
            match decoded {
                Err(t) => a matches Admission::Refuse { notice, keep } && !keep && notice@ == (
                OutboundView::Error { code: ErrorCode::Protocol, message: t@ }),
                Ok(kind) => (a matches Admission::Dispatch ==> admission_rule(authenticated, kind) is None)
                    && (a matches Admission::Refuse { notice, keep } ==> admission_rule(authenticated, kind)
                    == Some((notice@, keep))),
            },
    {
        match decoded {
            Err(t) => Admission::Refuse { notice: Outbound::Error { code: ErrorCode::Protocol, message: t }, keep: false },
            Ok(kind) => gate_frame(authenticated, kind),
        }
    }
}

/// Notice for a frame that the rate limiter refused; the connection then ends.
pub fn rate_limited_notice() -> (o: Outbound)
    ensures
        o@ == (OutboundView::Error { code: ErrorCode::RateLimited, message: "请求过于频繁"@ }),
{
    error_notice(ErrorCode::RateLimited, "请求过于频繁")
}

/// Notice for a frame that does not decode; the connection then ends.
pub fn decode_failure_notice(reason: &str) -> (o: Outbound)
    ensures
        o@ == (OutboundView::Error { code: ErrorCode::Protocol, message: reason@ }),
{
    error_notice(ErrorCode::Protocol, reason)
}

/// Notice for a connection that stayed silent too long; the connection then ends.
pub fn timeout_notice() -> (o: Outbound)
    ensures
        o@ == (OutboundView::Error { code: ErrorCode::Timeout, message: "会话超时"@ }),
{
    error_notice(ErrorCode::Timeout, "会话超时")
}

/// Why reading a frame failed.
pub enum ReadFailure {
    /// The peer went away.
    Disconnected,
    /// The frame announced more than the frame limit; with the reader's text.
    FrameTooLarge(String),
    /// Any other read error; with the reader's text.
    Other(String),
}

/// Notice for a failed read (none when the peer is gone); the connection then ends.
pub fn read_failure_notice(failure: ReadFailure) -> (o: Option<Outbound>)
    ensures
        match failure {
            ReadFailure::Disconnected => o is None,
            ReadFailure::FrameTooLarge(t) => o matches Some(n) && n@ == (OutboundView::Error {
                code: ErrorCode::FrameTooLarge,
                message: t@,
            }),
            ReadFailure::Other(t) => o matches Some(n) && n@ == (OutboundView::Error {
                code: ErrorCode::Protocol,
                message: t@,
            }),
        },
{
    match failure {
        ReadFailure::Disconnected => None,
        ReadFailure::FrameTooLarge(t) => Some(Outbound::Error { code: ErrorCode::FrameTooLarge, message: t }),
        ReadFailure::Other(t) => Some(Outbound::Error { code: ErrorCode::Protocol, message: t }),
    }
}

/// The wait for the next frame: the heartbeat timeout once bound, the unauthenticated
/// timeout before.
pub fn read_timeout<T: Copy>(authenticated: bool, heartbeat_timeout: T, unauth_timeout: T) -> (t: T)
    ensures
        t == (if authenticated { heartbeat_timeout } else { unauth_timeout }),
{
    if authenticated {
        heartbeat_timeout
    } else {
        unauth_timeout
    }
}

/// What a handler produced.
pub enum DispatchOutcome {
    Reply(Outbound),
    Nothing,
    /// The handler failed, with its text.
    Failed(String),
}

/// What to send after a handler ran: its reply, nothing, or for a failure the notice of an
/// internal error. The connection stays when nothing is sent or the send succeeds.
pub fn dispatch_notice(outcome: DispatchOutcome) -> (o: Option<Outbound>)
    ensures
        match outcome {
            DispatchOutcome::Reply(r) => o matches Some(n) && n@ == r@,
            DispatchOutcome::Nothing => o is None,
            DispatchOutcome::Failed(t) => o matches Some(n) && n@ == notice_for(AppErrorView::Internal(t@)),
        },
{
    match outcome {
        DispatchOutcome::Reply(r) => Some(r),
        DispatchOutcome::Nothing => None,
        DispatchOutcome::Failed(t) => Some(app_error_notification(AppError::Internal(t))),
    }
}

/// What to undo when a connection ends.
pub struct CleanupPlan {
    /// Remove this connection from the connection registry.
    pub deregister: u128,
    /// Remove this player from every room.
    pub leave_all_for: Option<PlayerId>,
    /// Give back the unauthenticated slot of the peer.
    pub release_unauth_slot: bool,
}

/// One connection from accept to close, as the shared tables see it: its id, whether it took
/// an unauthenticated slot, and whether that slot was given back.
pub struct ConnectionLife {
    conn_id: u128,
    holding_slot: bool,
    slot_released: bool,
}

/// `ConnectionLife` as plain values.
pub struct ConnectionLifeView {
    pub conn_id: u128,
    pub holding_slot: bool,
    pub slot_released: bool,
}

impl View for ConnectionLife {
    type V = ConnectionLifeView;

    closed spec fn view(&self) -> ConnectionLifeView {
        ConnectionLifeView {
            conn_id: self.conn_id,
            holding_slot: self.holding_slot,
            slot_released: self.slot_released,
        }
    }
}

/// A successful bind gives the slot back unless that was done already.
pub open spec fn bound_spec(l: ConnectionLifeView) -> (ConnectionLifeView, bool) {
    (
        ConnectionLifeView { slot_released: l.slot_released || l.holding_slot, ..l },
        l.holding_slot && !l.slot_released,
    )
}

/// Closing gives the slot back unless that was done already.
pub open spec fn close_releases(l: ConnectionLifeView) -> bool {
    l.holding_slot && !l.slot_released
}

/// A connection just opened with a slot.
pub open spec fn opened(conn_id: u128) -> ConnectionLifeView {
    ConnectionLifeView { conn_id, holding_slot: true, slot_released: false }
}

/// Accept: a peer that got no unauthenticated slot is refused before anything is read or
/// registered; otherwise the connection starts holding its slot (and is then registered).
pub fn open_connection(conn_id: u128, slot_acquired: bool) -> (r: Option<ConnectionLife>)
    ensures
        !slot_acquired ==> r is None,
        slot_acquired ==> (r matches Some(l) && l@ == opened(conn_id)),
{
    if slot_acquired {
        Some(ConnectionLife { conn_id, holding_slot: true, slot_released: false })
    } else {
        None
    }
}

impl ConnectionLife {
    pub fn conn_id(&self) -> (c: u128)
        ensures
            c == self@.conn_id,
    {
        self.conn_id
    }

    /// A successful bind: whether to give the unauthenticated slot back now.
    pub fn on_bound(&mut self) -> (release: bool)
        ensures
            (final(self)@, release) == bound_spec(old(self)@),
    {
        let release = self.holding_slot && !self.slot_released;
        if self.holding_slot {
            self.slot_released = true;
        }
        release
    }

    /// Close: the connection leaves the registry; a bound player leaves every room; the slot
    /// is given back unless binding already did.
    pub fn close(self, state: &AuthState) -> (p: CleanupPlan)
        ensures
            p.deregister == self@.conn_id,
            p.leave_all_for == (match state.player {
                Some(a) => Some(a.player_id),
                None => None::<PlayerId>,
            }),
            p.release_unauth_slot == close_releases(self@),
    {
        let leave_all_for = match &state.player {
            Some(a) => Some(a.player_id),
            None => None,
        };
        CleanupPlan {
            deregister: self.conn_id,
            leave_all_for,
            release_unauth_slot: self.holding_slot && !self.slot_released,
        }
    }
}

/// Slots given back by `binds` successful binds followed by the close.
pub open spec fn releases_after(l: ConnectionLifeView, binds: nat) -> int
    decreases binds,
{
    if binds == 0 {
        if close_releases(l) { 1 } else { 0 }
    } else {
        let (l2, r) = bound_spec(l);
        (if r { 1int } else { 0int }) + releases_after(l2, (binds - 1) as nat)
    }
}

proof fn lemma_released_stays_released(l: ConnectionLifeView, binds: nat)
    requires
        l.slot_released || !l.holding_slot,
    ensures
        releases_after(l, binds) == 0,
    decreases binds,
{
    if binds > 0 {
        lemma_released_stays_released(bound_spec(l).0, (binds - 1) as nat);
    }
}

/// A connection that took an unauthenticated slot gives it back exactly once, by its bind
/// or at its close, however many binds it saw.
pub proof fn law_slot_released_exactly_once(conn_id: u128, binds: nat)
    ensures
        releases_after(opened(conn_id), binds) == 1,
{
    if binds > 0 {
        lemma_released_stays_released(bound_spec(opened(conn_id)).0, (binds - 1) as nat);
    }
}

/// First step of Bind.
pub enum BindStart {
    Reply(Outbound),
    /// Resolve this token.
    Resolve(String),
}

/// Bind, first step: refused on a bound connection; a blank token is rejected; otherwise the
/// trimmed token is resolved.
pub fn bind_start(state: &AuthState, token: &str) -> (r: BindStart)
    ensures
        state.player is Some ==> (r matches BindStart::Reply(o) && o@ == (OutboundView::Error {
            code: ErrorCode::AlreadyBound,
            message: "连接已完成绑定"@,
        })),
        state.player is None && trim_spec(token@).len() == 0 ==> (r matches BindStart::Reply(o)
            && o@ == (OutboundView::BindRejected { reason: "缺少 token"@ })),
        state.player is None && trim_spec(token@).len() != 0 ==> (r matches BindStart::Resolve(t)
            && t@ == trim_spec(token@)),
{
    if state.is_authenticated() {
        return BindStart::Reply(error_notice(ErrorCode::AlreadyBound, "连接已完成绑定"));
    }
    let trimmed = trim(token);
    if trimmed.unicode_len() == 0 {
        return BindStart::Reply(Outbound::BindRejected { reason: String::from_str("缺少 token") });
    }
    BindStart::Resolve(String::from_str(trimmed))
}

/// Second step of Bind.
pub enum BindResolved {
    Reply(Outbound),
    /// The handler fails with this text.
    Fail(String),
    /// Load this player.
    FindPlayer(PlayerId),
}

/// Bind, after the token store answered: an unknown or expired token is rejected; a store
/// failure fails the handler with the error's text.
pub fn bind_on_resolved(resolved: Result<Option<PlayerId>, AppError>) -> (r: BindResolved)
    ensures
        match resolved {
            Ok(Some(p)) => r == BindResolved::FindPlayer(p),
            Ok(None) => r matches BindResolved::Reply(o) && o@ == (OutboundView::BindRejected {
                reason: "token 无效或已过期"@,
            }),
            Err(e) => r matches BindResolved::Fail(t) && t@ == app_error_text(e@),
        },
{
    match resolved {
        Ok(Some(p)) => BindResolved::FindPlayer(p),
        Ok(None) => BindResolved::Reply(Outbound::BindRejected { reason: String::from_str("token 无效或已过期") }),
        Err(e) => BindResolved::Fail(e.message()),
    }
}

/// Last step of Bind.
pub enum BindFinish {
    /// The handler fails with this text.
    Fail(String),
    /// Bound: give back the unauthenticated slot and send the reply.
    Bound(Outbound),
}

/// Bind, after the player was looked up: a failed or empty lookup fails the handler; a found
/// player binds the connection under its nickname.
pub fn bind_on_player(state: &mut AuthState, player_id: PlayerId, found: Result<Option<Player>, RepoError>) -> (r: BindFinish)
    ensures
        match found {
            Err(e) => r matches BindFinish::Fail(t) && t@ == repo_error_text(e@) && *final(state) == *old(state),
            Ok(None) => r matches BindFinish::Fail(t) && t@ == "token 对应的玩家不存在"@ && *final(state) == *old(state),
            Ok(Some(p)) => (r matches BindFinish::Bound(o) && o@ == (OutboundView::BindOk {
                player_id,
                nickname: p@.nickname,
            })) && (final(state).player matches Some(a) && a.player_id == player_id && a.nickname@
                == p@.nickname) && final(state).current_room == old(state).current_room,
        },
{
    match found {
        Err(e) => BindFinish::Fail(e.message()),
        Ok(None) => BindFinish::Fail(String::from_str("token 对应的玩家不存在")),
        Ok(Some(player)) => {
            let nickname = String::from_str(player.nickname().as_str());
            let reply_name = String::from_str(player.nickname().as_str());
            state.set_authed(AuthedPlayer { player_id, nickname });
            BindFinish::Bound(Outbound::BindOk { player_id, nickname: reply_name })
        },
    }
}

/// The reply to a heartbeat, carrying the server's clock in milliseconds.
pub fn heartbeat_reply(server_ts_ms: i64) -> (o: Outbound)
    ensures
        o@ == (OutboundView::HeartbeatAck { server_ts_ms }),
{
    Outbound::HeartbeatAck { server_ts_ms }
}

/// First step of a room request.
pub enum RoomRequest {
    Reply(Outbound),
    /// Go on as this player with this target room (none: a new room, or all rooms).
    Proceed { player: AuthedPlayer, target: Option<RoomId> },
}

/// The notice for a request from an unbound connection.
pub open spec fn not_bound_notice() -> OutboundView {
    OutboundView::Error { code: ErrorCode::NotAuthenticated, message: "请先完成绑定"@ }
}

/// Join or leave, first step: only a bound connection may ask, and a given room id must
/// parse.
pub fn room_request_start(state: &AuthState, raw_room_id: Option<&str>) -> (r: RoomRequest)
    ensures
        state.player is None ==> (r matches RoomRequest::Reply(o) && o@ == not_bound_notice()),
        state.player is Some ==> match room_id_rule(
            match raw_room_id {
                Some(t) => Some(t@),
                None => None,
            },
        ) {
            Ok(target) => r matches RoomRequest::Proceed { player, target: t } && t == target
                && player.player_id == state.player->0.player_id && player.nickname@
                == state.player->0.nickname@,
            Err(m) => r matches RoomRequest::Reply(o) && o@ == (OutboundView::Error {
                code: ErrorCode::InvalidInput,
                message: m,
            }),
        },
{
    let player = match state.authed_player() {
        Some(p) => p,
        None => return RoomRequest::Reply(error_notice(ErrorCode::NotAuthenticated, "请先完成绑定")),
    };
    match parse_optional_room_id(raw_room_id) {
        Ok(target) => RoomRequest::Proceed { player, target },
        Err(m) => RoomRequest::Reply(Outbound::Error { code: ErrorCode::InvalidInput, message: m }),
    }
}

/// What a join leaves to do.
pub struct JoinFinish {
    /// The notice to send (a failure).
    pub notice: Option<Outbound>,
    /// The room the connection was in and must now leave: a connection is in one room at a
    /// time.
    pub leave_previous: Option<RoomId>,
}

/// Join, last step: the joined room becomes the connection's room and, when the connection
/// was in another room, that room is to be left; a failure is reported and changes nothing.
pub fn join_room_finish(state: &mut AuthState, joined: Result<RoomId, AppError>) -> (r: JoinFinish)
    ensures
        final(state).player == old(state).player,
        match joined {
            Ok(id) => r.notice is None && final(state).current_room == Some(id) && r.leave_previous
                == (match old(state).current_room {
                    Some(a) => if a != id { Some(a) } else { None::<RoomId> },
                    None => None::<RoomId>,
                }),
            Err(e) => (r.notice matches Some(n) && n@ == notice_for(e@)) && r.leave_previous is None
                && final(state).current_room == old(state).current_room,
        },
{
    match joined {
        Ok(id) => {
            let previous = state.current_room();
            let leave_previous = match previous {
                Some(a) => if a != id { Some(a) } else { None },
                None => None,
            };
            state.set_current_room(Some(id));
            JoinFinish { notice: None, leave_previous }
        },
        Err(e) => JoinFinish { notice: Some(app_error_notification(e)), leave_previous: None },
    }
}

/// The room-service call that a leave request makes.
#[derive(Debug)]
pub enum LeaveCall {
    /// Leave this room.
    One { room_id: RoomId, player_id: PlayerId, reason: String },
    /// Leave every room.
    All { player_id: PlayerId, reason: String },
}

/// Leave, middle step: a named room is left alone, no room means every room; the reason
/// given is always "client leave".
pub fn leave_call(player: &AuthedPlayer, target: Option<RoomId>) -> (c: LeaveCall)
    ensures
        match target {
            Some(r) => c matches LeaveCall::One { room_id, player_id, reason } && room_id == r
                && player_id == player.player_id && reason@ == "client leave"@,
            None => c matches LeaveCall::All { player_id, reason } && player_id == player.player_id
                && reason@ == "client leave"@,
        },
{
    match target {
        Some(room_id) => LeaveCall::One {
            room_id,
            player_id: player.player_id,
            reason: String::from_str("client leave"),
        },
        None => LeaveCall::All { player_id: player.player_id, reason: String::from_str("client leave") },
    }
}

/// Leave, last step: leaving the connection's room, or all rooms, clears the connection's
/// room when it succeeded; a failure is reported.
pub fn leave_room_finish(state: &mut AuthState, target: Option<RoomId>, left: Result<(), AppError>) -> (o: Option<Outbound>)
    ensures
        final(state).player == old(state).player,
        final(state).current_room == (if left is Ok && (target is None || old(state).current_room == target) {
            None
        } else {
            old(state).current_room
        }),
        match left {
            Ok(_) => o is None,
            Err(e) => o matches Some(n) && n@ == notice_for(e@),
        },
{
    let ok = left.is_ok();
    match target {
        Some(room) => {
            if ok && state.current_room() == Some(room) {
                state.set_current_room(None);
            }
        },
        None => {
            if ok {
                state.set_current_room(None);
            }
        },
    }
    match left {
        Ok(()) => None,
        Err(e) => Some(app_error_notification(e)),
    }
}

/// First step of Chat.
pub enum ChatStart {
    Reply(Outbound),
    /// Send the text as this player to this room.
    Send { player_id: PlayerId, room_id: RoomId },
}

/// Chat, first step: only a bound connection that is in a room may chat.
pub fn chat_start(state: &AuthState) -> (r: ChatStart)
    ensures
        state.player is None ==> (r matches ChatStart::Reply(o) && o@ == not_bound_notice()),
        state.player is Some && state.current_room is None ==> (r matches ChatStart::Reply(o) && o@
            == (OutboundView::Error { code: ErrorCode::NotFound, message: "请先加入一个房间"@ })),
        state.player is Some && state.current_room is Some ==> r == (ChatStart::Send {
            player_id: state.player->0.player_id,
            room_id: state.current_room->0,
        }),
{
    let player_id = match &state.player {
        Some(a) => a.player_id,
        None => return ChatStart::Reply(error_notice(ErrorCode::NotAuthenticated, "请先完成绑定")),
    };
    match state.current_room() {
        Some(room_id) => ChatStart::Send { player_id, room_id },
        None => ChatStart::Reply(error_notice(ErrorCode::NotFound, "请先加入一个房间")),
    }
}

/// Reply for a request that succeeds silently (its answer comes as room events) or fails.
pub fn silent_or_error(done: Result<(), AppError>) -> (o: Option<Outbound>)
    ensures
        match done {
            Ok(_) => o is None,
            Err(e) => o matches Some(n) && n@ == notice_for(e@),
        },
{
    match done {
        Ok(()) => None,
        Err(e) => Some(app_error_notification(e)),
    }
}

/// Profile, first step: only a bound connection may ask; the player to look up.
pub fn profile_start(state: &AuthState) -> (r: Result<PlayerId, Outbound>)
    ensures
        state.player is None ==> (r matches Err(o) && o@ == not_bound_notice()),
        state.player is Some ==> r == Ok::<PlayerId, Outbound>(state.player->0.player_id),
{
    match &state.player {
        Some(a) => Ok(a.player_id),
        None => Err(error_notice(ErrorCode::NotAuthenticated, "请先完成绑定")),
    }
}

/// Profile, last step: the profile, or the notice for the failure.
pub fn profile_reply(found: Result<PlayerProfile, AppError>) -> (o: Outbound)
    ensures
        match found {
            Ok(p) => o@ == OutboundView::Profile(p),
            Err(e) => o@ == notice_for(e@),
        },
{
    match found {
        Ok(p) => Outbound::Profile(p),
        Err(e) => app_error_notification(e),
    }
}

/// Per-connection message rate limit of the TCP gateway.
#[derive(Debug, Clone, Copy)]
pub struct RateLimitSettings {
    pub enabled: bool,
    /// Messages allowed per second on each connection.
    pub per_second: u64,
    /// Burst capacity of each connection's token bucket.
    pub burst: u64,
}

impl RateLimitSettings {
    /// Whether connections get a token bucket at all: the limit must be enabled with a
    /// non-zero rate and burst.
    pub fn limits(&self) -> (b: bool)
        ensures
            b == (self.enabled && self.per_second != 0 && self.burst != 0),
    {
        self.enabled && self.per_second != 0 && self.burst != 0
    }
}

/// The online connections, by connection id, each with its outbound sender (used to
/// broadcast notices at shutdown).
pub struct ConnectionRegistry<S> {
    conns: Registry<S>,
}

impl<S> View for ConnectionRegistry<S> {
    type V = Map<u128, S>;

    closed spec fn view(&self) -> Map<u128, S> {
        self.conns@
    }
}

impl<S> ConnectionRegistry<S> {
    pub fn new() -> (r: ConnectionRegistry<S>)
        ensures
            r@ == Map::<u128, S>::empty(),
    {
        ConnectionRegistry { conns: Registry::new() }
    }

    /// Registers a connection's sender.
    pub fn register(&mut self, conn_id: u128, sender: S)
        ensures
            final(self)@ == old(self)@.insert(conn_id, sender),
    {
        self.conns.insert(conn_id, sender);
    }

    /// Forgets a connection; gives back its sender when it was registered.
    pub fn remove(&mut self, conn_id: u128) -> (r: Option<S>)
        ensures
            final(self)@ == old(self)@.remove(conn_id),
            old(self)@.contains_key(conn_id) ==> r == Some(old(self)@[conn_id]),
            !old(self)@.contains_key(conn_id) ==> r is None,
    {
        self.conns.remove(conn_id)
    }

    /// Number of online connections.
    pub fn active_count(&self) -> (n: usize)
        ensures
            n == self@.len(),
    {
        self.conns.len()
    }

    /// The registered senders, for a broadcast.
    pub fn senders(&self) -> (r: &Registry<S>)
        ensures
            r@ == self@,
    {
        &self.conns
    }
}

/// A room event as the client protocol carries it, ids written as hyphenated UUID text.
#[derive(Debug)]
pub enum RoomNotice {
    MemberJoined { room_id: String, player_id: String, nickname: String },
    MemberLeft { room_id: String, player_id: String },
    Chat { room_id: String, sender_id: String, sender_nickname: String, text: String },
    RoomClosed { room_id: String, reason: String },
}

/// `RoomNotice` with its texts taken as character sequences.
pub enum RoomNoticeView {
    MemberJoined { room_id: Seq<char>, player_id: Seq<char>, nickname: Seq<char> },
    MemberLeft { room_id: Seq<char>, player_id: Seq<char> },
    Chat { room_id: Seq<char>, sender_id: Seq<char>, sender_nickname: Seq<char>, text: Seq<char> },
    RoomClosed { room_id: Seq<char>, reason: Seq<char> },
}

impl View for RoomNotice {
    type V = RoomNoticeView;

    open spec fn view(&self) -> RoomNoticeView {
        match self {
            RoomNotice::MemberJoined { room_id, player_id, nickname } => RoomNoticeView::MemberJoined {
                room_id: room_id@,
                player_id: player_id@,
                nickname: nickname@,
            },
            RoomNotice::MemberLeft { room_id, player_id } => RoomNoticeView::MemberLeft {
                room_id: room_id@,
                player_id: player_id@,
            },
            RoomNotice::Chat { room_id, sender_id, sender_nickname, text } => RoomNoticeView::Chat {
                room_id: room_id@,
                sender_id: sender_id@,
                sender_nickname: sender_nickname@,
                text: text@,
            },
            RoomNotice::RoomClosed { room_id, reason } => RoomNoticeView::RoomClosed {
                room_id: room_id@,
                reason: reason@,
            },
        }
    }
}

/// The notice for a room event: same variant and texts, ids as hyphenated UUID text.
pub open spec fn notice_of_event(e: RoomEventView) -> RoomNoticeView {
    match e {
        RoomEventView::MemberJoined { room_id, player_id, nickname } => RoomNoticeView::MemberJoined {
            room_id: uuid_hyphenated(room_id.0),
            player_id: uuid_hyphenated(player_id.0),
            nickname,
        },
        RoomEventView::MemberLeft { room_id, player_id } => RoomNoticeView::MemberLeft {
            room_id: uuid_hyphenated(room_id.0),
            player_id: uuid_hyphenated(player_id.0),
        },
        RoomEventView::Chat { room_id, sender, nickname, text } => RoomNoticeView::Chat {
            room_id: uuid_hyphenated(room_id.0),
            sender_id: uuid_hyphenated(sender.0),
            sender_nickname: nickname,
            text,
        },
        RoomEventView::Closed { room_id, reason } => RoomNoticeView::RoomClosed {
            room_id: uuid_hyphenated(room_id.0),
            reason,
        },
    }
}

/// The room a notice names.
pub open spec fn notice_room(n: RoomNoticeView) -> Seq<char> {
    match n {
        RoomNoticeView::MemberJoined { room_id, .. } => room_id,
        RoomNoticeView::MemberLeft { room_id, .. } => room_id,
        RoomNoticeView::Chat { room_id, .. } => room_id,
        RoomNoticeView::RoomClosed { room_id, .. } => room_id,
    }
}

/// Every notice names its event's room, as hyphenated UUID text, and the player it is about
/// (the member who joined or left, the chat's sender) by that player's own id; texts pass
/// through unchanged.
pub proof fn law_notice_names_the_event_room(e: RoomEventView)
    ensures
        notice_room(notice_of_event(e)) == uuid_hyphenated(event_room(e).0),
        e matches RoomEventView::MemberJoined { player_id, nickname, .. } ==> (notice_of_event(e)
            matches RoomNoticeView::MemberJoined { player_id: pt, nickname: nt, .. }
            && pt == uuid_hyphenated(player_id.0) && nt == nickname),
        e matches RoomEventView::MemberLeft { player_id, .. } ==> (notice_of_event(e)
            matches RoomNoticeView::MemberLeft { player_id: pt, .. } && pt == uuid_hyphenated(player_id.0)),
        e matches RoomEventView::Chat { sender, nickname, text, .. } ==> (notice_of_event(e)
            matches RoomNoticeView::Chat { sender_id, sender_nickname, text: tt, .. }
            && sender_id == uuid_hyphenated(sender.0) && sender_nickname == nickname && tt == text),
        e matches RoomEventView::Closed { reason, .. } ==> (notice_of_event(e)
            matches RoomNoticeView::RoomClosed { reason: rt, .. } && rt == reason),
{
}

/// Translates a room event into the notice sent to a member's connection.
pub fn room_event_to_notification(event: RoomEvent) -> (n: RoomNotice)
    ensures
        n@ == notice_of_event(event@),
        notice_room(n@) == uuid_hyphenated(event_room(event@).0),
{
    proof {
        law_notice_names_the_event_room(event@);
    }
    match event {
        RoomEvent::MemberJoined { room_id, player_id, nickname } => RoomNotice::MemberJoined {
            room_id: uuid_text(room_id.0),
            player_id: uuid_text(player_id.0),
            nickname,
        },
        RoomEvent::MemberLeft { room_id, player_id } => RoomNotice::MemberLeft {
            room_id: uuid_text(room_id.0),
            player_id: uuid_text(player_id.0),
        },
        RoomEvent::Chat { room_id, sender, nickname, text } => RoomNotice::Chat {
            room_id: uuid_text(room_id.0),
            sender_id: uuid_text(sender.0),
            sender_nickname: nickname,
            text,
        },
        RoomEvent::Closed { room_id, reason } => RoomNotice::RoomClosed {
            room_id: uuid_text(room_id.0),
            reason,
        },
    }
}

} // verus!
