use ppt_tcp::app_error::AppError;
use ppt_tcp::auth_gate::{AuthGate, PeerIp};
use ppt_tcp::dto::{LoginResult, PlayerProfile, RegisterResult};
use ppt_tcp::error::RepoError;
use ppt_tcp::gateway::{
    app_error_notification, bind_on_player, bind_on_resolved, bind_start, chat_start, frame_rate_check, leave_call, open_connection,
    decode_failure_notice, dispatch_notice, gate_frame, heartbeat_reply, join_room_finish,
    leave_room_finish, parse_optional_room_id, profile_reply, profile_start, rate_limited_notice,
    read_failure_notice, read_timeout, room_event_to_notification, room_request_start,
    silent_or_error, timeout_notice, Admission, AuthState, AuthedPlayer, BindFinish, BindResolved,
    BindStart, ChatStart, ConnectionRegistry, LeaveCall, DispatchOutcome, ErrorCode, InboundKind, Outbound,
    RateLimitSettings, ReadFailure, RoomNotice, RoomRequest,
};
use ppt_tcp::http::{
    auth_user_from, bearer_token, redirect_target, ApiError, LoginRequest, LoginResponse,
    PlayerResponse, RegisterRequest, RegisterResponse, HSTS_HEADER, HSTS_VALUE,
};
use ppt_tcp::ids::{AccountId, PlayerId, RoomId};
use ppt_tcp::player::Player;
use ppt_tcp::room_actor::RoomEvent;
use ppt_tcp::time::UtcTime;
use ppt_tcp::value::Nickname;

fn ip(octets: [u8; 4]) -> PeerIp {
    PeerIp::V4(u32::from_be_bytes(octets))
}

fn is_error(o: &Outbound, code: ErrorCode, text: &str) -> bool {
    matches!(o, Outbound::Error { code: c, message } if *c == code && message == text)
}

const ROOM: u128 = 0x0190_1234_5678_7abc_8def_0123_4567_89ab;
const ROOM_TEXT: &str = "01901234-5678-7abc-8def-0123456789ab";

// ---- unauthenticated-connection gate ----

#[test]
fn enforces_per_ip_limit_and_releases_slots() {
    let mut gate = AuthGate::new(2);
    let a = ip([10, 0, 0, 1]);
    assert!(gate.acquire(a));
    assert!(gate.acquire(a));
    assert!(!gate.acquire(a), "the third unauthenticated connection is refused");
    assert_eq!(gate.unauth_count(a), 2);

    gate.release(a);
    assert!(gate.acquire(a));
    gate.release(a);
    gate.release(a);
    assert_eq!(gate.unauth_count(a), 0);

    assert!(gate.acquire(ip([10, 0, 0, 2])));
}

#[test]
fn release_without_acquire_is_noop() {
    let mut gate = AuthGate::new(1);
    let a = ip([10, 0, 0, 3]);
    gate.release(a);
    assert_eq!(gate.unauth_count(a), 0);
    assert!(gate.acquire(a));
}

#[test]
fn ipv4_and_ipv6_addresses_are_counted_apart() {
    let mut gate = AuthGate::new(1);
    assert!(gate.acquire(PeerIp::V4(1)));
    assert!(gate.acquire(PeerIp::V6(1)));
    assert!(!gate.acquire(PeerIp::V6(1)));
    assert_eq!(gate.unauth_count(PeerIp::V4(1)), 1);
    assert_eq!(gate.unauth_count(PeerIp::V6(1)), 1);
    assert_eq!(gate.unauth_count(PeerIp::V6(2)), 0);
}

#[test]
fn zero_cap_refuses_everyone() {
    let mut gate = AuthGate::new(0);
    assert!(!gate.acquire(ip([1, 2, 3, 4])));
    assert_eq!(gate.unauth_count(ip([1, 2, 3, 4])), 0);
}

// ---- connection registry ----

#[test]
fn register_count_remove_lifecycle() {
    let mut registry: ConnectionRegistry<std::sync::mpsc::Sender<Vec<u8>>> = ConnectionRegistry::new();
    let (tx, _rx) = std::sync::mpsc::channel::<Vec<u8>>();
    let conn = 42u128;
    registry.register(conn, tx);
    assert_eq!(registry.active_count(), 1);
    assert!(registry.remove(conn).is_some());
    assert_eq!(registry.active_count(), 0);
    assert!(registry.remove(conn).is_none());
    assert_eq!(registry.senders().len(), 0);
}

// ---- room events to client notices ----

#[test]
fn every_room_event_maps_to_proto_oneof() {
    let room = RoomId(ROOM);
    let player = PlayerId(0xabc);
    let player_text = "00000000-0000-0000-0000-000000000abc";

    let joined = room_event_to_notification(RoomEvent::MemberJoined {
        room_id: room,
        player_id: player,
        nickname: "玩家".into(),
    });
    assert!(matches!(&joined, RoomNotice::MemberJoined { room_id, player_id, nickname }
        if room_id == ROOM_TEXT && player_id == player_text && nickname == "玩家"));

    let left = room_event_to_notification(RoomEvent::MemberLeft { room_id: room, player_id: player });
    assert!(matches!(&left, RoomNotice::MemberLeft { room_id, player_id }
        if room_id == ROOM_TEXT && player_id == player_text));

    let chat = room_event_to_notification(RoomEvent::Chat {
        room_id: room,
        sender: player,
        nickname: "玩家".into(),
        text: "你好".into(),
    });
    assert!(matches!(&chat, RoomNotice::Chat { text, sender_id, sender_nickname, .. }
        if text == "你好" && sender_id == player_text && sender_nickname == "玩家"));

    let closed = room_event_to_notification(RoomEvent::Closed { room_id: room, reason: "停机".into() });
    assert!(matches!(&closed, RoomNotice::RoomClosed { reason, room_id } if reason == "停机" && room_id == ROOM_TEXT));
}

// ---- error notices ----

#[test]
fn app_errors_map_to_client_notices_without_internal_details() {
    assert!(is_error(&app_error_notification(AppError::Validation("bad".into())), ErrorCode::InvalidInput, "bad"));
    assert!(is_error(&app_error_notification(AppError::Unauthorized("no".into())), ErrorCode::NotAuthenticated, "no"));
    assert!(is_error(&app_error_notification(AppError::Forbidden("no".into())), ErrorCode::Forbidden, "no"));
    assert!(is_error(&app_error_notification(AppError::NotFound("x".into())), ErrorCode::NotFound, "x"));
    assert!(is_error(&app_error_notification(AppError::Conflict("dup".into())), ErrorCode::Conflict, "dup"));
    assert!(is_error(&app_error_notification(AppError::Busy), ErrorCode::ServerBusy, "服务繁忙,请稍后重试"));
    assert!(is_error(&app_error_notification(AppError::RateLimited), ErrorCode::RateLimited, "请求过于频繁"));
    assert!(is_error(&app_error_notification(AppError::Storage("db password=x".into())), ErrorCode::Protocol, "服务器内部错误"));
    assert!(is_error(&app_error_notification(AppError::Internal("boom".into())), ErrorCode::Protocol, "服务器内部错误"));
}

#[test]
fn fixed_notices() {
    assert!(is_error(&rate_limited_notice(), ErrorCode::RateLimited, "请求过于频繁"));
    assert!(is_error(&timeout_notice(), ErrorCode::Timeout, "会话超时"));
    assert!(is_error(&decode_failure_notice("bad opcode"), ErrorCode::Protocol, "bad opcode"));
    assert!(matches!(heartbeat_reply(123), Outbound::HeartbeatAck { server_ts_ms: 123 }));
}

#[test]
fn read_failures_pick_their_codes() {
    assert!(read_failure_notice(ReadFailure::Disconnected).is_none());
    let too_large = read_failure_notice(ReadFailure::FrameTooLarge("frame too large".into())).unwrap();
    assert!(is_error(&too_large, ErrorCode::FrameTooLarge, "frame too large"));
    let other = read_failure_notice(ReadFailure::Other("garbled".into())).unwrap();
    assert!(is_error(&other, ErrorCode::Protocol, "garbled"));
}

#[test]
fn read_timeout_depends_on_binding() {
    assert_eq!(read_timeout(true, 60u64, 10u64), 60);
    assert_eq!(read_timeout(false, 60u64, 10u64), 10);
}

// ---- bind gate and bind ----

#[test]
fn message_before_bind_is_refused_and_ends_the_connection() {
    for kind in [InboundKind::Heartbeat, InboundKind::JoinRoom, InboundKind::LeaveRoom, InboundKind::RoomChat, InboundKind::GetProfile] {
        match gate_frame(false, kind) {
            Admission::Refuse { notice, keep } => {
                assert!(!keep);
                assert!(is_error(&notice, ErrorCode::AuthRequiredFirst, "必须先完成绑定"));
            },
            Admission::Dispatch => panic!("{kind:?} must not pass before bind"),
        }
        assert!(matches!(gate_frame(true, kind), Admission::Dispatch));
    }
    assert!(matches!(gate_frame(false, InboundKind::Bind), Admission::Dispatch));
    match gate_frame(true, InboundKind::Bind) {
        Admission::Refuse { notice, keep } => {
            assert!(keep);
            assert!(is_error(&notice, ErrorCode::AlreadyBound, "连接已完成绑定"));
        },
        Admission::Dispatch => panic!("a second bind must be refused"),
    }
}

fn bound_state() -> AuthState {
    let mut s = AuthState::new();
    s.set_authed(AuthedPlayer { player_id: PlayerId(5), nickname: "勇者".into() });
    s
}

#[test]
fn bind_with_bad_token_is_rejected_but_connection_stays() {
    let fresh = AuthState::new();
    assert!(matches!(bind_start(&fresh, "   "), BindStart::Reply(Outbound::BindRejected { reason }) if reason == "缺少 token"));
    assert!(matches!(bind_start(&fresh, " tok "), BindStart::Resolve(t) if t == "tok"));
    assert!(matches!(bind_start(&bound_state(), "tok"), BindStart::Reply(o) if is_error(&o, ErrorCode::AlreadyBound, "连接已完成绑定")));
    assert!(matches!(bind_on_resolved(Ok(None)), BindResolved::Reply(Outbound::BindRejected { reason }) if reason == "token 无效或已过期"));
    assert!(matches!(bind_on_resolved(Ok(Some(PlayerId(5)))), BindResolved::FindPlayer(p) if p == PlayerId(5)));
    assert!(matches!(bind_on_resolved(Err(AppError::Storage("redis".into()))), BindResolved::Fail(t) if t == "存储故障: redis"));
    assert!(!fresh.is_authenticated());
}

#[test]
fn bind_with_found_player_authenticates_connection() {
    let mut state = AuthState::new();
    let player = Player::reconstitute(
        PlayerId(5),
        AccountId(1),
        Nickname::try_new("勇者").unwrap(),
        1,
        0,
        None,
        UtcTime { secs: 0, nanos: 0 },
    );
    match bind_on_player(&mut state, PlayerId(5), Ok(Some(player))) {
        BindFinish::Bound(Outbound::BindOk { player_id, nickname }) => {
            assert_eq!(player_id, PlayerId(5));
            assert_eq!(nickname, "勇者");
        },
        _ => panic!("expected a bound reply"),
    }
    assert!(state.is_authenticated());
    assert_eq!(state.authed_player().unwrap().nickname, "勇者");

    let mut other = AuthState::new();
    assert!(matches!(bind_on_player(&mut other, PlayerId(5), Ok(None)), BindFinish::Fail(t) if t == "token 对应的玩家不存在"));
    assert!(matches!(bind_on_player(&mut other, PlayerId(5), Err(RepoError::Storage("db".into()))), BindFinish::Fail(t) if t == "存储故障: db"));
    assert!(!other.is_authenticated());
}

// ---- room requests ----

#[test]
fn room_requests_need_binding_and_a_valid_room_id() {
    let unbound = AuthState::new();
    assert!(matches!(room_request_start(&unbound, None), RoomRequest::Reply(o) if is_error(&o, ErrorCode::NotAuthenticated, "请先完成绑定")));
    let bound = bound_state();
    assert!(matches!(room_request_start(&bound, Some("nope")), RoomRequest::Reply(o) if is_error(&o, ErrorCode::InvalidInput, "room_id 不是合法的 UUID")));
    assert!(matches!(room_request_start(&bound, Some("  ")), RoomRequest::Proceed { target: None, .. }));
    match room_request_start(&bound, Some(ROOM_TEXT)) {
        RoomRequest::Proceed { player, target } => {
            assert_eq!(player.player_id, PlayerId(5));
            assert_eq!(target, Some(RoomId(ROOM)));
        },
        RoomRequest::Reply(_) => panic!("a valid id must proceed"),
    }
}

#[test]
fn parse_optional_room_id_rules() {
    assert_eq!(parse_optional_room_id(None), Ok(None));
    assert_eq!(parse_optional_room_id(Some("")), Ok(None));
    assert_eq!(parse_optional_room_id(Some(&format!(" {ROOM_TEXT} "))), Ok(Some(RoomId(ROOM))));
    assert_eq!(parse_optional_room_id(Some("xyz")), Err("room_id 不是合法的 UUID".to_string()));
}

#[test]
fn join_and_leave_track_the_current_room() {
    let mut state = bound_state();
    let first = join_room_finish(&mut state, Ok(RoomId(1)));
    assert!(first.notice.is_none() && first.leave_previous.is_none());
    assert_eq!(state.current_room(), Some(RoomId(1)));
    let failed = join_room_finish(&mut state, Err(AppError::Conflict("房间已满".into())));
    assert!(is_error(&failed.notice.unwrap(), ErrorCode::Conflict, "房间已满"));
    assert!(failed.leave_previous.is_none());
    assert_eq!(state.current_room(), Some(RoomId(1)));
    let again = join_room_finish(&mut state, Ok(RoomId(1)));
    assert!(again.leave_previous.is_none());

    // Leaving another room keeps the current one.
    assert!(leave_room_finish(&mut state, Some(RoomId(2)), Ok(())).is_none());
    assert_eq!(state.current_room(), Some(RoomId(1)));
    // A failed leave keeps it and reports.
    let o = leave_room_finish(&mut state, Some(RoomId(1)), Err(AppError::Busy)).unwrap();
    assert!(is_error(&o, ErrorCode::ServerBusy, "服务繁忙,请稍后重试"));
    assert_eq!(state.current_room(), Some(RoomId(1)));
    assert!(leave_room_finish(&mut state, Some(RoomId(1)), Ok(())).is_none());
    assert_eq!(state.current_room(), None);
    state.set_current_room(Some(RoomId(3)));
    assert!(leave_room_finish(&mut state, None, Ok(())).is_none());
    assert_eq!(state.current_room(), None);
    assert!(state.is_authenticated());
}

#[test]
fn joining_another_room_leaves_the_previous_one() {
    let mut state = bound_state();
    join_room_finish(&mut state, Ok(RoomId(1)));
    let second = join_room_finish(&mut state, Ok(RoomId(2)));
    assert!(second.notice.is_none());
    assert_eq!(second.leave_previous, Some(RoomId(1)));
    assert_eq!(state.current_room(), Some(RoomId(2)));
}

#[test]
fn leave_request_picks_its_room_service_call() {
    let player = AuthedPlayer { player_id: PlayerId(5), nickname: "勇者".into() };
    assert!(matches!(leave_call(&player, Some(RoomId(3))),
        LeaveCall::One { room_id, player_id, reason } if room_id == RoomId(3) && player_id == PlayerId(5) && reason == "client leave"));
    assert!(matches!(leave_call(&player, None),
        LeaveCall::All { player_id, reason } if player_id == PlayerId(5) && reason == "client leave"));
}

#[test]
fn rate_limit_comes_before_decoding() {
    match frame_rate_check(false) {
        Err(Admission::Refuse { notice, keep }) => {
            assert!(!keep);
            assert!(is_error(&notice, ErrorCode::RateLimited, "请求过于频繁"));
        },
        _ => panic!("a refused token must end the connection"),
    }
    let decode = match frame_rate_check(true) {
        Ok(step) => step,
        Err(_) => panic!("a granted token goes on to decoding"),
    };
    match decode.on_decoded(Err("bad frame".into()), true) {
        Admission::Refuse { notice, keep } => {
            assert!(!keep);
            assert!(is_error(&notice, ErrorCode::Protocol, "bad frame"));
        },
        Admission::Dispatch => panic!("an undecodable frame must not be dispatched"),
    }
    let decode = frame_rate_check(true).ok().unwrap();
    assert!(matches!(decode.on_decoded(Ok(InboundKind::Heartbeat), true), Admission::Dispatch));
    let decode = frame_rate_check(true).ok().unwrap();
    assert!(matches!(decode.on_decoded(Ok(InboundKind::Heartbeat), false), Admission::Refuse { keep: false, .. }));
}

#[test]
fn chat_needs_binding_and_a_room() {
    assert!(matches!(chat_start(&AuthState::new()), ChatStart::Reply(o) if is_error(&o, ErrorCode::NotAuthenticated, "请先完成绑定")));
    let mut state = bound_state();
    assert!(matches!(chat_start(&state), ChatStart::Reply(o) if is_error(&o, ErrorCode::NotFound, "请先加入一个房间")));
    state.set_current_room(Some(RoomId(9)));
    assert!(matches!(chat_start(&state), ChatStart::Send { player_id, room_id } if player_id == PlayerId(5) && room_id == RoomId(9)));
    assert!(silent_or_error(Ok(())).is_none());
    assert!(is_error(&silent_or_error(Err(AppError::NotFound("房间不存在".into()))).unwrap(), ErrorCode::NotFound, "房间不存在"));
}

#[test]
fn profile_request_flow() {
    assert!(matches!(profile_start(&AuthState::new()), Err(o) if is_error(&o, ErrorCode::NotAuthenticated, "请先完成绑定")));
    assert_eq!(profile_start(&bound_state()).ok(), Some(PlayerId(5)));
    let profile = PlayerProfile { player_id: PlayerId(5), nickname: "勇者".into(), level: 3, exp: 7, last_login_at: None };
    assert!(matches!(profile_reply(Ok(profile)), Outbound::Profile(p) if p.level == 3 && p.exp == 7));
    assert!(is_error(&profile_reply(Err(AppError::NotFound("玩家不存在".into()))), ErrorCode::NotFound, "玩家不存在"));
}

#[test]
fn dispatch_outcomes_and_cleanup() {
    assert!(dispatch_notice(DispatchOutcome::Nothing).is_none());
    assert!(matches!(dispatch_notice(DispatchOutcome::Reply(heartbeat_reply(1))), Some(Outbound::HeartbeatAck { server_ts_ms: 1 })));
    assert!(is_error(&dispatch_notice(DispatchOutcome::Failed("handler".into())).unwrap(), ErrorCode::Protocol, "服务器内部错误"));

    assert!(open_connection(7, false).is_none());

    // Never bound: the close gives the slot back.
    let life = open_connection(7, true).unwrap();
    let unbound = life.close(&AuthState::new());
    assert_eq!(unbound.deregister, 7);
    assert_eq!(unbound.leave_all_for, None);
    assert!(unbound.release_unauth_slot);

    // Bound: the bind gives the slot back, once; the close leaves all rooms.
    let mut life = open_connection(8, true).unwrap();
    assert_eq!(life.conn_id(), 8);
    assert!(life.on_bound());
    assert!(!life.on_bound());
    let bound = life.close(&bound_state());
    assert_eq!(bound.deregister, 8);
    assert_eq!(bound.leave_all_for, Some(PlayerId(5)));
    assert!(!bound.release_unauth_slot);
}

#[test]
fn disabled_limit_is_none() {
    assert!(!RateLimitSettings { enabled: false, per_second: 10, burst: 5 }.limits());
    assert!(!RateLimitSettings { enabled: true, per_second: 0, burst: 5 }.limits());
}

#[test]
fn disabled_or_zero_rate_limit_gives_no_bucket() {
    assert!(RateLimitSettings { enabled: true, per_second: 10, burst: 5 }.limits());
    assert!(!RateLimitSettings { enabled: false, per_second: 10, burst: 5 }.limits());
    assert!(!RateLimitSettings { enabled: true, per_second: 0, burst: 5 }.limits());
    assert!(!RateLimitSettings { enabled: true, per_second: 10, burst: 0 }.limits());
}

// ---- HTTP ----

#[test]
fn maps_app_errors_to_http_status_codes() {
    let cases = [
        (AppError::Validation("bad".into()), 400, "bad"),
        (AppError::Unauthorized("no".into()), 401, "no"),
        (AppError::Forbidden("no".into()), 403, "no"),
        (AppError::NotFound("x".into()), 404, "x"),
        (AppError::Conflict("dup".into()), 409, "dup"),
        (AppError::Busy, 503, "服务繁忙,请稍后重试"),
        (AppError::RateLimited, 429, "请求过于频繁"),
        (AppError::Internal("boom".into()), 500, "服务器内部错误"),
        (AppError::Storage("boom".into()), 500, "服务器内部错误"),
    ];
    for (err, status, message) in cases {
        let api: ApiError = err.into();
        assert_eq!(api.status(), status);
        assert_eq!(api.message(), message);
    }
    let custom = ApiError::new(418, "teapot".into());
    assert_eq!((custom.status(), custom.message()), (418, "teapot"));
}

#[test]
fn redirect_keeps_host_and_path_and_defaults_to_slash() {
    assert_eq!(redirect_target(Some("game.example"), Some("/me?x=1")), "https://game.example/me?x=1");
    assert_eq!(redirect_target(Some("game.example"), None), "https://game.example/");
    assert_eq!(redirect_target(None, Some("/login")), "https:///login");
}

#[test]
fn hsts_header_values() {
    assert_eq!(HSTS_HEADER, "strict-transport-security");
    assert_eq!(HSTS_VALUE, "max-age=63072000; includeSubDomains");
}

#[test]
fn me_requires_bearer_token() {
    let missing = bearer_token(None).unwrap_err();
    assert_eq!((missing.status(), missing.message()), (401, "缺少 Authorization 头"));
    let basic = bearer_token(Some("Basic abc")).unwrap_err();
    assert_eq!((basic.status(), basic.message()), (401, "Authorization 必须为 Bearer token"));
    let lower = bearer_token(Some("bearer abc")).unwrap_err();
    assert_eq!(lower.status(), 401);
    assert_eq!(bearer_token(Some("Bearer  tok-1 ")).ok(), Some("tok-1".to_string()));
    assert_eq!(bearer_token(Some("Bearer ")).ok(), Some(String::new()));
    assert_eq!(bearer_token(Some("Bearer")).unwrap_err().status(), 401);
}

#[test]
fn token_lookup_outcomes() {
    assert_eq!(auth_user_from(Ok(Some(PlayerId(8)))).ok().map(|u| u.player_id), Some(PlayerId(8)));
    let unknown = auth_user_from(Ok(None)).unwrap_err();
    assert_eq!((unknown.status(), unknown.message()), (401, "token 无效或已过期"));
    let down = auth_user_from(Err(AppError::Storage("redis".into()))).unwrap_err();
    assert_eq!((down.status(), down.message()), (500, "服务器内部错误"));
}

#[test]
fn request_and_response_bodies_carry_their_fields() {
    let cmd = RegisterRequest { username: "u".into(), password: "p".into(), nickname: "n".into() }.into_command();
    assert_eq!((cmd.username.as_str(), cmd.password.as_str(), cmd.nickname.as_str()), ("u", "p", "n"));
    let cmd = LoginRequest { username: "u".into(), password: "p".into() }.into_command();
    assert_eq!((cmd.username.as_str(), cmd.password.as_str()), ("u", "p"));
    let r = RegisterResponse::from_result(RegisterResult { account_id: AccountId(1), player_id: PlayerId(2), nickname: "n".into() });
    assert_eq!((r.account_id, r.player_id, r.nickname.as_str()), (1, 2, "n"));
    let r = LoginResponse::from_result(LoginResult { token: "t".into(), player_id: PlayerId(2), nickname: "n".into(), expires_in_secs: 60 });
    assert_eq!((r.token.as_str(), r.player_id, r.nickname.as_str(), r.expires_in_secs), ("t", 2, "n", 60));
    let at = UtcTime { secs: 5, nanos: 0 };
    let r = PlayerResponse::from_profile(PlayerProfile { player_id: PlayerId(2), nickname: "n".into(), level: 4, exp: 9, last_login_at: Some(at) });
    assert_eq!((r.player_id, r.level, r.exp, r.last_login_at), (2, 4, 9, Some(at)));
}
