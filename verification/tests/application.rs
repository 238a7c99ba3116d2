use ppt_tcp::account::{Account, AccountStatus};
use ppt_tcp::app_error::AppError;
use ppt_tcp::dto::{LoginCommand, PlayerProfile, RegisterCommand};
use ppt_tcp::error::{DomainError, RepoError};
use ppt_tcp::events::DomainEvent;
use ppt_tcp::ids::{fresh_uuid, AccountId, PlayerId, RoomId};
use ppt_tcp::login::LoginAwaitAccount;
use ppt_tcp::player::Player;
use ppt_tcp::progression::{profile_from_lookup, GainExpAwaitPlayer};
use ppt_tcp::register::{map_conflict, RegisterAwaitLookup};
use ppt_tcp::registry::Registry;
use ppt_tcp::room::{Room, RoomState};
use ppt_tcp::room_actor::{ActorCommand, ActorEffect, RoomActorState, RoomEvent, MAX_CHAT_CHARS};
use ppt_tcp::room_service::{
    chat_plan, joined_event, join_reply, leave_outcome, leave_plan, left_event, missing_room, try_send_error, validate_chat,
    RoomServiceConfig, SendFailure,
};
use ppt_tcp::time::UtcTime;
use ppt_tcp::value::{Nickname, PasswordHash, Username};

fn now() -> UtcTime {
    UtcTime { secs: 1_750_000_000, nanos: 0 }
}

fn player() -> PlayerId {
    PlayerId(fresh_uuid())
}

// ---- errors ----

#[test]
fn maps_domain_and_repo_errors() {
    assert!(matches!(
        AppError::from(DomainError::RoomFull(RoomId(fresh_uuid()))),
        AppError::Conflict(_)
    ));
    assert!(matches!(AppError::from(RepoError::Storage("down".into())), AppError::Storage(_)));
    assert_eq!(AppError::Busy.message(), "服务繁忙,请稍后重试");
}

#[test]
fn every_domain_and_repo_error_maps_to_its_app_error() {
    let room = RoomId(1);
    assert_eq!(AppError::from_domain(DomainError::RoomFull(room)), AppError::Conflict("房间已满".into()));
    assert_eq!(AppError::from_domain(DomainError::RoomClosed(room)), AppError::Conflict("房间已关闭".into()));
    assert_eq!(
        AppError::from_domain(DomainError::NotMember { player_id: 2, room_id: room }),
        AppError::Validation("不在该房间中".into())
    );
    assert_eq!(
        AppError::from_domain(DomainError::IllegalTransition { from: "a".into(), to: "b".into() }),
        AppError::Internal("非法状态迁移".into())
    );
    assert_eq!(
        AppError::from_domain(DomainError::InvalidValue { field: "nickname", reason: "太长".into() }),
        AppError::Validation("nickname: 太长".into())
    );
    assert_eq!(AppError::from_repo(RepoError::Conflict("c".into())), AppError::Conflict("c".into()));
    assert_eq!(AppError::from(RepoError::Storage("s".into())), AppError::Storage("s".into()));
}

#[test]
fn app_error_texts() {
    assert_eq!(AppError::Validation("x".into()).message(), "输入不合法: x");
    assert_eq!(AppError::Unauthorized("x".into()).message(), "未鉴权: x");
    assert_eq!(AppError::Forbidden("x".into()).message(), "禁止操作: x");
    assert_eq!(AppError::NotFound("x".into()).message(), "资源不存在: x");
    assert_eq!(AppError::Conflict("x".into()).message(), "状态冲突: x");
    assert_eq!(AppError::RateLimited.message(), "请求过于频繁");
    assert_eq!(AppError::Storage("x".into()).message(), "存储故障: x");
    assert_eq!(AppError::Internal("x".into()).message(), "内部错误: x");
}

// ---- room actor ----

fn actor(max: u32) -> RoomActorState {
    RoomActorState::new(Room::open(max, now()))
}

fn join(a: &mut RoomActorState, p: PlayerId, nick: &str) -> (Vec<ActorEffect>, bool) {
    a.handle(ActorCommand::Join { player_id: p, nickname: nick.into() })
}

fn broadcasts(effects: &[ActorEffect]) -> Vec<RoomEvent> {
    effects
        .iter()
        .filter_map(|e| match e {
            ActorEffect::Broadcast(ev) => Some(ev.clone()),
            _ => None,
        })
        .collect()
}

#[test]
fn join_broadcasts_member_joined_to_all() {
    let mut a = actor(4);
    let room_id = a.room_id();
    let p1 = player();
    let p2 = player();
    let (effects, stop) = join(&mut a, p1, "a");
    assert!(!stop);
    assert_eq!(effects.len(), 3);
    assert!(matches!(effects[0], ActorEffect::AddMember(p) if p == p1));
    assert!(matches!(effects[1], ActorEffect::Reply(Ok(()))));
    assert_eq!(
        broadcasts(&effects),
        vec![RoomEvent::MemberJoined { room_id, player_id: p1, nickname: "a".into() }]
    );
    let (effects, _) = join(&mut a, p2, "b");
    assert_eq!(
        broadcasts(&effects),
        vec![RoomEvent::MemberJoined { room_id, player_id: p2, nickname: "b".into() }]
    );
    assert_eq!(a.room().members(), &[p1, p2]);
}

#[test]
fn chat_reaches_members_but_not_outsiders() {
    let mut a = actor(4);
    let room_id = a.room_id();
    let insider = player();
    join(&mut a, insider, "in");
    let (effects, stop) = a.handle(ActorCommand::Chat { player_id: insider, text: " 大家好 ".into() });
    assert!(!stop);
    assert_eq!(
        broadcasts(&effects),
        vec![RoomEvent::Chat { room_id, sender: insider, nickname: "in".into(), text: "大家好".into() }]
    );
    let (effects, _) = a.handle(ActorCommand::Chat { player_id: player(), text: "偷听".into() });
    assert!(effects.is_empty());
    let (effects, _) = a.handle(ActorCommand::Chat { player_id: insider, text: "   ".into() });
    assert!(effects.is_empty());
    let long = "字".repeat(MAX_CHAT_CHARS + 1);
    let (effects, _) = a.handle(ActorCommand::Chat { player_id: insider, text: long });
    assert!(effects.is_empty());
}

#[test]
fn leave_notifies_and_last_member_closes_room() {
    let mut a = actor(4);
    let room_id = a.room_id();
    let p1 = player();
    let p2 = player();
    join(&mut a, p1, "a");
    join(&mut a, p2, "b");
    let (effects, stop) = a.handle(ActorCommand::Leave { player_id: p1, reason: "主动退出".into() });
    assert!(!stop);
    assert_eq!(effects.len(), 2);
    assert!(matches!(&effects[0], ActorEffect::Broadcast(RoomEvent::MemberLeft { player_id, .. }) if *player_id == p1));
    assert!(matches!(effects[1], ActorEffect::RemoveMember(p) if p == p1));

    let (effects, stop) = a.handle(ActorCommand::Leave { player_id: p2, reason: "主动退出".into() });
    assert!(stop);
    assert_eq!(effects.len(), 4);
    assert!(matches!(&effects[0], ActorEffect::Broadcast(RoomEvent::MemberLeft { player_id, .. }) if *player_id == p2));
    assert!(matches!(&effects[1], ActorEffect::Broadcast(RoomEvent::Closed { room_id: r, reason }) if *r == room_id && reason == "最后一名成员已离开"));
    assert!(matches!(effects[2], ActorEffect::SignalClosed));
    assert!(matches!(effects[3], ActorEffect::RemoveMember(p) if p == p2));
    assert!(a.room().is_closed());
}

#[test]
fn close_command_broadcasts_closed_event() {
    let mut a = actor(4);
    let room_id = a.room_id();
    join(&mut a, player(), "a");
    let (effects, stop) = a.handle(ActorCommand::Close { reason: "服务器维护".into() });
    assert!(stop);
    assert_eq!(
        broadcasts(&effects),
        vec![RoomEvent::Closed { room_id, reason: "服务器维护".into() }]
    );
    assert!(matches!(effects.last(), Some(ActorEffect::SignalClosed)));
    // Closing again announces nothing, but still signals.
    let effects = a.finish("again");
    assert_eq!(effects.len(), 1);
    assert!(matches!(effects[0], ActorEffect::SignalClosed));
}

#[test]
fn full_room_rejects_join_with_conflict() {
    let mut a = actor(1);
    join(&mut a, player(), "first");
    let (effects, stop) = join(&mut a, player(), "late");
    assert!(!stop);
    assert_eq!(effects.len(), 1);
    match &effects[0] {
        ActorEffect::Reply(Err(e)) => assert_eq!(*e, AppError::Conflict("房间已满".into())),
        other => panic!("unexpected {other:?}"),
    }
}

#[test]
fn closed_room_rejects_join_with_conflict() {
    let mut a = actor(2);
    a.handle(ActorCommand::Close { reason: "x".into() });
    let (effects, _) = join(&mut a, player(), "late");
    match &effects[0] {
        ActorEffect::Reply(Err(e)) => assert_eq!(*e, AppError::Conflict("房间已关闭".into())),
        other => panic!("unexpected {other:?}"),
    }
}

#[test]
fn repeat_join_is_idempotent_without_duplicate_event() {
    let mut a = actor(4);
    let p = player();
    join(&mut a, p, "n");
    let (effects, _) = join(&mut a, p, "n");
    assert_eq!(effects.len(), 1);
    assert!(matches!(effects[0], ActorEffect::Reply(Ok(()))));
    assert_eq!(a.room().member_count(), 1);
}

#[test]
fn leave_of_an_outsider_changes_nothing() {
    let mut a = actor(4);
    join(&mut a, player(), "n");
    let (effects, stop) = a.handle(ActorCommand::Leave { player_id: player(), reason: "x".into() });
    assert!(effects.is_empty());
    assert!(!stop);
    assert_eq!(a.room().member_count(), 1);
}

// ---- room service ----

#[test]
fn chat_validates_input() {
    assert_eq!(validate_chat("   "), Err(AppError::Validation("聊天内容不能为空".into())));
    let long = "字".repeat(MAX_CHAT_CHARS + 1);
    assert_eq!(validate_chat(&long), Err(AppError::Validation("聊天内容不能超过 512 字".into())));
    assert_eq!(validate_chat(" 一起打排位 "), Ok("一起打排位".to_string()));
    let exact = "字".repeat(MAX_CHAT_CHARS);
    assert_eq!(validate_chat(&exact), Ok(exact.clone()));
}

#[test]
fn validated_chat_is_validated_again_unchanged() {
    let once = validate_chat("\t hi there \n").unwrap();
    assert_eq!(validate_chat(&once), Ok(once.clone()));
}

#[test]
fn chat_plan_checks_input_then_room() {
    assert_eq!(chat_plan("   ", false), Err(AppError::Validation("聊天内容不能为空".into())));
    assert_eq!(chat_plan(" hi ", false), Err(AppError::NotFound("房间不存在".into())));
    assert_eq!(chat_plan(" 一起打排位 ", true), Ok("一起打排位".to_string()));
}

#[test]
fn leave_plan_and_outcome() {
    assert!(!leave_plan(false));
    assert!(leave_plan(true));
    let room = RoomId(3);
    let p = PlayerId(4);
    assert_eq!(leave_outcome(Err(AppError::Busy), room, p, now()), (Err(AppError::Busy), None));
    assert_eq!(
        leave_outcome(Ok(()), room, p, now()),
        (Ok(()), Some(DomainEvent::PlayerLeftRoom { room_id: room, player_id: p, reason: "client leave".into(), at: now() }))
    );
}

#[test]
fn chat_to_missing_room_is_not_found() {
    assert_eq!(missing_room(), AppError::NotFound("房间不存在".into()));
    assert_eq!(try_send_error(SendFailure::Closed), AppError::NotFound("房间不存在".into()));
    assert_eq!(try_send_error(SendFailure::Full), AppError::Busy);
}

#[test]
fn join_reply_outcomes() {
    assert_eq!(join_reply(Some(Ok(()))), Ok(()));
    assert_eq!(
        join_reply(Some(Err(AppError::Conflict("房间已满".into())))),
        Err(AppError::Conflict("房间已满".into()))
    );
    assert_eq!(join_reply(None), Err(AppError::Internal("房间已关闭,加入结果未知".into())));
}

#[test]
fn published_room_events() {
    let room = RoomId(3);
    let p = PlayerId(4);
    assert_eq!(
        joined_event(room, p, now()),
        DomainEvent::PlayerJoinedRoom { room_id: room, player_id: p, at: now() }
    );
    assert_eq!(
        left_event(room, p, now()),
        DomainEvent::PlayerLeftRoom { room_id: room, player_id: p, reason: "client leave".into(), at: now() }
    );
}

#[test]
fn create_and_join_returns_new_room() {
    let config = RoomServiceConfig { command_capacity: 16, max_players: 4 };
    let room = config.open_room(now());
    assert_eq!(room.max_players(), 4);
    assert_eq!(room.state(), RoomState::Waiting);
    assert_ne!(room.id().0, 0);
    let mut registry: Registry<&str> = Registry::new();
    registry.insert(room.id().0, "handle");
    assert_eq!(registry.len(), 1);
}

#[test]
fn registry_tracks_inserts_removals_and_pruning() {
    let mut registry: Registry<u32> = Registry::new();
    registry.insert(1, 10);
    registry.insert(2, 20);
    registry.insert(3, 30);
    registry.insert(2, 21);
    assert_eq!(registry.len(), 3);
    assert_eq!(registry.get(2), Some(&21));
    assert_eq!(registry.remove(1), Some(10));
    assert_eq!(registry.remove(1), None);
    registry.prune(&[3, 99]);
    assert_eq!(registry.len(), 1);
    assert_eq!(registry.get(2), Some(&21));
    let all = registry.take_all();
    assert_eq!(all.len(), 1);
    assert_eq!(registry.len(), 0);
    assert_eq!(registry.entries().len(), 0);
}

// ---- register ----

fn register_cmd() -> RegisterCommand {
    RegisterCommand {
        username: "alice_01".into(),
        password: "super-secret".into(),
        nickname: "爱丽丝".into(),
    }
}

#[test]
fn registers_account_and_player_step_by_step() {
    let stage = RegisterAwaitLookup::begin(&register_cmd()).unwrap();
    assert_eq!(stage.username(), "alice_01");
    let stage = stage.on_lookup(Ok(None)).unwrap();
    assert_eq!(stage.password(), "super-secret");
    let stage = stage.on_hashed(Ok("hashed:super-secret".into()), now(), now()).unwrap();
    assert_eq!(stage.account().status(), &AccountStatus::Active);
    assert_eq!(stage.account().password_hash().expose(), "hashed:super-secret");
    let account_id = stage.account().id();
    let stage = stage.on_saved(Ok(())).unwrap();
    assert_eq!(stage.player().account_id(), account_id);
    assert_eq!(stage.player().level(), 1);
    let stage = stage.on_saved(Ok(())).unwrap();
    let (pid, action, detail) = stage.audit_record();
    assert_eq!(action, "register");
    assert_eq!(detail, format!("{{\"username\":\"{}\"}}", uuid::Uuid::from_u128(pid.0)));
    let result = stage.on_audited(Err(AppError::Storage("audit down".into())));
    assert_eq!(result.account_id, account_id);
    assert_eq!(result.player_id, pid);
    assert_eq!(result.nickname, "爱丽丝");
}

#[test]
fn register_rejects_duplicate_username_and_input_errors_first() {
    let existing = Account::register(
        Username::try_new("alice_01").unwrap(),
        PasswordHash::new("h".into()),
        now(),
    );
    let stage = RegisterAwaitLookup::begin(&register_cmd()).unwrap();
    assert!(matches!(stage.on_lookup(Ok(Some(existing))), Err(AppError::Conflict(m)) if m == "用户名已被占用"));
    let bad_name = RegisterCommand { username: "x".into(), nickname: "".into(), password: "short".into() };
    assert!(matches!(
        RegisterAwaitLookup::begin(&bad_name),
        Err(AppError::Validation(m)) if m == "username: 长度必须在 3~32 之间"
    ));
    let bad_nick = RegisterCommand { username: "bob".into(), nickname: "".into(), password: "short".into() };
    assert!(matches!(
        RegisterAwaitLookup::begin(&bad_nick),
        Err(AppError::Validation(m)) if m.starts_with("nickname: ")
    ));
    let bad_pw = RegisterCommand { username: "bob".into(), nickname: "b".into(), password: "short".into() };
    assert!(matches!(
        RegisterAwaitLookup::begin(&bad_pw),
        Err(AppError::Validation(m)) if m.starts_with("password: ")
    ));
}

#[test]
fn hasher_failure_and_save_failures_abort_registration() {
    let stage = RegisterAwaitLookup::begin(&register_cmd()).unwrap().on_lookup(Ok(None)).unwrap();
    assert!(matches!(stage.on_hashed(Err(AppError::Internal("哈希失败".into())), now(), now()), Err(AppError::Internal(m)) if m == "哈希失败"));
    let stage = RegisterAwaitLookup::begin(&register_cmd()).unwrap().on_lookup(Ok(None)).unwrap();
    let stage = stage.on_hashed(Ok("h".into()), now(), now()).unwrap();
    assert!(matches!(stage.on_saved(Err(RepoError::Storage("down".into()))), Err(AppError::Storage(m)) if m == "down"));
    let stage = RegisterAwaitLookup::begin(&register_cmd()).unwrap().on_lookup(Ok(None)).unwrap();
    let stage = stage.on_hashed(Ok("h".into()), now(), now()).unwrap();
    let account_id = stage.account().id();
    let stage = stage.on_saved(Ok(())).unwrap();
    let undo = match stage.on_saved(Err(RepoError::Storage("players down".into()))) {
        Err(undo) => undo,
        Ok(_) => panic!("a failed player save must undo the account"),
    };
    assert_eq!(undo.account_id(), account_id);
    assert_eq!(undo.on_undone(Err(RepoError::Storage("x".into()))), AppError::Storage("players down".into()));
    assert_eq!(map_conflict(RepoError::Conflict("dup".into())), AppError::Conflict("用户名已被占用".into()));
    assert_eq!(map_conflict(RepoError::Storage("x".into())), AppError::Storage("x".into()));
}

// ---- login ----

fn login_cmd() -> LoginCommand {
    LoginCommand { username: "Alice".into(), password: "super-secret".into() }
}

fn alice(status: AccountStatus) -> Account {
    Account::reconstitute(
        AccountId(11),
        Username::try_new("alice").unwrap(),
        PasswordHash::new("hashed:super-secret".into()),
        status,
        now(),
    )
}

fn alice_player() -> Player {
    Player::reconstitute(PlayerId(22), AccountId(11), Nickname::try_new("爱丽丝").unwrap(), 1, 0, None, now())
}

#[test]
fn login_issues_token_and_records_login_step_by_step() {
    let stage = LoginAwaitAccount::begin(&login_cmd(), 60).unwrap();
    assert_eq!(stage.username(), "alice");
    let stage = stage.on_account(Ok(Some(alice(AccountStatus::Active)))).unwrap();
    assert_eq!(stage.password(), "super-secret");
    assert_eq!(stage.password_hash(), "hashed:super-secret");
    let stage = stage.on_verified(Ok(true), now()).unwrap();
    assert_eq!(stage.account_id(), AccountId(11));
    let stage = stage.on_player(Ok(Some(alice_player()))).unwrap();
    assert_eq!(stage.player_id(), PlayerId(22));
    // A failed revoke does not stop the login.
    let stage = stage.on_revoked(Err(AppError::Storage("redis down".into())));
    assert_eq!(stage.player_id(), PlayerId(22));
    let login_at = UtcTime { secs: now().secs + 1, nanos: 0 };
    let stage = stage.on_token(Ok("tok-1".into()), login_at).unwrap();
    assert_eq!(stage.player().last_login_at(), Some(login_at));
    let stage = stage.on_saved(Ok(())).unwrap();
    let (pid, action, detail) = stage.audit_record();
    assert_eq!((pid, action, detail.as_str()), (PlayerId(22), "login", "{}"));
    let result = stage.on_audited(Ok(()));
    assert_eq!(result.token, "tok-1");
    assert_eq!(result.player_id, PlayerId(22));
    assert_eq!(result.nickname, "爱丽丝");
    assert_eq!(result.expires_in_secs, 60);
}

#[test]
fn login_failures_are_generic_or_forbidden() {
    let unknown = LoginAwaitAccount::begin(&login_cmd(), 60).unwrap().on_account(Ok(None));
    assert!(matches!(unknown, Err(AppError::Unauthorized(m)) if m == "用户名或密码错误"));
    let wrong = LoginAwaitAccount::begin(&login_cmd(), 60)
        .unwrap()
        .on_account(Ok(Some(alice(AccountStatus::Active))))
        .unwrap()
        .on_verified(Ok(false), now());
    assert!(matches!(wrong, Err(AppError::Unauthorized(m)) if m == "用户名或密码错误"));
    let banned_right_password = LoginAwaitAccount::begin(&login_cmd(), 60)
        .unwrap()
        .on_account(Ok(Some(alice(AccountStatus::Banned { reason: "x".into(), until: None }))))
        .unwrap()
        .on_verified(Ok(true), now());
    assert!(matches!(banned_right_password, Err(AppError::Forbidden(m)) if m == "账号当前不可登录"));
    let bad_shape = LoginAwaitAccount::begin(&LoginCommand { username: "a b".into(), password: "p".into() }, 60);
    assert!(matches!(bad_shape, Err(AppError::Validation(_))));
    let no_player = LoginAwaitAccount::begin(&login_cmd(), 60)
        .unwrap()
        .on_account(Ok(Some(alice(AccountStatus::Active))))
        .unwrap()
        .on_verified(Ok(true), now())
        .unwrap()
        .on_player(Ok(None));
    assert!(matches!(no_player, Err(AppError::Internal(m)) if m == "账号缺少对应的玩家档案"));
}

#[test]
fn token_failure_leaves_login_time_unsaved() {
    let r = LoginAwaitAccount::begin(&login_cmd(), 60)
        .unwrap()
        .on_account(Ok(Some(alice(AccountStatus::Active))))
        .unwrap()
        .on_verified(Ok(true), now())
        .unwrap()
        .on_player(Ok(Some(alice_player())))
        .unwrap()
        .on_revoked(Ok(()))
        .on_token(Err(AppError::Storage("redis down".into())), now());
    assert!(matches!(r, Err(AppError::Storage(m)) if m == "redis down"));
}

#[test]
fn wrong_password_does_not_reveal_account_status() {
    for status in [
        AccountStatus::Active,
        AccountStatus::Suspended,
        AccountStatus::Banned { reason: "x".into(), until: None },
    ] {
        let r = LoginAwaitAccount::begin(&login_cmd(), 60)
            .unwrap()
            .on_account(Ok(Some(alice(status))))
            .unwrap()
            .on_verified(Ok(false), now());
        assert!(matches!(r, Err(AppError::Unauthorized(m)) if m == "用户名或密码错误"));
    }
    let suspended = LoginAwaitAccount::begin(&login_cmd(), 60)
        .unwrap()
        .on_account(Ok(Some(alice(AccountStatus::Suspended))))
        .unwrap()
        .on_verified(Ok(true), now());
    assert!(matches!(suspended, Err(AppError::Forbidden(_))));
}

// ---- progression ----

#[test]
fn profile_lookup_outcomes() {
    let p = alice_player();
    let profile: PlayerProfile = profile_from_lookup(Ok(Some(p))).unwrap();
    assert_eq!(profile.player_id, PlayerId(22));
    assert_eq!(profile.nickname, "爱丽丝");
    assert_eq!((profile.level, profile.exp, profile.last_login_at), (1, 0, None));
    assert!(matches!(profile_from_lookup(Ok(None)), Err(AppError::NotFound(m)) if m == "玩家不存在"));
    assert!(matches!(profile_from_lookup(Err(RepoError::Storage("x".into()))), Err(AppError::Storage(_))));
}

#[test]
fn gain_exp_flow_publishes_level_up_and_saves() {
    assert!(matches!(GainExpAwaitPlayer::begin(PlayerId(22), 0), Err(AppError::Validation(m)) if m == "经验值必须大于 0"));
    let stage = GainExpAwaitPlayer::begin(PlayerId(22), 150).unwrap();
    assert_eq!(stage.player_id(), PlayerId(22));
    let stage = stage.on_player(Ok(Some(alice_player()))).unwrap();
    assert_eq!(
        stage.level_up_event(now()),
        Some(DomainEvent::PlayerLeveledUp { player_id: PlayerId(22), new_level: 2, at: now() })
    );
    let stage = stage.on_published(Some(Ok(()))).unwrap();
    assert_eq!(stage.player().level(), 2);
    assert_eq!(stage.player().exp(), 50);
    let profile = stage.on_saved(Ok(())).unwrap();
    assert_eq!((profile.level, profile.exp), (2, 50));

    let small = GainExpAwaitPlayer::begin(PlayerId(22), 10).unwrap().on_player(Ok(Some(alice_player()))).unwrap();
    assert_eq!(small.level_up_event(now()), None);
    assert!(matches!(
        GainExpAwaitPlayer::begin(PlayerId(22), 10).unwrap().on_player(Ok(None)),
        Err(AppError::NotFound(_))
    ));
}
