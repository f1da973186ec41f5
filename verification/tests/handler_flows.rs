use cndev::datetime::Timestamp;
use cndev::ip::ParsedIp;
use cndev::post_controller::{
    image_size_acceptable, post_move_step, post_update_step, PostMove, PostMoveAction, PostMoveEvent, PostMoveState, Params as PostParams, PostSavingRequest, PostUpdateAction,
    PostUpdateEvent, PostUpdateState,
};
use cndev::reply::Reply;
use cndev::shencha::ReviewOutcome;
use cndev::site;
use cndev::tenant_controller::{
    registration_code_check, tenant_sms_step, Params as TenantParams, TenantSmsAction, TenantSmsEvent,
    TenantSmsState,
};
use cndev::user::Model;
use cndev::user_controller::{
    avatar_file_name, avatar_path, avatar_size_acceptable, grant_token_step, nick_change_step,
    sms_sending_step, GrantTokenAction, GrantTokenEvent, GrantTokenState, NickChangeAction,
    NickChangeEvent, NickChangeState, Params as UserParams, SmsSendingAction, SmsSendingEvent,
    SmsSendingState,
};

fn a_user(id: i32, nick: Option<&str>) -> Model {
    Model {
        id,
        nick: nick.map(|n| n.to_string()),
        name: String::new(),
        tel: "13666666666".to_string(),
        mail: String::new(),
        status: 1,
        created_at: Timestamp { seconds: 1234, nanos: 0 },
        updated_at: Timestamp { seconds: 1234, nanos: 0 },
    }
}

fn sms_request(ip: ParsedIp, client_ip: &str) -> SmsSendingEvent {
    SmsSendingEvent::Requested { ip, client_ip: client_ip.to_string(), tel: "13699124376".to_string() }
}

#[test]
fn sms_sending_refuses_private_networks() {
    let (s, a) = sms_sending_step(SmsSendingState::Start, sms_request(ParsedIp::V4(192, 168, 0, 2), "192.168.0.2"));
    assert!(matches!(s, SmsSendingState::Done));
    assert!(matches!(a, SmsSendingAction::Answer(Reply::Forbidden)));
}

#[test]
fn sms_sending_happy_path() {
    let (s, a) = sms_sending_step(SmsSendingState::Start, sms_request(ParsedIp::V4(8, 8, 8, 8), "8.8.8.8"));
    match a {
        SmsSendingAction::CheckTimes { key, window_seconds } => {
            assert_eq!(key, "sms_sending_times-8.8.8.8");
            assert_eq!(window_seconds, 3600);
        }
        _ => panic!("expected the counter to be updated"),
    }
    let (s, a) = sms_sending_step(s, SmsSendingEvent::TimesChecked { store_reached: true });
    assert!(matches!(a, SmsSendingAction::MakeClient));
    let (s, a) = sms_sending_step(s, SmsSendingEvent::ClientMade { made: true });
    match a {
        SmsSendingAction::SendCode { tel, code, key, ttl_seconds, template_param } => {
            assert_eq!(tel, "13699124376");
            assert_eq!(code.len(), 6);
            assert!(code.chars().all(|c| c.is_ascii_digit() && c != '4'));
            assert_eq!(key, "sms_code-13699124376");
            assert_eq!(ttl_seconds, 180);
            assert_eq!(template_param, format!("{{\"code\":\"{}\"}}", code));
        }
        _ => panic!("expected the code to be sent"),
    }
    let (s, a) = sms_sending_step(s, SmsSendingEvent::CodeSent { store_reached: true });
    assert!(matches!(s, SmsSendingState::Done));
    assert!(matches!(a, SmsSendingAction::Answer(Reply::Success)));
}

#[test]
fn sms_sending_failures() {
    let (s, _) = sms_sending_step(SmsSendingState::Start, sms_request(ParsedIp::Invalid, "x"));
    let (_, a) = sms_sending_step(s, SmsSendingEvent::TimesChecked { store_reached: false });
    assert!(matches!(a, SmsSendingAction::Answer(Reply::InternalServerError)));
    let (_, a) = sms_sending_step(
        SmsSendingState::MakingClient { tel: "1".to_string() },
        SmsSendingEvent::ClientMade { made: false },
    );
    assert!(matches!(a, SmsSendingAction::Answer(Reply::Failed)));
    let (_, a) = sms_sending_step(SmsSendingState::SendingCode, SmsSendingEvent::CodeSent { store_reached: false });
    assert!(matches!(a, SmsSendingAction::Answer(Reply::InternalServerError)));
    let (_, a) = sms_sending_step(SmsSendingState::Start, sms_request(ParsedIp::V6, "::1"));
    assert!(matches!(a, SmsSendingAction::CheckTimes { .. }));
}

fn request(code: &str, stored: Option<&str>) -> GrantTokenEvent {
    GrantTokenEvent::Requested {
        tel: "13666666666".to_string(),
        sms_code: code.to_string(),
        stored_code: stored.map(|s| s.to_string()),
    }
}

#[test]
fn grant_token_checks_the_code() {
    let (_, a) = grant_token_step(GrantTokenState::Start, request("123456", None));
    assert!(matches!(a, GrantTokenAction::Answer(Reply::InternalServerError)));
    let (_, a) = grant_token_step(GrantTokenState::Start, request("123456", Some("")));
    assert!(matches!(a, GrantTokenAction::Answer(Reply::Forbidden)));
    let (_, a) = grant_token_step(GrantTokenState::Start, request("123456", Some("654321")));
    assert!(matches!(a, GrantTokenAction::Answer(Reply::Forbidden)));
    let (s, a) = grant_token_step(GrantTokenState::Start, request("123456", Some("123456")));
    assert!(matches!(s, GrantTokenState::LookingUp { .. }));
    match a {
        GrantTokenAction::SpendCodeAndLookUp { tel } => assert_eq!(tel, "13666666666"),
        _ => panic!("expected the code to be spent"),
    }
}

#[test]
fn grant_token_for_a_known_user() {
    let state = GrantTokenState::LookingUp { tel: "13666666666".to_string() };
    let (s, a) = grant_token_step(state, GrantTokenEvent::Found(Ok(Some(a_user(4, Some("neo"))))));
    assert!(matches!(s, GrantTokenState::Done));
    match a {
        GrantTokenAction::IssueToken(g) => {
            assert_eq!(g.id, 4);
            assert_eq!(g.nick, "neo");
            assert_eq!(g.registering_time, 1234);
            assert!(!g.user_created);
        }
        _ => panic!("expected a token"),
    }
}

#[test]
fn grant_token_makes_and_names_a_new_user() {
    let state = GrantTokenState::LookingUp { tel: "13666666666".to_string() };
    let (s, a) = grant_token_step(state, GrantTokenEvent::Found(Ok(None)));
    match a {
        GrantTokenAction::CreateUser(nu) => {
            assert_eq!(nu.tel, "13666666666");
            assert!(nu.nick.is_none());
        }
        _ => panic!("expected a new user"),
    }
    let (s, a) = grant_token_step(s, GrantTokenEvent::Created { ok: true });
    assert!(matches!(a, GrantTokenAction::LookUpAgain));
    let (s, a) = grant_token_step(s, GrantTokenEvent::Found(Ok(Some(a_user(11, None)))));
    match a {
        GrantTokenAction::SaveUser(u) => assert_eq!(u.nick.as_deref(), Some("user11")),
        _ => panic!("expected the new user to be named"),
    }
    let (_, a) = grant_token_step(s, GrantTokenEvent::Named { ok: true });
    match a {
        GrantTokenAction::IssueToken(g) => {
            assert_eq!(g.id, 11);
            assert_eq!(g.nick, "user11");
            assert!(g.user_created);
        }
        _ => panic!("expected a token"),
    }
}

#[test]
fn grant_token_failures() {
    let state = GrantTokenState::LookingUp { tel: "1".to_string() };
    let (_, a) = grant_token_step(state, GrantTokenEvent::Found(Err(())));
    assert!(matches!(a, GrantTokenAction::Answer(Reply::InternalServerError)));
    let (_, a) = grant_token_step(GrantTokenState::LookingUpAgain { user_created: false }, GrantTokenEvent::Found(Ok(None)));
    assert!(matches!(a, GrantTokenAction::Answer(Reply::InternalServerError)));
    let (_, a) = grant_token_step(GrantTokenState::LookingUpAgain { user_created: false }, GrantTokenEvent::Found(Ok(Some(a_user(2, None)))));
    match a {
        GrantTokenAction::IssueToken(g) => {
            assert_eq!(g.nick, "");
            assert!(!g.user_created);
        }
        _ => panic!("expected a token"),
    }
    let (_, a) = grant_token_step(GrantTokenState::Naming { user: a_user(2, Some("user2")) }, GrantTokenEvent::Named { ok: false });
    assert!(matches!(a, GrantTokenAction::Abandon));
}

fn nick_request(user_id: Option<i32>, old: &str, asked: &str) -> NickChangeEvent {
    NickChangeEvent::Requested {
        user_id,
        old_nick: old.to_string(),
        registering_time: 77,
        requested_nick: asked.to_string(),
    }
}

#[test]
fn nick_change_without_a_user_or_a_new_nick() {
    let (_, a) = nick_change_step(NickChangeState::Start, nick_request(None, "a", "b"));
    assert!(matches!(a, NickChangeAction::Answer(Reply::NotFound)));
    let (_, a) = nick_change_step(NickChangeState::Start, nick_request(Some(1), "neo", "  NEO "));
    assert!(matches!(a, NickChangeAction::Answer(Reply::Success)));
    let (_, a) = nick_change_step(NickChangeState::Start, nick_request(Some(1), "neo", "?!"));
    assert!(matches!(a, NickChangeAction::Answer(Reply::Success)));
}

#[test]
fn nick_change_happy_path_with_a_former_nick() {
    let (s, a) = nick_change_step(NickChangeState::Start, nick_request(Some(3), "user3", " Trinity! "));
    match a {
        NickChangeAction::Review { new_nick } => assert_eq!(new_nick, "trinity"),
        _ => panic!("expected a review"),
    }
    let (s, a) = nick_change_step(s, NickChangeEvent::Reviewed(ReviewOutcome::Verdict(true)));
    match a {
        NickChangeAction::StoreNick { user_id, new_nick } => {
            assert_eq!(user_id, 3);
            assert_eq!(new_nick, "trinity");
        }
        _ => panic!("expected the nick to be stored"),
    }
    let (s, a) = nick_change_step(s, NickChangeEvent::Stored { ok: true });
    match a {
        NickChangeAction::Republish { user_id, old_nick, new_nick, registering_time } => {
            assert_eq!(user_id, 3);
            assert_eq!(old_nick, "user3");
            assert_eq!(new_nick, "trinity");
            assert_eq!(registering_time, 77);
        }
        _ => panic!("expected the home page to be written again"),
    }
    let (_, a) = nick_change_step(s, NickChangeEvent::Republished);
    match a {
        NickChangeAction::IssueToken(g) => {
            assert_eq!(g.id, 3);
            assert_eq!(g.nick, "trinity");
            assert_eq!(g.registering_time, 77);
            assert!(!g.user_created);
        }
        _ => panic!("expected a token"),
    }
}

#[test]
fn nick_change_without_a_former_nick_and_refusals() {
    let (s, _) = nick_change_step(NickChangeState::Start, nick_request(Some(3), "", "neo"));
    let (s, _) = nick_change_step(s, NickChangeEvent::Reviewed(ReviewOutcome::Verdict(true)));
    let (_, a) = nick_change_step(s, NickChangeEvent::Stored { ok: true });
    assert!(matches!(a, NickChangeAction::IssueToken(_)));
    let (s, _) = nick_change_step(NickChangeState::Start, nick_request(Some(3), "", "neo"));
    let (_, a) = nick_change_step(s, NickChangeEvent::Reviewed(ReviewOutcome::Verdict(false)));
    assert!(matches!(a, NickChangeAction::Answer(Reply::Forbidden)));
    let (s, _) = nick_change_step(NickChangeState::Start, nick_request(Some(3), "", "neo"));
    let (_, a) = nick_change_step(s, NickChangeEvent::Reviewed(ReviewOutcome::Failed));
    assert!(matches!(a, NickChangeAction::Answer(Reply::InternalServerError)));
    let (s, _) = nick_change_step(NickChangeState::Start, nick_request(Some(3), "", "neo"));
    let (s, _) = nick_change_step(s, NickChangeEvent::Reviewed(ReviewOutcome::Verdict(true)));
    let (_, a) = nick_change_step(s, NickChangeEvent::Stored { ok: false });
    assert!(matches!(a, NickChangeAction::Answer(Reply::InternalServerError)));
}

fn saving_request() -> PostSavingRequest {
    PostSavingRequest {
        title: "T".to_string(),
        sharing_path: "p".to_string(),
        tags: "a,b".to_string(),
        category: 1,
        the_abstract: "ab".to_string(),
        text: "body".to_string(),
        references: "r".to_string(),
    }
}

fn update_request(user_id: Option<i32>) -> PostUpdateEvent {
    PostUpdateEvent::Requested { user_id, post_id: 9, request: saving_request() }
}

#[test]
fn post_update_reviews_fields_then_text() {
    let (_, a) = post_update_step(PostUpdateState::Start, update_request(None));
    assert!(matches!(a, PostUpdateAction::Answer(Reply::NotFound)));
    let (s, a) = post_update_step(PostUpdateState::Start, update_request(Some(5)));
    match a {
        PostUpdateAction::ReviewFields { text } => assert_eq!(text, "T p a,b ab r"),
        _ => panic!("expected the fields to be reviewed"),
    }
    let (s, a) = post_update_step(s, PostUpdateEvent::Reviewed(ReviewOutcome::Verdict(true)));
    match a {
        PostUpdateAction::ReviewText { text } => assert_eq!(text, "body"),
        _ => panic!("expected the text to be reviewed"),
    }
    let (s, a) = post_update_step(s, PostUpdateEvent::Reviewed(ReviewOutcome::Verdict(true)));
    match a {
        PostUpdateAction::Save { user_id, post_id, title, sharing_path, tags, text } => {
            assert_eq!((user_id, post_id), (5, 9));
            assert_eq!((title.as_str(), sharing_path.as_str(), tags.as_str(), text.as_str()), ("T", "p", "a,b", "body"));
        }
        _ => panic!("expected the post to be saved"),
    }
    let (_, a) = post_update_step(s, PostUpdateEvent::Saved { ok: true });
    assert!(matches!(a, PostUpdateAction::Answer(Reply::Success)));
    let (s, _) = post_update_step(PostUpdateState::Start, update_request(Some(5)));
    let (_, a) = post_update_step(s, PostUpdateEvent::Reviewed(ReviewOutcome::Verdict(false)));
    assert!(matches!(a, PostUpdateAction::Answer(Reply::Forbidden)));
    let (s, _) = post_update_step(PostUpdateState::Start, update_request(Some(5)));
    let (s, _) = post_update_step(s, PostUpdateEvent::Reviewed(ReviewOutcome::Verdict(true)));
    let (_, a) = post_update_step(s, PostUpdateEvent::Reviewed(ReviewOutcome::Failed));
    assert!(matches!(a, PostUpdateAction::Answer(Reply::InternalServerError)));
    let (_, a) = post_update_step(PostUpdateState::Saving, PostUpdateEvent::Saved { ok: false });
    assert!(matches!(a, PostUpdateAction::Answer(Reply::InternalServerError)));
}

#[test]
fn fields_for_review_are_joined_by_spaces() {
    let r = PostSavingRequest {
        title: "T".into(),
        sharing_path: "p".into(),
        tags: "a,b".into(),
        category: 1,
        the_abstract: "abs".into(),
        text: "body".into(),
        references: "refs".into(),
    };
    assert_eq!(r.fields_for_review(), "T p a,b abs refs");
}

#[test]
fn tenant_sms_is_rate_limited() {
    let (s, a) = tenant_sms_step(TenantSmsState::Start, TenantSmsEvent::Requested(ParsedIp::V4(1, 2, 3, 4)));
    assert!(matches!(a, TenantSmsAction::CheckTimes));
    let (_, a) = tenant_sms_step(s, TenantSmsEvent::TimesChecked { times_sent: Some(6) });
    assert!(matches!(a, TenantSmsAction::Answer(Reply::Forbidden)));
    let (s, a) = tenant_sms_step(TenantSmsState::CheckingTimes, TenantSmsEvent::TimesChecked { times_sent: Some(5) });
    assert!(matches!(a, TenantSmsAction::StoreCode));
    let (_, a) = tenant_sms_step(s, TenantSmsEvent::CodeStored { store_reached: true });
    assert!(matches!(a, TenantSmsAction::Answer(Reply::Success)));
    let (_, a) = tenant_sms_step(TenantSmsState::CheckingTimes, TenantSmsEvent::TimesChecked { times_sent: None });
    assert!(matches!(a, TenantSmsAction::Answer(Reply::InternalServerError)));
    let (_, a) = tenant_sms_step(TenantSmsState::Start, TenantSmsEvent::Requested(ParsedIp::V4(10, 1, 1, 1)));
    assert!(matches!(a, TenantSmsAction::Answer(Reply::Forbidden)));
}

#[test]
fn registration_code_check_answers() {
    assert_eq!(registration_code_check(None, "1"), Some(Reply::InternalServerError));
    assert_eq!(registration_code_check(Some(""), ""), Some(Reply::Forbidden));
    assert_eq!(registration_code_check(Some("123456"), "123"), Some(Reply::Forbidden));
    assert_eq!(registration_code_check(Some("123456"), "123456"), None);
}

#[test]
fn listing_defaults() {
    assert_eq!(PostParams { status: 2, page: None, posts_per_page: None }.page_settings(), (1, 100));
    assert_eq!(PostParams { status: 2, page: Some(3), posts_per_page: Some(7) }.page_settings(), (3, 7));
    assert_eq!(UserParams { page: None, users_per_page: None }.page_settings(), (1, 100));
    assert_eq!(TenantParams { page: None, tenants_per_page: None }.page_settings(), (1, 5));
    assert_eq!(TenantParams { page: Some(2), tenants_per_page: Some(9) }.page_settings(), (2, 9));
}

#[test]
fn upload_sizes() {
    assert!(!avatar_size_acceptable(0));
    assert!(avatar_size_acceptable(1));
    assert!(avatar_size_acceptable(102400));
    assert!(!avatar_size_acceptable(102401));
    assert!(!image_size_acceptable(0));
    assert!(image_size_acceptable(512000));
    assert!(!image_size_acceptable(512001));
}

#[test]
fn file_paths() {
    assert_eq!(avatar_file_name(12), "12.png");
    assert_eq!(avatar_path(12), "./web/sololo.cn/usr/share/nginx/html/cndev/_avatars/12.png");
    let root = "./web/cn.dev/usr/share/nginx/html/index-and-homes/root/";
    assert_eq!(site::author_folder(7), format!("{}7", root));
    assert_eq!(site::under_root("neo"), format!("{}neo", root));
    assert_eq!(site::page_under_root("neo"), format!("{}neo.html", root));
    assert_eq!(site::home_page(7), format!("{}7.html", root));
    assert_eq!(site::post_page(7, "hello"), format!("{}7/hello.html", root));
    assert_eq!(site::post_page_by_id(7, 42), format!("{}7/42.html", root));
    assert_eq!(site::link_to_id(7, ""), "./7");
    assert_eq!(site::link_to_id(42, ".html"), "./42.html");
    assert_eq!(
        site::post_images_folder(7, 42),
        "./web/sololo.cn/usr/share/nginx/html/cndev/_post_images/7/42"
    );
    assert_eq!(site::image_file_name(1700000000), "1700000000.png");
    assert_eq!(site::image_public_name(7, 42, "1.png"), "7/42/1.png");
    assert_eq!(site::in_folder("a/b", "c.png"), "a/b/c.png");
}

#[test]
fn uploaded_image_is_named_by_the_current_second() {
    let name = site::uploaded_image_file_name();
    assert!(name.ends_with(".png"));
    let seconds: i64 = name.trim_end_matches(".png").parse().unwrap();
    assert!(seconds > 1_700_000_000);
}

#[test]
fn a_code_is_spent_by_its_first_use() {
    let mut codes: std::collections::HashMap<String, String> = std::collections::HashMap::new();
    codes.insert("13666666666".to_string(), "123456".to_string());
    let read = |codes: &std::collections::HashMap<String, String>| {
        codes.get("13666666666").cloned().unwrap_or_default()
    };
    let (_, a) = grant_token_step(GrantTokenState::Start, request("123456", Some(&read(&codes))));
    match a {
        GrantTokenAction::SpendCodeAndLookUp { tel } => {
            codes.remove(&tel);
        }
        _ => panic!("expected the code to be accepted"),
    }
    let (_, a) = grant_token_step(GrantTokenState::Start, request("123456", Some(&read(&codes))));
    assert!(matches!(a, GrantTokenAction::Answer(Reply::Forbidden)));
    codes.insert("13666666666".to_string(), "777777".to_string());
    let (_, a) = grant_token_step(GrantTokenState::Start, request("777777", Some(&read(&codes))));
    assert!(matches!(a, GrantTokenAction::SpendCodeAndLookUp { .. }));
}

#[test]
fn a_post_is_moved_before_its_pages_change() {
    let (_, a) = post_move_step(
        PostMoveState::Start,
        PostMoveEvent::Requested { user_id: None, post_id: 4, kind: PostMove::Publish },
    );
    assert_eq!(a, PostMoveAction::Answer(Reply::NotFound));
    let (s, a) = post_move_step(
        PostMoveState::Start,
        PostMoveEvent::Requested { user_id: Some(2), post_id: 4, kind: PostMove::Publish },
    );
    assert_eq!(a, PostMoveAction::Move { user_id: 2, post_id: 4, kind: PostMove::Publish });
    let (s, a) = post_move_step(s, PostMoveEvent::Moved { ok: true });
    assert_eq!(a, PostMoveAction::RefreshPages { user_id: 2, post_id: 4, write_post_page: true });
    let (_, a) = post_move_step(s, PostMoveEvent::Refreshed);
    assert_eq!(a, PostMoveAction::Answer(Reply::Success));
    let (s, _) = post_move_step(
        PostMoveState::Start,
        PostMoveEvent::Requested { user_id: Some(2), post_id: 4, kind: PostMove::Delete },
    );
    let (_, a) = post_move_step(s, PostMoveEvent::Moved { ok: true });
    assert_eq!(a, PostMoveAction::RefreshPages { user_id: 2, post_id: 4, write_post_page: false });
    let (s, _) = post_move_step(
        PostMoveState::Start,
        PostMoveEvent::Requested { user_id: Some(2), post_id: 4, kind: PostMove::Unpublish },
    );
    let (_, a) = post_move_step(s, PostMoveEvent::Moved { ok: false });
    assert_eq!(a, PostMoveAction::Answer(Reply::InternalServerError));
}
