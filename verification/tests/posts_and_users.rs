use cndev::datetime::Timestamp;
use cndev::post::{
    delete_post_at, draft_post, former_page_is_stale, page_index, page_name, post_for_page,
    posts_for_home, posts_for_listing, prepare_for_page, publish_post, publish_post_at, require_post,
    select_post, unpublish_post_at, update_post_at, Model, ServiceError, StatusRule, STATUS_DELETED,
    STATUS_DRAFT, STATUS_PUBLISHED,
};
use cndev::user;

fn t(seconds: i64) -> Timestamp {
    Timestamp { seconds, nanos: 0 }
}

fn post(id: i32, user_id: i32, status: i16) -> Model {
    Model {
        id,
        user_id,
        title: "<Title>".to_string(),
        sharing_path: String::new(),
        tags: "a,b".to_string(),
        category: 1,
        the_abstract: "line one\r\n<line> two\n".to_string(),
        text: "x < y".to_string(),
        references: "<ref>".to_string(),
        status,
        created_at: t(100),
        updated_at: t(200),
        updated_at_formatted: String::new(),
        old_sharing_path: String::new(),
        id_or_sharing_path: String::new(),
    }
}

fn a_user(id: i32, nick: Option<&str>) -> user::Model {
    user::Model {
        id,
        nick: nick.map(|n| n.to_string()),
        name: "name".to_string(),
        tel: "13666666666".to_string(),
        mail: "m@x".to_string(),
        status: 1,
        created_at: t(1000),
        updated_at: t(2000),
    }
}

#[test]
fn new_posts_are_drafts() {
    let p = draft_post(3, "t".into(), "s".into(), "g".into(), "x".into());
    assert_eq!(p.status, STATUS_DRAFT);
    assert_eq!(p.user_id, 3);
    assert_eq!(p.title, "t");
    assert_eq!(p.sharing_path, "s");
    assert_eq!(p.tags, "g");
    assert_eq!(p.text, "x");
}

#[test]
fn publishing_moves_a_draft_to_published() {
    let p = publish_post_at(Some(post(1, 9, STATUS_DRAFT)), 1, 9, t(300)).unwrap();
    assert_eq!(p.status, STATUS_PUBLISHED);
    assert_eq!(p.updated_at, t(300));
    assert_eq!(p.created_at, t(100));
    assert_eq!(p.title, "<Title>");
}

#[test]
fn publishing_refuses_what_is_not_a_draft_of_the_author() {
    assert_eq!(publish_post_at(Some(post(1, 9, STATUS_PUBLISHED)), 1, 9, t(3)).err(), Some(ServiceError::PostNotFound));
    assert_eq!(publish_post_at(Some(post(1, 9, STATUS_DELETED)), 1, 9, t(3)).err(), Some(ServiceError::PostNotFound));
    assert_eq!(publish_post_at(Some(post(1, 8, STATUS_DRAFT)), 1, 9, t(3)).err(), Some(ServiceError::PostNotFound));
    assert_eq!(publish_post_at(Some(post(2, 9, STATUS_DRAFT)), 1, 9, t(3)).err(), Some(ServiceError::PostNotFound));
    assert_eq!(publish_post_at(None, 1, 9, t(3)).err(), Some(ServiceError::PostNotFound));
}

#[test]
fn publish_then_unpublish_gives_the_draft_back() {
    let published = publish_post_at(Some(post(1, 9, STATUS_DRAFT)), 1, 9, t(300)).unwrap();
    let back = unpublish_post_at(Some(published), 1, 9, t(400)).unwrap();
    assert_eq!(back.status, STATUS_DRAFT);
    assert_eq!(back.text, "x < y");
    assert_eq!(back.updated_at, t(400));
    assert!(unpublish_post_at(Some(post(1, 9, STATUS_DRAFT)), 1, 9, t(1)).is_err());
}

#[test]
fn deleted_posts_are_final() {
    let deleted = delete_post_at(Some(post(1, 9, STATUS_PUBLISHED)), 1, 9, t(5)).unwrap();
    assert_eq!(deleted.status, STATUS_DELETED);
    assert!(delete_post_at(Some(post(1, 9, STATUS_DELETED)), 1, 9, t(6)).is_err());
    assert!(update_post_at(Some(post(1, 9, STATUS_DELETED)), 1, 9, "a".into(), "b".into(), "c".into(), "d".into(), t(7)).is_err());
    assert!(unpublish_post_at(Some(post(1, 9, STATUS_DELETED)), 1, 9, t(8)).is_err());
}

#[test]
fn editing_keeps_status_and_remembers_the_old_sharing_path() {
    let mut current = post(4, 9, STATUS_PUBLISHED);
    current.sharing_path = "old-path".to_string();
    let edited = update_post_at(Some(current), 4, 9, "T".into(), "new-path".into(), "g".into(), "text".into(), t(900)).unwrap();
    assert_eq!(edited.status, STATUS_PUBLISHED);
    assert_eq!(edited.title, "T");
    assert_eq!(edited.sharing_path, "new-path");
    assert_eq!(edited.old_sharing_path, "old-path");
    assert_eq!(edited.the_abstract, "line one\r\n<line> two\n");
    assert_eq!(edited.updated_at, t(900));
    assert!(former_page_is_stale(&edited));
}

#[test]
fn publish_with_the_clock() {
    let p = publish_post(Some(post(1, 9, STATUS_DRAFT)), 1, 9).unwrap();
    assert_eq!(p.status, STATUS_PUBLISHED);
    assert!(p.updated_at.seconds > 1700000000);
}

#[test]
fn select_post_by_rule() {
    assert!(select_post(Some(post(1, 2, STATUS_DRAFT)), 1, 2, StatusRule::NotDeleted).is_ok());
    assert!(select_post(Some(post(1, 2, STATUS_DRAFT)), 1, 2, StatusRule::Exactly(STATUS_PUBLISHED)).is_err());
    assert!(require_post(None).is_err());
    assert_eq!(ServiceError::PostNotFound.message(), "Cannot find post.");
    assert_eq!(ServiceError::UserNotFound.message(), "Cannot find user.");
    assert_eq!(ServiceError::NickAlreadyExists.message(), "Nick already exists.");
}

#[test]
fn page_name_prefers_the_sharing_path() {
    let mut p = post(42, 1, STATUS_DRAFT);
    assert_eq!(page_name(&p), "42");
    p.sharing_path = "hello".to_string();
    assert_eq!(page_name(&p), "hello");
}

#[test]
fn a_post_page_shows_escaped_fields() {
    let mut p = post(42, 1, STATUS_PUBLISHED);
    p.updated_at = t(0);
    prepare_for_page(&mut p);
    assert_eq!(p.updated_at_formatted, "1970-01-01 00:00:00");
    assert_eq!(p.id_or_sharing_path, "42");
    let shown = post_for_page(&p);
    assert_eq!(shown.title, "&lt;Title&gt;");
    assert_eq!(shown.the_abstract, "line one&lt;line&gt; two");
    assert_eq!(shown.text, "x &lt; y");
    assert_eq!(shown.references, "&lt;ref&gt;");
    assert_eq!(shown.id_or_sharing_path, "42");
}

#[test]
fn home_and_listing_prepare_every_post() {
    let mut second = post(2, 1, STATUS_PUBLISHED);
    second.sharing_path = "two".to_string();
    let listed = posts_for_home(vec![post(1, 1, STATUS_PUBLISHED), second]);
    assert_eq!(listed.len(), 2);
    assert_eq!(listed[0].title, "&lt;Title&gt;");
    assert_eq!(listed[0].id_or_sharing_path, "1");
    assert_eq!(listed[1].id_or_sharing_path, "two");
    assert_eq!(listed[0].updated_at_formatted, "1970-01-01 00:03:20");
    assert_eq!(listed[0].text, "x < y");
    let listing = posts_for_listing(vec![post(3, 1, STATUS_DRAFT)]);
    assert_eq!(listing[0].updated_at_formatted, "1970-01-01 00:03:20");
    assert_eq!(listing[0].title, "<Title>");
}

#[test]
fn former_page_is_stale_only_when_the_path_changed() {
    let mut p = post(1, 1, STATUS_PUBLISHED);
    assert!(!former_page_is_stale(&p));
    p.old_sharing_path = "a".into();
    p.sharing_path = "a".into();
    assert!(!former_page_is_stale(&p));
    p.sharing_path = "b".into();
    assert!(former_page_is_stale(&p));
}

#[test]
fn page_index_counts_from_zero() {
    assert_eq!(page_index(1), 0);
    assert_eq!(page_index(5), 4);
}

#[test]
fn new_users_have_only_a_phone_number() {
    let u = user::new_user("13666666666");
    assert!(u.nick.is_none());
    assert_eq!(u.name, "");
    assert_eq!(u.tel, "13666666666");
    assert_eq!(u.mail, "");
    assert_eq!(u.status, 1);
}

#[test]
fn saving_a_form_copies_its_name_everywhere() {
    let mut form = a_user(99, None);
    form.name = "Neo".to_string();
    form.status = 2;
    let saved = user::update_user_by_form(Some(a_user(5, Some("x"))), 5, &form).unwrap();
    assert_eq!(saved.id, 5);
    assert_eq!(saved.nick.as_deref(), Some("Neo"));
    assert_eq!(saved.name, "Neo");
    assert_eq!(saved.tel, "Neo");
    assert_eq!(saved.mail, "Neo");
    assert_eq!(saved.status, 2);
    assert_eq!(user::update_user_by_form(None, 5, &form).err(), Some(ServiceError::UserNotFound));
}

#[test]
fn a_nick_can_be_set_once() {
    let first = user::change_nick(Some(a_user(5, None)), 5, "neo".into()).unwrap();
    assert_eq!(first.nick.as_deref(), Some("neo"));
    assert_eq!(user::change_nick(Some(first), 5, "trinity".into()).err(), Some(ServiceError::NickAlreadyExists));
    assert!(user::change_nick(Some(a_user(5, Some(""))), 5, "neo".into()).is_ok());
    assert_eq!(user::change_nick(None, 5, "neo".into()).err(), Some(ServiceError::UserNotFound));
}

#[test]
fn default_nicks_are_user_and_id() {
    assert_eq!(user::default_nick(7), "user7");
    assert_eq!(user::default_nick(-1), "user-1");
    assert_eq!(user::nick_or_empty(None), "");
    assert_eq!(user::nick_or_empty(Some("n".into())), "n");
}
