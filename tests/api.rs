use waect_rust::api::{
    create_user_message, list_feed_messages, list_user_followers, list_user_messages, register_new_user,
    retrieve_latest, update_user_followers, ApiResponse, FollowParam, MessageContent, RegisterInfo,
};
use waect_rust::auth::{AuthMiddleware, API_AUTHORIZATION};
use waect_rust::repository::{create_msg, get_latest, get_user_id, is_following, Database};

fn s(x: &str) -> String {
    x.to_string()
}

fn reg(db: &mut Database, name: &str) -> ApiResponse {
    let info = RegisterInfo { username: s(name), email: format!("{}@x.com", name), pwd: s("pw") };
    register_new_user(db, &info, None)
}

fn contents(r: &ApiResponse) -> Vec<(String, String)> {
    match r {
        ApiResponse::MessageList(v) => v.iter().map(|m| (m.content.clone(), m.user.clone())).collect(),
        _ => panic!("not a message list"),
    }
}

#[test]
fn api_register_and_refusals() {
    let mut db = Database::new();
    assert!(matches!(reg(&mut db, "alice"), ApiResponse::NoContent));
    match reg(&mut db, "alice") {
        ApiResponse::RegisterRejected(b) => {
            assert_eq!(b.status, 400);
            assert_eq!(b.error_msg, "The username is already taken");
        }
        _ => panic!("expected a refusal"),
    }
    let info = RegisterInfo { username: s(""), email: s("a@x.com"), pwd: s("pw") };
    match register_new_user(&mut db, &info, Some(7)) {
        ApiResponse::RegisterRejected(b) => assert_eq!(b.error_msg, "You have to enter a username"),
        _ => panic!("expected a refusal"),
    }
    assert_eq!(get_latest(&db), 7);
    let info = RegisterInfo { username: s("bob"), email: s("bob.x.com"), pwd: s("pw") };
    match register_new_user(&mut db, &info, None) {
        ApiResponse::RegisterRejected(b) => assert_eq!(b.error_msg, "You have to enter a valid email address"),
        _ => panic!("expected a refusal"),
    }
}

#[test]
fn api_latest_is_updated_before_the_call() {
    let mut db = Database::new();
    assert!(matches!(retrieve_latest(&db), ApiResponse::LatestValue(0)));
    list_feed_messages(&mut db, 10, Some(5));
    assert!(matches!(retrieve_latest(&db), ApiResponse::LatestValue(5)));
    list_feed_messages(&mut db, 10, None);
    assert!(matches!(retrieve_latest(&db), ApiResponse::LatestValue(5)));
    assert!(matches!(list_user_messages(&mut db, &s("ghost"), 10, Some(9)), ApiResponse::NotFound));
    assert_eq!(get_latest(&db), 9);
}

#[test]
fn api_messages_post_and_list() {
    let mut db = Database::new();
    reg(&mut db, "alice");
    reg(&mut db, "bob");
    let msg = MessageContent { content: s("hello") };
    assert!(matches!(create_user_message(&mut db, &s("alice"), &msg, Some(1)), ApiResponse::NoContent));
    assert!(matches!(create_user_message(&mut db, &s("nobody"), &msg, None), ApiResponse::NotFound));
    let bob = get_user_id(&db, &s("bob"));
    create_msg(&mut db, bob, &s("hidden"), 0, 1).unwrap();
    let feed = list_feed_messages(&mut db, 10, None);
    assert_eq!(contents(&feed), vec![(s("hello"), s("alice"))]);
    let mine = list_user_messages(&mut db, &s("alice"), 10, None);
    assert_eq!(contents(&mine), vec![(s("hello"), s("alice"))]);
    let bobs = list_user_messages(&mut db, &s("bob"), 10, None);
    assert!(contents(&bobs).is_empty());
}

#[test]
fn api_follow_unfollow_and_list() {
    let mut db = Database::new();
    reg(&mut db, "a");
    reg(&mut db, "b");
    reg(&mut db, "c");
    let f = FollowParam { follow: Some(s("b")), unfollow: None };
    assert!(matches!(update_user_followers(&mut db, &s("a"), &f, None), ApiResponse::NoContent));
    let f = FollowParam { follow: Some(s("c")), unfollow: Some(s("b")) };
    assert!(matches!(update_user_followers(&mut db, &s("a"), &f, None), ApiResponse::NoContent));
    match list_user_followers(&mut db, &s("a"), 10, None) {
        ApiResponse::FollowList(l) => assert_eq!(l.follows, vec![s("b"), s("c")]),
        _ => panic!("expected a follow list"),
    }
    let f = FollowParam { follow: None, unfollow: Some(s("b")) };
    assert!(matches!(update_user_followers(&mut db, &s("a"), &f, None), ApiResponse::NoContent));
    assert!(!is_following(&db, 2, 1));
    match list_user_followers(&mut db, &s("a"), 10, None) {
        ApiResponse::FollowList(l) => assert_eq!(l.follows, vec![s("c")]),
        _ => panic!("expected a follow list"),
    }
    let none = FollowParam { follow: None, unfollow: None };
    assert!(matches!(update_user_followers(&mut db, &s("a"), &none, None), ApiResponse::BadRequest));
    let unknown = FollowParam { follow: Some(s("zed")), unfollow: None };
    assert!(matches!(update_user_followers(&mut db, &s("a"), &unknown, None), ApiResponse::BadRequest));
    assert!(matches!(update_user_followers(&mut db, &s("zed"), &none, None), ApiResponse::NotFound));
    assert!(matches!(list_user_followers(&mut db, &s("zed"), 10, None), ApiResponse::NotFound));
}

#[test]
fn api_user_messages_follow_the_personal_timeline() {
    let mut db = Database::new();
    reg(&mut db, "a");
    reg(&mut db, "b");
    let f = FollowParam { follow: Some(s("b")), unfollow: None };
    update_user_followers(&mut db, &s("a"), &f, None);
    create_msg(&mut db, 2, &s("from b"), 20, 0).unwrap();
    create_msg(&mut db, 1, &s("from a"), 10, 0).unwrap();
    let r = list_user_messages(&mut db, &s("a"), 10, None);
    assert_eq!(contents(&r), vec![(s("from b"), s("b")), (s("from a"), s("a"))]);
    let r = list_user_messages(&mut db, &s("a"), 1, None);
    assert_eq!(contents(&r), vec![(s("from b"), s("b"))]);
}

#[test]
fn api_token_guards_only_api_paths() {
    let guard = AuthMiddleware.new_transform(());
    assert!(guard.call("/public", None));
    assert!(guard.call("/", Some("Basic wrong")));
    assert!(!guard.call("/api/latest", None));
    assert!(!guard.call("/api/latest", Some("Basic wrong")));
    assert!(!guard.call("/api", Some("")));
    assert!(guard.call("/api/msgs", Some(API_AUTHORIZATION)));
    assert!(guard.call("/ap", None));
}
