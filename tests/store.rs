use waect_rust::models::Messages;
use waect_rust::models::Users;
use waect_rust::repository::{
    create_msg, create_user, follow, get_followers, get_latest, get_public_messages, get_timeline,
    get_user_by_id, get_user_by_name, get_user_id, get_user_timeline, is_following, set_latest, unfollow,
    Database, StoreError,
};
use waect_rust::validation::{decide_login, login, register, register_account, AuthError, RegisterError};

fn s(x: &str) -> String {
    x.to_string()
}

fn add_user(db: &mut Database, name: &str) -> i32 {
    register(db, &s(name), &s(&format!("{}@x.com", name)), &s("pw"), None, &s("h")).unwrap().user_id
}

fn texts(rows: &[(Messages, Users)]) -> Vec<(String, String)> {
    rows.iter().map(|(m, u)| (m.text.clone(), u.username.clone())).collect()
}

#[test]
fn empty_username_is_refused_whatever_else_is_given() {
    let mut db = Database::new();
    for (email, pw) in [("", ""), ("a@x.com", "pw"), ("nope", "")] {
        let r = register(&mut db, &s(""), &s(email), &s(pw), None, &s("h"));
        assert_eq!(r.err(), Some(RegisterError::EmptyUsername));
        assert_eq!(RegisterError::EmptyUsername.message(), "You have to enter a username");
    }
    let r = register(&mut db, &s(""), &s("a@x.com"), &s("pw"), Some(&s("other")), &s("h"));
    assert_eq!(r.err(), Some(RegisterError::EmptyUsername));
}

#[test]
fn each_registration_error_in_order() {
    let mut db = Database::new();
    assert_eq!(register(&mut db, &s("a"), &s(""), &s(""), None, &s("h")).err(), Some(RegisterError::InvalidEmail));
    assert_eq!(register(&mut db, &s("a"), &s("ax.com"), &s("pw"), None, &s("h")).err(), Some(RegisterError::InvalidEmail));
    assert_eq!(register(&mut db, &s("a"), &s("a@x.com"), &s(""), None, &s("h")).err(), Some(RegisterError::EmptyPassword));
    assert_eq!(
        register(&mut db, &s("a"), &s("a@x.com"), &s("pw"), Some(&s("pw2")), &s("h")).err(),
        Some(RegisterError::PasswordMismatch)
    );
    assert!(register(&mut db, &s("a"), &s("a@x.com"), &s("pw"), Some(&s("pw")), &s("h")).is_ok());
    assert_eq!(RegisterError::InvalidEmail.message(), "You have to enter a valid email address");
    assert_eq!(RegisterError::EmptyPassword.message(), "You have to enter a password");
    assert_eq!(RegisterError::PasswordMismatch.message(), "The two passwords do not match");
}

#[test]
fn registering_twice_is_refused_and_one_account_remains() {
    let mut db = Database::new();
    let first = register(&mut db, &s("alice"), &s("a@x.com"), &s("pw"), None, &s("h")).unwrap();
    assert_eq!(first.user_id, 1);
    let second = register(&mut db, &s("alice"), &s("other@x.com"), &s("pw2"), None, &s("h"));
    assert_eq!(second.err(), Some(RegisterError::UsernameTaken));
    assert_eq!(RegisterError::UsernameTaken.message(), "The username is already taken");
    assert!(get_user_by_id(&db, 2).is_none());
    assert_eq!(get_user_by_name(&db, &s("alice")).unwrap().email, "a@x.com");
    // the store itself refuses a duplicate too
    assert_eq!(create_user(&mut db, &s("alice"), &s("b@x.com"), &s("h")).err(), Some(StoreError::UniqueViolation));
    // usernames are case-sensitive
    assert!(register(&mut db, &s("Alice"), &s("a@x.com"), &s("pw"), None, &s("h")).is_ok());
}

#[test]
fn lookups_by_name_and_id() {
    let mut db = Database::new();
    let a = add_user(&mut db, "alice");
    let b = add_user(&mut db, "bob");
    assert_eq!((a, b), (1, 2));
    assert_eq!(get_user_id(&db, &s("bob")), 2);
    assert_eq!(get_user_id(&db, &s("carol")), -1);
    assert_eq!(get_user_by_id(&db, 1).unwrap().username, "alice");
    assert!(get_user_by_id(&db, 0).is_none());
    assert!(get_user_by_id(&db, 3).is_none());
    assert!(get_user_by_name(&db, &s("Bob")).is_none());
}

#[test]
fn timeline_is_own_and_followed_messages_newest_first() {
    let mut db = Database::new();
    let u = add_user(&mut db, "u");
    let v = add_user(&mut db, "v");
    let w = add_user(&mut db, "w");
    create_msg(&mut db, u, &s("u1"), 100, 0).unwrap();
    create_msg(&mut db, v, &s("v1"), 300, 0).unwrap();
    create_msg(&mut db, w, &s("w1"), 400, 0).unwrap();
    create_msg(&mut db, u, &s("u2"), 500, 0).unwrap();
    create_msg(&mut db, v, &s("v-flagged"), 600, 1).unwrap();
    follow(&mut db, u, v).unwrap();
    follow(&mut db, u, v).unwrap();
    follow(&mut db, u, u).unwrap();
    let t = get_timeline(&db, u, 30);
    assert_eq!(
        texts(&t),
        vec![(s("u2"), s("u")), (s("v1"), s("v")), (s("u1"), s("u"))]
    );
    let t2 = get_timeline(&db, u, 2);
    assert_eq!(texts(&t2), vec![(s("u2"), s("u")), (s("v1"), s("v"))]);
    assert!(get_timeline(&db, u, 0).is_empty());
    assert!(get_timeline(&db, u, -5).is_empty());
}

#[test]
fn equal_dates_list_the_later_message_first() {
    let mut db = Database::new();
    let u = add_user(&mut db, "u");
    create_msg(&mut db, u, &s("first"), 50, 0).unwrap();
    create_msg(&mut db, u, &s("second"), 50, 0).unwrap();
    let t = get_user_timeline(&db, u, 10);
    assert_eq!(t[0].0.text, "second");
    assert_eq!(t[1].0.text, "first");
    assert_eq!(t[0].0.message_id, 2);
}

#[test]
fn public_listing_skips_flagged_messages() {
    let mut db = Database::new();
    let u = add_user(&mut db, "u");
    let v = add_user(&mut db, "v");
    create_msg(&mut db, u, &s("ok"), 1, 0).unwrap();
    create_msg(&mut db, v, &s("bad"), 2, 1).unwrap();
    create_msg(&mut db, v, &s("fine"), 3, 0).unwrap();
    let p = get_public_messages(&db, 10);
    assert_eq!(texts(&p), vec![(s("fine"), s("v")), (s("ok"), s("u"))]);
    assert!(p.iter().all(|(m, _)| m.flagged == 0));
    assert_eq!(get_public_messages(&db, 1).len(), 1);
}

#[test]
fn user_timeline_holds_only_that_author() {
    let mut db = Database::new();
    let u = add_user(&mut db, "u");
    let v = add_user(&mut db, "v");
    follow(&mut db, u, v).unwrap();
    create_msg(&mut db, u, &s("mine"), 1, 0).unwrap();
    create_msg(&mut db, v, &s("theirs"), 2, 0).unwrap();
    assert_eq!(texts(&get_user_timeline(&db, u, 10)), vec![(s("mine"), s("u"))]);
}

#[test]
fn follow_unfollow_and_is_following() {
    let mut db = Database::new();
    let a = add_user(&mut db, "a");
    let b = add_user(&mut db, "b");
    assert!(!is_following(&db, b, a));
    follow(&mut db, a, b).unwrap();
    assert!(is_following(&db, b, a));
    assert!(!is_following(&db, a, b));
    unfollow(&mut db, a, b);
    assert!(!is_following(&db, b, a));
    // unfollowing again is a no-op, not an error
    unfollow(&mut db, a, b);
    unfollow(&mut db, a, 77);
    assert!(!is_following(&db, b, a));
    assert_eq!(follow(&mut db, a, 9), Err(StoreError::ForeignKeyViolation));
    assert_eq!(follow(&mut db, -1, b), Err(StoreError::ForeignKeyViolation));
}

#[test]
fn followers_lists_whom_the_account_follows_in_order() {
    let mut db = Database::new();
    let a = add_user(&mut db, "a");
    let b = add_user(&mut db, "b");
    let c = add_user(&mut db, "c");
    follow(&mut db, a, c).unwrap();
    follow(&mut db, b, a).unwrap();
    follow(&mut db, a, b).unwrap();
    let names: Vec<String> = get_followers(&db, a, 10).into_iter().map(|u| u.username).collect();
    assert_eq!(names, vec![s("c"), s("b")]);
    assert_eq!(get_followers(&db, a, 1).len(), 1);
    assert_eq!(get_followers(&db, a, -1).len(), 0);
    let names_b: Vec<String> = get_followers(&db, b, 10).into_iter().map(|u| u.username).collect();
    assert_eq!(names_b, vec![s("a")]);
    assert!(get_followers(&db, c, 10).is_empty());
}

#[test]
fn latest_set_then_get_survives_other_operations() {
    let mut db = Database::new();
    assert_eq!(get_latest(&db), 0);
    set_latest(&mut db, &5);
    let a = add_user(&mut db, "a");
    let b = add_user(&mut db, "b");
    follow(&mut db, a, b).unwrap();
    create_msg(&mut db, a, &s("x"), 1, 0).unwrap();
    unfollow(&mut db, a, b);
    assert_eq!(get_latest(&db), 5);
    set_latest(&mut db, &3);
    assert_eq!(get_latest(&db), 3);
}

#[test]
fn login_errors_and_success() {
    let mut db = Database::new();
    let a = register_account(&mut db, &s("alice"), &s("a@x.com"), &s("pw"), None).unwrap();
    assert_ne!(a.pw_hash, "pw");
    assert!(a.pw_hash.starts_with("$2"));
    assert_eq!(login(&db, &s("alice"), &s("pw")), Ok(a.user_id));
    assert_eq!(login(&db, &s("alice"), &s("wrong")), Err(AuthError::InvalidPassword));
    assert_eq!(login(&db, &s("nobody"), &s("pw")), Err(AuthError::InvalidUsername));
    assert_eq!(AuthError::InvalidPassword.message(), "Invalid password");
    assert_eq!(AuthError::InvalidUsername.message(), "Invalid username");
}

#[test]
fn login_decision_follows_the_hasher_verdict() {
    let mut db = Database::new();
    let a = add_user(&mut db, "alice");
    assert_eq!(decide_login(&db, &s("alice"), true), Ok(a));
    assert_eq!(decide_login(&db, &s("alice"), false), Err(AuthError::InvalidPassword));
    assert_eq!(decide_login(&db, &s("bob"), true), Err(AuthError::InvalidUsername));
    // a stored value that is not a bcrypt hash never verifies
    assert_eq!(login(&db, &s("alice"), &s("h")), Err(AuthError::InvalidPassword));
}

#[test]
fn register_stores_the_given_hash() {
    let mut db = Database::new();
    let u = register(&mut db, &s("a"), &s("a@x.com"), &s("pw"), None, &s("HASH")).unwrap();
    assert_eq!(u.pw_hash, "HASH");
    assert_eq!(get_user_by_name(&db, &s("a")).unwrap().pw_hash, "HASH");
}

#[test]
fn create_msg_needs_a_stored_author() {
    let mut db = Database::new();
    assert_eq!(create_msg(&mut db, 1, &s("x"), 0, 0).err(), Some(StoreError::ForeignKeyViolation));
    let a = add_user(&mut db, "a");
    let m = create_msg(&mut db, a, &s("x"), 42, 0).unwrap();
    assert_eq!((m.message_id, m.author_id, m.pub_date, m.flagged), (1, a, 42, 0));
}

#[test]
fn example_scenario_alice_bob_carol() {
    let mut db = Database::new();
    assert!(register(&mut db, &s("alice"), &s("a@x.com"), &s("pw"), None, &s("h")).is_ok());
    assert!(register(&mut db, &s("bob"), &s("b@x.com"), &s("pw"), None, &s("h")).is_ok());
    let carol = add_user(&mut db, "carol");
    let alice = get_user_id(&db, &s("alice"));
    let bob = get_user_id(&db, &s("bob"));
    follow(&mut db, bob, alice).unwrap();
    create_msg(&mut db, alice, &s("hi"), 10, 0).unwrap();
    create_msg(&mut db, carol, &s("noise"), 20, 0).unwrap();
    let bob_t = texts(&get_timeline(&db, bob, 30));
    assert!(bob_t.contains(&(s("hi"), s("alice"))));
    let alice_t = texts(&get_timeline(&db, alice, 30));
    assert!(alice_t.contains(&(s("hi"), s("alice"))));
    assert!(!alice_t.iter().any(|(_, u)| u == "carol"));
    assert!(!bob_t.iter().any(|(_, u)| u == "carol"));
}
