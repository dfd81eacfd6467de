use waect_rust::datetime::format_datetime_to_message_string;
use waect_rust::frontend::{
    add_message, follow_user, gravatar_url, login, logout, post_login, post_register, public_timeline, register,
    timeline, unfollow_user, user_timeline, LoginInfo, MessageInfo, Page, RegisterInfo, SessionChange,
    SessionUser,
};
use waect_rust::repository::{create_msg, is_following, Database};

fn s(x: &str) -> String {
    x.to_string()
}

fn signup(db: &mut Database, name: &str) {
    let info = RegisterInfo {
        username: s(name),
        email: format!("{}@x.com", name),
        password: s("pw"),
        password2: s("pw"),
    };
    let out = post_register(db, &info);
    assert!(matches!(out.page, Page::Redirect(303, ref l) if l == "/login"));
    assert_eq!(out.flash.as_deref(), Some("You were successfully registered and can login now"));
}

#[test]
fn gravatar_url_hashes_trimmed_lowercase_email() {
    assert_eq!(
        gravatar_url("   "),
        "https://www.gravatar.com/avatar/d41d8cd98f00b204e9800998ecf8427e?d=identicon&s=48"
    );
    assert_eq!(
        gravatar_url(" A "),
        "https://www.gravatar.com/avatar/0cc175b9c0f1b6a831c399e269772661?d=identicon&s=48"
    );
}

#[test]
fn message_dates_are_formatted_to_the_minute() {
    assert_eq!(format_datetime_to_message_string(None), "Unknown date");
    assert_eq!(format_datetime_to_message_string(Some(0)), "1970-01-01 @ 00:00");
    assert_eq!(format_datetime_to_message_string(Some(1_700_000_000)), "2023-11-14 @ 22:13");
}

#[test]
fn page_register_refusals_echo_the_form() {
    let mut db = Database::new();
    let info = RegisterInfo { username: s("a"), email: s("a@x.com"), password: s("p1"), password2: s("p2") };
    let out = post_register(&mut db, &info);
    match out.page {
        Page::Register(t) => {
            assert_eq!(t.error, "The two passwords do not match");
            assert_eq!(t.username, "a");
            assert_eq!(t.email, "a@x.com");
        }
        _ => panic!("expected the form again"),
    }
    signup(&mut db, "a");
    let again = RegisterInfo { username: s("a"), email: s("a@x.com"), password: s("p"), password2: s("p") };
    match post_register(&mut db, &again).page {
        Page::Register(t) => assert_eq!(t.error, "The username is already taken"),
        _ => panic!("expected the form again"),
    }
    let empty = register(vec![s("hello")]);
    assert_eq!(empty.username, "");
    assert_eq!(empty.flashes, vec![s("hello")]);
}

#[test]
fn page_login_flow() {
    let mut db = Database::new();
    signup(&mut db, "alice");
    let bad = post_login(&db, &LoginInfo { username: s("alice"), password: s("nope") });
    assert!(bad.flash.is_none());
    assert_eq!(bad.session, SessionChange::Keep);
    match bad.page {
        Page::Login(t) => {
            assert_eq!(t.error, "Invalid password");
            assert_eq!(t.username, "alice");
            assert!(t.flashes.is_empty());
        }
        _ => panic!("expected the login form"),
    }
    let unknown = post_login(&db, &LoginInfo { username: s("bob"), password: s("pw") });
    match unknown.page {
        Page::Login(t) => assert_eq!(t.error, "Invalid username"),
        _ => panic!("expected the login form"),
    }
    let good = post_login(&db, &LoginInfo { username: s("alice"), password: s("pw") });
    assert_eq!(good.session, SessionChange::LogIn(1));
    assert_eq!(good.flash.as_deref(), Some("You were logged in"));
    let again = login(SessionUser::LoggedIn(1), Vec::new());
    assert!(matches!(again.page, Page::Redirect(307, ref l) if l == "/"));
    assert!(matches!(login(SessionUser::Anonymous, Vec::new()).page, Page::Login(_)));
    assert!(matches!(login(SessionUser::Unreadable, Vec::new()).page, Page::ServerError(_)));
    let out = logout();
    assert_eq!(out.session, SessionChange::LogOut);
    assert!(matches!(out.page, Page::Redirect(303, ref l) if l == "/public"));
}

#[test]
fn page_timelines_and_follow() {
    let mut db = Database::new();
    signup(&mut db, "alice");
    signup(&mut db, "bob");
    assert!(matches!(timeline(&db, SessionUser::Anonymous, Vec::new()), Page::Redirect(307, _)));
    let out = follow_user(&mut db, &s("alice"), SessionUser::LoggedIn(2));
    assert!(matches!(out.page, Page::Redirect(302, ref l) if l == "/user/alice"));
    assert_eq!(out.flash.as_deref(), Some("You are now following alice"));
    assert!(is_following(&db, 1, 2));
    let none = follow_user(&mut db, &s("zed"), SessionUser::LoggedIn(2));
    assert!(matches!(none.page, Page::NotFound));
    let anon = follow_user(&mut db, &s("alice"), SessionUser::Anonymous);
    assert!(matches!(anon.page, Page::Redirect(302, ref l) if l == "User not found"));

    let posted = add_message(&mut db, SessionUser::LoggedIn(1), &MessageInfo { text: s("hi") });
    assert_eq!(posted.flash.as_deref(), Some("Your message was recorded"));
    create_msg(&mut db, 1, &s("dated"), 0, 0).unwrap();
    match timeline(&db, SessionUser::LoggedIn(2), Vec::new()) {
        Page::Timeline(t) => {
            let texts: Vec<&str> = t.messages.iter().map(|m| m.text.as_str()).collect();
            assert_eq!(texts, vec!["hi", "dated"]);
            assert_eq!(t.title, "My Timeline");
            assert_eq!(t.messages[1].pub_date, "1970-01-01 @ 00:00");
            assert_eq!(t.messages[1].username, "alice");
        }
        _ => panic!("expected a timeline"),
    }
    match user_timeline(&db, &s("alice"), SessionUser::LoggedIn(2), Vec::new()) {
        Page::Timeline(t) => {
            assert_eq!(t.followed, Some(true));
            assert_eq!(t.title, "alice's Timeline");
            assert_eq!(t.messages.len(), 2);
        }
        _ => panic!("expected a timeline"),
    }
    assert!(matches!(user_timeline(&db, &s("zed"), SessionUser::Anonymous, Vec::new()), Page::NotFound));
    match public_timeline(&db, SessionUser::Anonymous, Vec::new()) {
        Page::Timeline(t) => {
            assert!(t.user.is_none());
            assert_eq!(t.messages.len(), 2);
        }
        _ => panic!("expected a timeline"),
    }
    let unknown = unfollow_user(&mut db, &s("zed"), SessionUser::LoggedIn(2));
    assert!(matches!(unknown.page, Page::NotFound));
    assert!(unknown.flash.is_none());
    assert!(is_following(&db, 1, 2));
    let out = unfollow_user(&mut db, &s("alice"), SessionUser::LoggedIn(2));
    assert_eq!(out.flash.as_deref(), Some("You are no longer following alice"));
    assert!(!is_following(&db, 1, 2));
}

#[test]
fn page_add_message_edge_cases() {
    let mut db = Database::new();
    signup(&mut db, "alice");
    let empty = add_message(&mut db, SessionUser::LoggedIn(1), &MessageInfo { text: s("") });
    match empty.page {
        Page::Timeline(t) => assert_eq!(t.error, "Message cannot be empty!"),
        _ => panic!("expected the timeline with an error"),
    }
    assert!(matches!(
        add_message(&mut db, SessionUser::Anonymous, &MessageInfo { text: s("x") }).page,
        Page::Unauthorized
    ));
    assert!(matches!(
        add_message(&mut db, SessionUser::Unreadable, &MessageInfo { text: s("x") }).page,
        Page::ServerError(_)
    ));
    assert!(matches!(
        add_message(&mut db, SessionUser::LoggedIn(5), &MessageInfo { text: s("x") }).page,
        Page::ServerError(_)
    ));
}
