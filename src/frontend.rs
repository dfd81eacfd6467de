use vstd::prelude::*;
use md5::{Digest, Md5};
use crate::datetime::{
    format_datetime_to_message_string, in_calendar_range, message_date_text, now_timestamp,
};
use crate::models::{Followers, MessageRow, Messages, Users};
use crate::repository::{
    create_msg, follow, get_public_messages, get_timeline, get_user_by_id, get_user_by_name, get_user_id,
    get_user_timeline, is_following, message_rows, unfollow, without_edge, Database, DbModel,
    MessageFilter,
};
use crate::password::bcrypt_verifies;
use crate::validation::{register_error_text, registration_error, opt_chars};

verus! {

/// How many messages a page shows.
pub const PAGE_MESSAGES_LIMIT: i32 = 30;

/// An account as the pages show it.
pub struct UserTemplate {
    pub user_id: i32,
    pub username: String,
    pub email: String,
}

/// A message as the pages show it.
pub struct MessageTemplate {
    pub text: String,
    pub username: String,
    pub pub_date: String,
    pub gravatar_url: String,
}

/// The data of a timeline page.
pub struct TimelineTemplate {
    pub messages: Vec<MessageTemplate>,
    pub user: Option<UserTemplate>,
    pub request_endpoint: String,
    pub profile_user: Option<UserTemplate>,
    pub followed: Option<bool>,
    pub flashes: Vec<String>,
    pub title: String,
    pub error: String,
}

/// The data of the login page.
pub struct LoginTemplate {
    pub user: Option<UserTemplate>,
    pub error: String,
    pub flashes: Vec<String>,
    pub username: String,
}

/// The data of the registration page.
pub struct RegisterTemplate {
    pub user: Option<UserTemplate>,
    pub email: String,
    pub username: String,
    pub password: String,
    pub flashes: Vec<String>,
    pub error: String,
}

/// The form of a new message.
pub struct MessageInfo {
    pub text: String,
}

/// The login form.
pub struct LoginInfo {
    pub username: String,
    pub password: String,
}

/// The registration form.
pub struct RegisterInfo {
    pub username: String,
    pub email: String,
    pub password: String,
    pub password2: String,
}

/// `s` with leading and trailing white space removed, as `str::trim` does.
pub uninterp spec fn trim_of(s: Seq<char>) -> Seq<char>;

/// `s` in lower case, as `str::to_lowercase` does.
pub uninterp spec fn lower_of(s: Seq<char>) -> Seq<char>;

/// The MD5 digest of `data`.
pub uninterp spec fn md5_of(data: Seq<u8>) -> Seq<u8>;

/// Relies on std's `str::trim`.
#[verifier::external_body]
fn trimmed(s: &str) -> (r: String)
    ensures
        r@ == trim_of(s@),
{
    s.trim().to_string()
}

/// Relies on std's `str::to_lowercase`.
#[verifier::external_body]
fn lowercased(s: &str) -> (r: String)
    ensures
        r@ == lower_of(s@),
{
    s.to_lowercase()
}

/// Relies on the md-5 crate's `Md5::digest`, whose output is 16 bytes.
#[verifier::external_body]
fn md5_digest(data: &[u8]) -> (r: Vec<u8>)
    ensures
        r@ == md5_of(data@),
        r@.len() == 16,
{
    Md5::digest(data).to_vec()
}

/// The lower-case hexadecimal digit of `n`.
pub open spec fn hex_digit(n: u8) -> char
    recommends
        n < 16,
{
    if n < 10 {
        ((n + 48) as u8) as char
    } else {
        ((n + 87) as u8) as char
    }
}

/// Two lower-case hexadecimal digits per byte, high digit first.
pub open spec fn hex_text(b: Seq<u8>) -> Seq<char>
    decreases b.len(),
{
    if b.len() == 0 {
        Seq::empty()
    } else {
        hex_text(b.drop_last()) + seq![hex_digit(b.last() / 16), hex_digit(b.last() % 16)]
    }
}

fn hex_str(n: u8) -> (r: &'static str)
    requires
        n < 16,
    ensures
        r@ == seq![hex_digit(n)],
{
    match n {
        0 => {
            proof {
                reveal_strlit("0");
            }
            "0"
        },
        1 => {
            proof {
                reveal_strlit("1");
            }
            "1"
        },
        2 => {
            proof {
                reveal_strlit("2");
            }
            "2"
        },
        3 => {
            proof {
                reveal_strlit("3");
            }
            "3"
        },
        4 => {
            proof {
                reveal_strlit("4");
            }
            "4"
        },
        5 => {
            proof {
                reveal_strlit("5");
            }
            "5"
        },
        6 => {
            proof {
                reveal_strlit("6");
            }
            "6"
        },
        7 => {
            proof {
                reveal_strlit("7");
            }
            "7"
        },
        8 => {
            proof {
                reveal_strlit("8");
            }
            "8"
        },
        9 => {
            proof {
                reveal_strlit("9");
            }
            "9"
        },
        10 => {
            proof {
                reveal_strlit("a");
            }
            "a"
        },
        11 => {
            proof {
                reveal_strlit("b");
            }
            "b"
        },
        12 => {
            proof {
                reveal_strlit("c");
            }
            "c"
        },
        13 => {
            proof {
                reveal_strlit("d");
            }
            "d"
        },
        14 => {
            proof {
                reveal_strlit("e");
            }
            "e"
        },
        15 => {
            proof {
                reveal_strlit("f");
            }
            "f"
        },
        _ => {
            proof {
                reveal_strlit("f");
            }
            "f"
        },
    }
}

/// Lower-case hexadecimal text of `b`.
pub fn to_hex(b: &[u8]) -> (r: String)
    ensures
        r@ == hex_text(b@),
{
    let mut r = String::new();
    let mut i: usize = 0;
    while i < b.len()
        invariant
            i <= b@.len(),
            r@ == hex_text(b@.subrange(0, i as int)),
        decreases b.len() - i,
    {
        proof {
            assert(b@.subrange(0, i + 1).drop_last() =~= b@.subrange(0, i as int));
        }
        let x = b[i];
        r.append(hex_str(x / 16));
        r.append(hex_str(x % 16));
        proof {
            assert(r@ =~= hex_text(b@.subrange(0, i + 1)));
        }
        i = i + 1;
    }
    proof {
        assert(b@.subrange(0, b@.len() as int) =~= b@);
    }
    r
}

/// The avatar address of an email: the MD5 of the trimmed, lower-cased
/// address in hexadecimal, under gravatar's identicon scheme at 48 pixels.
pub open spec fn gravatar_text(email: Seq<char>) -> Seq<char> {
    "https://www.gravatar.com/avatar/"@ + hex_text(
        md5_of(vstd::utf8::encode_utf8(lower_of(trim_of(email)))),
    ) + "?d=identicon&s=48"@
}

/// The avatar address of the account with this email.
pub fn gravatar_url(email: &str) -> (r: String)
    ensures
        r@ == gravatar_text(email@),
{
    let t = trimmed(email);
    let l = lowercased(t.as_str());
    let digest = md5_digest(l.as_str().as_bytes());
    let hex = to_hex(digest.as_slice());
    let mut r = "https://www.gravatar.com/avatar/".to_string();
    r.append(hex.as_str());
    r.append("?d=identicon&s=48");
    r
}

/// Who the session cookie says is logged in.
#[derive(Clone, Copy, PartialEq, Eq, Structural, Debug)]
pub enum SessionUser {
    Anonymous,
    LoggedIn(i32),
    /// The session could not be read.
    Unreadable,
}

/// What a page request does to the session.
#[derive(Clone, Copy, PartialEq, Eq, Structural, Debug)]
pub enum SessionChange {
    Keep,
    LogIn(i32),
    LogOut,
}

/// The answer to a page request.
pub enum Page {
    Timeline(TimelineTemplate),
    Login(LoginTemplate),
    Register(RegisterTemplate),
    /// A redirect with its status code and `Location`.
    Redirect(u16, String),
    NotFound,
    Unauthorized,
    /// 500 with a body text.
    ServerError(String),
}

/// A page answer with the flash message to queue and the session change.
pub struct PageOutcome {
    pub page: Page,
    pub flash: Option<String>,
    pub session: SessionChange,
}

/// `t` shows account `id` of `m`.
pub open spec fn shows_user(m: DbModel, t: UserTemplate, id: i32) -> bool {
    &&& m.has_user_id(id)
    &&& t.user_id == id
    &&& t.username@ == m.user(id).username
    &&& t.email@ == m.user(id).email
}

/// `t` is how the pages write the date `d`.
pub open spec fn shows_date(t: Seq<char>, d: i64) -> bool {
    t == message_date_text(d) || (!in_calendar_range(d) && t == "Unknown date"@)
}

/// `v` shows the messages of `sel`, in order, with author, date and avatar.
pub open spec fn shows_templates(m: DbModel, v: Seq<MessageTemplate>, sel: Seq<MessageRow>) -> bool {
    &&& v.len() == sel.len()
    &&& forall|i: int|
        0 <= i < v.len() ==> {
            &&& (#[trigger] v[i]).text@ == sel[i].text
            &&& v[i].username@ == m.user(sel[i].author_id).username
            &&& v[i].gravatar_url@ == gravatar_text(m.user(sel[i].author_id).email)
            &&& shows_date(v[i].pub_date@, sel[i].pub_date)
        }
}

/// `v` shows the listing of what `f` admits, cut at `limit`.
pub open spec fn shows_page_listing(m: DbModel, v: Seq<MessageTemplate>, f: MessageFilter, limit: int) -> bool {
    exists|sel: Seq<MessageRow>| m.is_listing(sel, f, limit) && shows_templates(m, v, sel)
}

fn user_template(u: &Users) -> (r: UserTemplate)
    ensures
        r.user_id == u.user_id,
        r.username@ == u.username@,
        r.email@ == u.email@,
{
    UserTemplate { user_id: u.user_id, username: u.username.clone(), email: u.email.clone() }
}

/// The page form of the account called `username`.
pub fn get_user_template_by_name(db: &Database, username: &String) -> (r: Option<UserTemplate>)
    requires
        db@.wf(),
    ensures
        r is Some <==> db@.name_taken(username@),
        r is Some ==> shows_user(db@, r->0, db@.id_of(username@)) && r->0.username@ == username@,
{
    match get_user_by_name(db, username) {
        Some(u) => Some(user_template(&u)),
        None => None,
    }
}

/// The page form of account `user_id`.
pub fn get_user_template(db: &Database, user_id: i32) -> (r: Option<UserTemplate>)
    requires
        db@.wf(),
    ensures
        r is Some <==> db@.has_user_id(user_id),
        r is Some ==> shows_user(db@, r->0, user_id),
{
    match get_user_by_id(db, user_id) {
        Some(u) => Some(user_template(&u)),
        None => None,
    }
}

/// The logged-in account, where the session names a stored one.
pub fn get_user(db: &Database, session: SessionUser) -> (r: Option<UserTemplate>)
    requires
        db@.wf(),
    ensures
        r is Some <==> (session matches SessionUser::LoggedIn(id) && db@.has_user_id(id)),
        r is Some ==> shows_user(db@, r->0, session->LoggedIn_0),
{
    match session {
        SessionUser::LoggedIn(id) => get_user_template(db, id),
        _ => None,
    }
}

/// The page form of listed messages.
pub fn format_messages(db: &Database, messages: &Vec<(Messages, Users)>) -> (r: Vec<MessageTemplate>)
    requires
        db@.with_authors(messages@),
    ensures
        shows_templates(db@, r@, message_rows(messages@)),
{
    let mut r: Vec<MessageTemplate> = Vec::new();
    let mut i: usize = 0;
    while i < messages.len()
        invariant
            i <= messages@.len(),
            db@.with_authors(messages@),
            r@.len() == i,
            forall|k: int|
                0 <= k < i ==> {
                    &&& (#[trigger] r@[k]).text@ == message_rows(messages@)[k].text
                    &&& r@[k].username@ == db@.user(message_rows(messages@)[k].author_id).username
                    &&& r@[k].gravatar_url@ == gravatar_text(
                        db@.user(message_rows(messages@)[k].author_id).email,
                    )
                    &&& shows_date(r@[k].pub_date@, message_rows(messages@)[k].pub_date)
                },
        decreases messages@.len() - i,
    {
        let (msg, user) = (&messages[i].0, &messages[i].1);
        assert(messages@[i as int].1@ == db@.user(messages@[i as int].0.author_id));
        let t = MessageTemplate {
            text: msg.text.clone(),
            username: user.username.clone(),
            pub_date: format_datetime_to_message_string(Some(msg.pub_date)),
            gravatar_url: gravatar_url(user.email.as_str()),
        };
        r.push(t);
        i = i + 1;
    }
    r
}

fn listing_page(
    db: &Database,
    rows: &Vec<(Messages, Users)>,
    endpoint: &str,
    profile_user: Option<UserTemplate>,
    user: Option<UserTemplate>,
    followed: bool,
    flashes: Vec<String>,
    title: String,
    error: &str,
) -> (r: TimelineTemplate)
    requires
        db@.with_authors(rows@),
    ensures
        shows_templates(db@, r.messages@, message_rows(rows@)),
        r.request_endpoint@ == endpoint@,
        r.profile_user == profile_user,
        r.user == user,
        r.followed == Some(followed),
        r.flashes == flashes,
        r.title == title,
        r.error@ == error@,
{
    TimelineTemplate {
        messages: format_messages(db, rows),
        user,
        request_endpoint: endpoint.to_string(),
        profile_user,
        followed: Some(followed),
        flashes,
        title,
        error: error.to_string(),
    }
}

/// `/`: the personal timeline of the logged-in account, or a redirect to the
/// public timeline.
pub fn timeline(db: &Database, session: SessionUser, flashes: Vec<String>) -> (r: Page)
    requires
        db@.wf(),
    ensures
        (session matches SessionUser::LoggedIn(id) && db@.has_user_id(id)) ==> (r matches Page::Timeline(t)
            && t.user is Some && shows_user(db@, t.user->0, session->LoggedIn_0) && shows_page_listing(
            db@,
            t.messages@,
            MessageFilter::TimelineOf(session->LoggedIn_0),
            PAGE_MESSAGES_LIMIT as int,
        ) && t.title@ == "My Timeline"@ && t.request_endpoint@ == "timeline"@ && t.flashes == flashes
            && t.error@ == ""@),
        !(session matches SessionUser::LoggedIn(id) && db@.has_user_id(id)) ==> (r matches Page::Redirect(
            code,
            loc,
        ) && code == 307 && loc@ == "/public"@),
{
    match get_user(db, session) {
        Some(user) => {
            let rows = get_timeline(db, user.user_id, PAGE_MESSAGES_LIMIT);
            let t = listing_page(db, &rows, "timeline", None, Some(user), false, flashes, "My Timeline".to_string(), "");
            assert(shows_templates(db@, t.messages@, message_rows(rows@)));
            Page::Timeline(t)
        },
        None => Page::Redirect(307, "/public".to_string()),
    }
}

/// `/public`: the newest unflagged messages of all accounts.
pub fn public_timeline(db: &Database, session: SessionUser, flashes: Vec<String>) -> (r: Page)
    requires
        db@.wf(),
    ensures
        r matches Page::Timeline(t) && shows_page_listing(
            db@,
            t.messages@,
            MessageFilter::Public,
            PAGE_MESSAGES_LIMIT as int,
        ) && (t.user is Some <==> (session matches SessionUser::LoggedIn(id) && db@.has_user_id(id)))
            && (t.user is Some ==> shows_user(db@, t.user->0, session->LoggedIn_0))
            && t.title@ == "Public Timeline"@ && t.request_endpoint@ == "public_timeline"@ && t.flashes
            == flashes,
{
    let user = get_user(db, session);
    let rows = get_public_messages(db, PAGE_MESSAGES_LIMIT);
    let t = listing_page(db, &rows, "public_timeline", None, user, false, flashes, "Public Timeline".to_string(), "");
    assert(shows_templates(db@, t.messages@, message_rows(rows@)));
    Page::Timeline(t)
}

/// `/user/{username}`: the messages of one account, and whether the
/// logged-in account follows it; 404 for an unknown name.
pub fn user_timeline(db: &Database, username: &String, session: SessionUser, flashes: Vec<String>) -> (r:
    Page)
    requires
        db@.wf(),
    ensures
        !db@.name_taken(username@) ==> r is NotFound,
        db@.name_taken(username@) ==> (r matches Page::Timeline(t) && {
            let id = db@.id_of(username@);
            &&& t.profile_user is Some && shows_user(db@, t.profile_user->0, id)
            &&& shows_page_listing(db@, t.messages@, MessageFilter::ByAuthor(id), PAGE_MESSAGES_LIMIT as int)
            &&& t.followed == Some(
                session matches SessionUser::LoggedIn(me) && db@.has_user_id(me) && db@.follows_edge(me, id),
            )
            &&& t.title@ == username@ + "'s Timeline"@
            &&& t.request_endpoint@ == "user_timeline"@
            &&& t.flashes == flashes
        }),
{
    match get_user_template_by_name(db, username) {
        Some(profile) => {
            let user = get_user(db, session);
            let followed = match &user {
                Some(u) => is_following(db, profile.user_id, u.user_id),
                None => false,
            };
            let rows = get_user_timeline(db, profile.user_id, PAGE_MESSAGES_LIMIT);
            let mut title = profile.username.clone();
            title.append("'s Timeline");
            let t = listing_page(db, &rows, "user_timeline", Some(profile), user, followed, flashes, title, "");
            assert(shows_templates(db@, t.messages@, message_rows(rows@)));
            Page::Timeline(t)
        },
        None => Page::NotFound,
    }
}

fn joined(a: &str, b: &String) -> (r: String)
    ensures
        r@ == a@ + b@,
{
    let mut r = a.to_string();
    r.append(b.as_str());
    r
}

/// `/{username}/follow`: the logged-in account follows `username`, then goes
/// to that account's page. Without a login the answer is a redirect whose
/// `Location` reads "User not found"; an unknown account on either side
/// answers 404.
pub fn follow_user(db: &mut Database, username: &String, session: SessionUser) -> (r: PageOutcome)
    requires
        old(db)@.wf(),
    ensures
        final(db)@.wf(),
        r.session == SessionChange::Keep,
        !(session is LoggedIn) ==> final(db)@ == old(db)@ && r.flash is None && (r.page matches Page::Redirect(
            code,
            loc,
        ) && code == 302 && loc@ == "User not found"@),
        session matches SessionUser::LoggedIn(me) ==> {
            let m = old(db)@;
            let target = m.id_of(username@);
            &&& (m.has_user_id(me) && m.name_taken(username@)) ==> {
                &&& r.page matches Page::Redirect(code, loc) && code == 302 && loc@ == "/user/"@ + username@
                &&& r.flash matches Some(f) && f@ == "You are now following "@ + username@
                &&& m.follows_edge(me, target) ==> final(db)@ == m
                &&& !m.follows_edge(me, target) ==> final(db)@ == (DbModel {
                    follows: m.follows.push(Followers { who_id: me, whom_id: target }),
                    ..m
                })
            }
            &&& !(m.has_user_id(me) && m.name_taken(username@)) ==> r.page is NotFound && r.flash is None
                && final(db)@ == m
        },
{
    match session {
        SessionUser::LoggedIn(me) => {
            let target = get_user_id(db, username);
            match follow(db, me, target) {
                Ok(()) => PageOutcome {
                    page: Page::Redirect(302, joined("/user/", username)),
                    flash: Some(joined("You are now following ", username)),
                    session: SessionChange::Keep,
                },
                Err(_) => PageOutcome { page: Page::NotFound, flash: None, session: SessionChange::Keep },
            }
        },
        _ => PageOutcome {
            page: Page::Redirect(302, "User not found".to_string()),
            flash: None,
            session: SessionChange::Keep,
        },
    }
}

/// `/{username}/unfollow`: removes the edge from the logged-in account to
/// `username` (nothing happens where there is none), then goes to that
/// account's page. An unknown `username` answers 404; without a login: as
/// for `follow_user`.
pub fn unfollow_user(db: &mut Database, username: &String, session: SessionUser) -> (r: PageOutcome)
    requires
        old(db)@.wf(),
    ensures
        final(db)@.wf(),
        r.session == SessionChange::Keep,
        !(session is LoggedIn) ==> final(db)@ == old(db)@ && r.flash is None && (r.page matches Page::Redirect(
            code,
            loc,
        ) && code == 302 && loc@ == "User not found"@),
        session matches SessionUser::LoggedIn(me) ==> {
            let m = old(db)@;
            &&& !m.name_taken(username@) ==> r.page is NotFound && r.flash is None && final(db)@ == m
            &&& m.name_taken(username@) ==> {
                &&& r.page matches Page::Redirect(code, loc) && code == 302 && loc@ == "/user/"@ + username@
                &&& r.flash matches Some(f) && f@ == "You are no longer following "@ + username@
                &&& final(db)@ == (DbModel {
                    follows: without_edge(m.follows, Followers { who_id: me, whom_id: m.id_of(username@) }),
                    ..m
                })
            }
        },
{
    match session {
        SessionUser::LoggedIn(me) => match get_user_by_name(db, username) {
            Some(target) => {
                unfollow(db, me, target.user_id);
                PageOutcome {
                    page: Page::Redirect(302, joined("/user/", username)),
                    flash: Some(joined("You are no longer following ", username)),
                    session: SessionChange::Keep,
                }
            },
            None => PageOutcome { page: Page::NotFound, flash: None, session: SessionChange::Keep },
        },
        _ => PageOutcome {
            page: Page::Redirect(302, "User not found".to_string()),
            flash: None,
            session: SessionChange::Keep,
        },
    }
}

/// `/add_message`: posts an unflagged message dated now for the logged-in
/// account. An empty text shows the personal timeline again with an error;
/// without a login the answer is 401. An unreadable session or clock, or a
/// refused write, answers 500 and posts nothing.
pub fn add_message(db: &mut Database, session: SessionUser, info: &MessageInfo) -> (r: PageOutcome)
    requires
        old(db)@.wf(),
    ensures
        final(db)@.wf(),
        r.session == SessionChange::Keep,
        session is Anonymous ==> r.page is Unauthorized && final(db)@ == old(db)@,
        session is Unreadable ==> r.page is ServerError && final(db)@ == old(db)@,
        session matches SessionUser::LoggedIn(me) ==> {
            let m = old(db)@;
            &&& info.text@.len() == 0 && m.has_user_id(me) ==> final(db)@ == m && r.flash is None && (
            r.page matches Page::Timeline(t) && t.error@ == "Message cannot be empty!"@ && t.flashes@.len()
                == 0 && t.title@ == "My Timeline"@ && shows_page_listing(
                m,
                t.messages@,
                MessageFilter::TimelineOf(me),
                PAGE_MESSAGES_LIMIT as int,
            ))
            &&& info.text@.len() == 0 && !m.has_user_id(me) ==> final(db)@ == m && (r.page matches Page::Redirect(
                code,
                loc,
            ) && code == 307 && loc@ == "/public"@)
            &&& info.text@.len() > 0 && m.has_user_id(me) && m.messages.len() < i32::MAX ==> (r.page is Redirect
                || r.page is ServerError)
            &&& info.text@.len() > 0 && r.page is ServerError ==> final(db)@ == m && r.flash is None
            &&& info.text@.len() > 0 && r.page is Redirect ==> {
                let posted = final(db)@.messages.last();
                &&& m.has_user_id(me) && m.messages.len() < i32::MAX
                &&& final(db)@ == (DbModel { messages: m.messages.push(posted), ..m })
                &&& posted.message_id == m.messages.len() + 1
                &&& posted.author_id == me
                &&& posted.text == info.text@
                &&& posted.flagged == 0
                &&& r.flash matches Some(f) && f@ == "Your message was recorded"@
                &&& r.page matches Page::Redirect(code, loc) && code == 302 && loc@ == "/"@
            }
            &&& info.text@.len() > 0 && !(m.has_user_id(me) && m.messages.len() < i32::MAX) ==> r.page is ServerError
        },
{
    match session {
        SessionUser::LoggedIn(me) => {
            if info.text.as_str().is_empty() {
                match get_user(db, session) {
                    Some(user) => {
                        let rows = get_timeline(db, user.user_id, PAGE_MESSAGES_LIMIT);
                        let t = listing_page(
                            db,
                            &rows,
                            "timeline",
                            None,
                            Some(user),
                            false,
                            Vec::new(),
                            "My Timeline".to_string(),
                            "Message cannot be empty!",
                        );
                        assert(shows_templates(db@, t.messages@, message_rows(rows@)));
                        PageOutcome { page: Page::Timeline(t), flash: None, session: SessionChange::Keep }
                    },
                    None => PageOutcome {
                        page: Page::Redirect(307, "/public".to_string()),
                        flash: None,
                        session: SessionChange::Keep,
                    },
                }
            } else {
                let now = match now_timestamp() {
                    Some(t) => t,
                    None => {
                        return PageOutcome {
                            page: Page::ServerError(String::new()),
                            flash: None,
                            session: SessionChange::Keep,
                        };
                    },
                };
                match create_msg(db, me, &info.text, now, 0) {
                    Ok(_) => PageOutcome {
                        page: Page::Redirect(302, "/".to_string()),
                        flash: Some("Your message was recorded".to_string()),
                        session: SessionChange::Keep,
                    },
                    Err(_) => PageOutcome {
                        page: Page::ServerError(String::new()),
                        flash: None,
                        session: SessionChange::Keep,
                    },
                }
            }
        },
        SessionUser::Anonymous => PageOutcome {
            page: Page::Unauthorized,
            flash: None,
            session: SessionChange::Keep,
        },
        SessionUser::Unreadable => PageOutcome {
            page: Page::ServerError(String::new()),
            flash: None,
            session: SessionChange::Keep,
        },
    }
}

/// `GET /login`: the login form, or home for an account already logged in.
pub fn login(session: SessionUser, flashes: Vec<String>) -> (r: PageOutcome)
    ensures
        r.session == SessionChange::Keep,
        session is LoggedIn ==> (r.page matches Page::Redirect(code, loc) && code == 307 && loc@ == "/"@)
            && (r.flash matches Some(f) && f@ == "You are already logged in"@),
        session is Anonymous ==> (r.page matches Page::Login(t) && t.user is None && t.error@ == ""@
            && t.username@ == ""@ && t.flashes == flashes) && r.flash is None,
        session is Unreadable ==> (r.page matches Page::ServerError(b) && b@
            == "An error occurred while processing your request."@) && (r.flash matches Some(f) && f@
            == "An error occurred while processing your session."@),
{
    proof {
        reveal_strlit("");
    }
    match session {
        SessionUser::LoggedIn(_) => PageOutcome {
            page: Page::Redirect(307, "/".to_string()),
            flash: Some("You are already logged in".to_string()),
            session: SessionChange::Keep,
        },
        SessionUser::Anonymous => PageOutcome {
            page: Page::Login(
                LoginTemplate { user: None, flashes, error: String::new(), username: String::new() },
            ),
            flash: None,
            session: SessionChange::Keep,
        },
        SessionUser::Unreadable => PageOutcome {
            page: Page::ServerError("An error occurred while processing your request.".to_string()),
            flash: Some("An error occurred while processing your session.".to_string()),
            session: SessionChange::Keep,
        },
    }
}

/// `POST /login`: logs the account in when the password hasher verifies
/// the typed password against the stored hash, otherwise shows the form
/// again with "Invalid username" or "Invalid password" and nothing else.
pub fn post_login(db: &Database, info: &LoginInfo) -> (r: PageOutcome)
    requires
        db@.wf(),
    ensures
        ({
            let m = db@;
            let id = m.id_of(info.username@);
            let failed = !m.name_taken(info.username@) || !bcrypt_verifies(info.password@, m.user(id).pw_hash);
            &&& failed ==> r.session == SessionChange::Keep && r.flash is None && (r.page matches Page::Login(t)
                && t.username@ == info.username@ && t.user is None && t.flashes@.len() == 0)
            &&& !m.name_taken(info.username@) ==> (r.page matches Page::Login(t) && t.error@ == "Invalid username"@)
            &&& m.name_taken(info.username@) && !bcrypt_verifies(info.password@, m.user(id).pw_hash) ==> (
            r.page matches Page::Login(t) && t.error@ == "Invalid password"@)
            &&& !failed ==> r.session == SessionChange::LogIn(id) && (r.page matches Page::Redirect(code, loc)
                && code == 302 && loc@ == "/"@) && (r.flash matches Some(f) && f@ == "You were logged in"@)
        }),
{
    match crate::validation::login(db, &info.username, &info.password) {
        Ok(id) => PageOutcome {
            page: Page::Redirect(302, "/".to_string()),
            flash: Some("You were logged in".to_string()),
            session: SessionChange::LogIn(id),
        },
        Err(e) => PageOutcome {
            page: Page::Login(
                LoginTemplate {
                    user: None,
                    error: e.message(),
                    flashes: Vec::new(),
                    username: info.username.clone(),
                },
            ),
            flash: None,
            session: SessionChange::Keep,
        },
    }
}

/// `GET /register`: the empty registration form.
pub fn register(flashes: Vec<String>) -> (r: RegisterTemplate)
    ensures
        r.user is None,
        r.email@ == ""@ && r.username@ == ""@ && r.password@ == ""@ && r.error@ == ""@,
        r.flashes == flashes,
{
    proof {
        reveal_strlit("");
    }
    RegisterTemplate {
        flashes,
        error: String::new(),
        email: String::new(),
        username: String::new(),
        password: String::new(),
        user: None,
    }
}

/// `POST /register`: registers after the checks of `registration_error`,
/// the two password fields included, storing the password hasher's result,
/// and sends the new account to the login page; a refused form is shown
/// again with the reason. Where the hasher or the store fails the answer is
/// 500.
pub fn post_register(db: &mut Database, info: &RegisterInfo) -> (r: PageOutcome)
    requires
        old(db)@.wf(),
    ensures
        final(db)@.wf(),
        r.session == SessionChange::Keep,
        ({
            let m = old(db)@;
            let e = registration_error(m, info.username@, info.email@, info.password@, Some(info.password2@));
            let added = final(db)@.users.last();
            &&& e is Some ==> final(db)@ == m && r.flash is None && (r.page matches Page::Register(t)
                && t.error@ == register_error_text(e->0) && t.username@ == info.username@ && t.email@
                == info.email@ && t.password@ == info.password@ && t.user is None)
            &&& e is None ==> (r.page is Redirect || r.page is ServerError)
            &&& r.page is ServerError ==> final(db)@ == m && r.flash is None
            &&& e is None && r.page is Redirect ==> {
                &&& final(db)@ == (DbModel { users: m.users.push(added), ..m })
                &&& added.user_id == m.users.len() + 1
                &&& added.username == info.username@
                &&& added.email == info.email@
                &&& bcrypt_verifies(info.password@, added.pw_hash)
                &&& r.page matches Page::Redirect(code, loc) && code == 303 && loc@ == "/login"@
                &&& r.flash matches Some(f) && f@ == "You were successfully registered and can login now"@
            }
        }),
{
    proof {
        assert(opt_chars(Some(&info.password2)) == Some(info.password2@));
    }
    match crate::validation::register_account(db, &info.username, &info.email, &info.password, Some(&info.password2)) {
        Ok(_) => PageOutcome {
            page: Page::Redirect(303, "/login".to_string()),
            flash: Some("You were successfully registered and can login now".to_string()),
            session: SessionChange::Keep,
        },
        Err(crate::validation::RegisterError::Store(_)) => PageOutcome {
            page: Page::ServerError(String::new()),
            flash: None,
            session: SessionChange::Keep,
        },
        Err(crate::validation::RegisterError::HashFailed) => PageOutcome {
            page: Page::ServerError(String::new()),
            flash: None,
            session: SessionChange::Keep,
        },
        Err(e) => PageOutcome {
            page: Page::Register(
                RegisterTemplate {
                    user: None,
                    email: info.email.clone(),
                    username: info.username.clone(),
                    password: info.password.clone(),
                    flashes: Vec::new(),
                    error: e.message(),
                },
            ),
            flash: None,
            session: SessionChange::Keep,
        },
    }
}

/// `/logout`: forgets the logged-in account and goes to the public timeline.
pub fn logout() -> (r: PageOutcome)
    ensures
        r.session == SessionChange::LogOut,
        r.page matches Page::Redirect(code, loc) && code == 303 && loc@ == "/public"@,
        r.flash matches Some(f) && f@ == "You were logged out."@,
{
    PageOutcome {
        page: Page::Redirect(303, "/public".to_string()),
        flash: Some("You were logged out.".to_string()),
        session: SessionChange::LogOut,
    }
}

} // verus!
