use vstd::prelude::*;
use crate::datetime::now_timestamp;
use crate::models::{MessageRow, Messages, Users};
use crate::models::Followers;
use crate::repository::{
    create_msg, follow, followed_ids, get_followers, get_latest, get_public_messages, get_timeline,
    get_user_by_name, limit_of, message_rows, set_latest, unfollow, without_edge, Database, DbModel,
    MessageFilter,
};
use crate::password::bcrypt_verifies;
use crate::validation::{register_account, register_error_text, registration_error, RegisterError};

verus! {

/// The body of `POST /register`.
pub struct RegisterInfo {
    pub username: String,
    pub email: String,
    pub pwd: String,
}

/// The body of `POST /msgs/{username}`.
pub struct MessageContent {
    pub content: String,
}

/// The body of `POST /fllws/{username}`: whom to follow or to unfollow.
pub struct FollowParam {
    pub follow: Option<String>,
    pub unfollow: Option<String>,
}

/// One message as the API shows it; `pub_date` counts seconds since
/// 1970-01-01 00:00 UTC.
pub struct Message {
    pub content: String,
    pub user: String,
    pub pub_date: i64,
}

/// The usernames an account follows.
pub struct Follows {
    pub follows: Vec<String>,
}

/// The error body of a refused registration.
pub struct RegisterErrorBody {
    pub status: u16,
    pub error_msg: String,
}

/// What an API call answers.
pub enum ApiResponse {
    /// 204, empty body.
    NoContent,
    /// 400, empty body.
    BadRequest,
    /// 404, empty body.
    NotFound,
    /// 500, empty body.
    InternalError,
    /// 400 with the reason a registration was refused.
    RegisterRejected(RegisterErrorBody),
    /// 200 with `{"latest": n}`.
    LatestValue(i32),
    /// 200 with a list of messages.
    MessageList(Vec<Message>),
    /// 200 with `{"follows": [...]}`.
    FollowList(Follows),
}

/// The store after the optional `latest` parameter has been applied.
pub open spec fn with_latest(m: DbModel, latest: Option<i32>) -> DbModel {
    match latest {
        Some(v) => DbModel { latest: v, ..m },
        None => m,
    }
}

/// `v` shows, in order, the messages of `sel` with their authors' names.
pub open spec fn shows_rows(m: DbModel, v: Seq<Message>, sel: Seq<MessageRow>) -> bool {
    &&& v.len() == sel.len()
    &&& forall|i: int|
        0 <= i < v.len() ==> (#[trigger] v[i]).content@ == sel[i].text && v[i].user@ == m.user(
            sel[i].author_id,
        ).username && v[i].pub_date == sel[i].pub_date
}

/// `v` is the API form of the listing of what `f` admits, cut at `limit`.
pub open spec fn shows_listing(m: DbModel, v: Seq<Message>, f: MessageFilter, limit: int) -> bool {
    exists|sel: Seq<MessageRow>| m.is_listing(sel, f, limit) && shows_rows(m, v, sel)
}

fn update_latest(db: &mut Database, latest: Option<i32>)
    requires
        old(db)@.wf(),
    ensures
        final(db)@.wf(),
        final(db)@ == with_latest(old(db)@, latest),
{
    match latest {
        Some(v) => set_latest(db, &v),
        None => {},
    }
}

fn to_api_messages(db: &Database, rows: &Vec<(Messages, Users)>) -> (r: Vec<Message>)
    requires
        db@.with_authors(rows@),
    ensures
        shows_rows(db@, r@, message_rows(rows@)),
{
    let mut r: Vec<Message> = Vec::new();
    let mut i: usize = 0;
    while i < rows.len()
        invariant
            i <= rows.len(),
            db@.with_authors(rows@),
            r@.len() == i,
            forall|k: int|
                0 <= k < i ==> (#[trigger] r@[k]).content@ == message_rows(rows@)[k].text && r@[k].user@
                    == db@.user(message_rows(rows@)[k].author_id).username && r@[k].pub_date
                    == message_rows(rows@)[k].pub_date,
        decreases rows.len() - i,
    {
        let m = Message {
            content: rows[i].0.text.clone(),
            user: rows[i].1.username.clone(),
            pub_date: rows[i].0.pub_date,
        };
        assert(rows@[i as int].1@ == db@.user(rows@[i as int].0.author_id));
        r.push(m);
        i = i + 1;
    }
    r
}

/// `GET /latest`: the current value of the counter.
pub fn retrieve_latest(db: &Database) -> (r: ApiResponse)
    ensures
        r matches ApiResponse::LatestValue(v) && v == db@.latest,
{
    ApiResponse::LatestValue(get_latest(db))
}

/// `POST /register`: applies `latest`, then registers after the checks of
/// `registration_error` (no confirmation field here), storing the password
/// hasher's result. Where the hasher or the store fails the answer is 500.
pub fn register_new_user(db: &mut Database, info: &RegisterInfo, latest: Option<i32>) -> (r: ApiResponse)
    requires
        old(db)@.wf(),
    ensures
        final(db)@.wf(),
        ({
            let m = with_latest(old(db)@, latest);
            let e = registration_error(m, info.username@, info.email@, info.pwd@, None);
            let added = final(db)@.users.last();
            &&& e is Some ==> final(db)@ == m && (r matches ApiResponse::RegisterRejected(b)
                && b.status == 400 && b.error_msg@ == register_error_text(e->0))
            &&& e is None ==> (r is NoContent || r is InternalError)
            &&& r is InternalError ==> final(db)@ == m
            &&& e is None && r is NoContent ==> {
                &&& final(db)@ == (DbModel { users: m.users.push(added), ..m })
                &&& added.user_id == m.users.len() + 1
                &&& added.username == info.username@
                &&& added.email == info.email@
                &&& bcrypt_verifies(info.pwd@, added.pw_hash)
            }
        }),
{
    update_latest(db, latest);
    match register_account(db, &info.username, &info.email, &info.pwd, None) {
        Ok(_) => ApiResponse::NoContent,
        Err(RegisterError::Store(_)) => ApiResponse::InternalError,
        Err(RegisterError::HashFailed) => ApiResponse::InternalError,
        Err(e) => ApiResponse::RegisterRejected(RegisterErrorBody { status: 400, error_msg: e.message() }),
    }
}

/// `GET /msgs`: applies `latest`, then lists the newest `no` unflagged
/// messages of all accounts.
pub fn list_feed_messages(db: &mut Database, no: i32, latest: Option<i32>) -> (r: ApiResponse)
    requires
        old(db)@.wf(),
    ensures
        final(db)@.wf(),
        final(db)@ == with_latest(old(db)@, latest),
        r matches ApiResponse::MessageList(v) && shows_listing(final(db)@, v@, MessageFilter::Public, limit_of(no)),
{
    update_latest(db, latest);
    let rows = get_public_messages(db, no);
    let v = to_api_messages(db, &rows);
    assert(shows_rows(db@, v@, message_rows(rows@)));
    ApiResponse::MessageList(v)
}

/// `GET /msgs/{username}`: applies `latest`, then lists the newest `no`
/// messages of the account's personal timeline (its own messages and those
/// of the accounts it follows), or answers 404 for an unknown name.
pub fn list_user_messages(db: &mut Database, username: &String, no: i32, latest: Option<i32>) -> (r:
    ApiResponse)
    requires
        old(db)@.wf(),
    ensures
        final(db)@.wf(),
        final(db)@ == with_latest(old(db)@, latest),
        !final(db)@.name_taken(username@) ==> r is NotFound,
        final(db)@.name_taken(username@) ==> (r matches ApiResponse::MessageList(v) && shows_listing(
            final(db)@,
            v@,
            MessageFilter::TimelineOf(final(db)@.id_of(username@)),
            limit_of(no),
        )),
{
    update_latest(db, latest);
    match get_user_by_name(db, username) {
        Some(user) => {
            let rows = get_timeline(db, user.user_id, no);
            let v = to_api_messages(db, &rows);
            assert(shows_rows(db@, v@, message_rows(rows@)));
            ApiResponse::MessageList(v)
        },
        None => ApiResponse::NotFound,
    }
}

/// `POST /msgs/{username}`: applies `latest`, then posts an unflagged
/// message dated now for the account, or answers 404 for an unknown name.
/// Where the clock cannot be read, or the store refuses, the answer is 500
/// and nothing is posted.
pub fn create_user_message(db: &mut Database, username: &String, msg: &MessageContent, latest: Option<i32>)
    -> (r: ApiResponse)
    requires
        old(db)@.wf(),
    ensures
        final(db)@.wf(),
        ({
            let m = with_latest(old(db)@, latest);
            &&& !m.name_taken(username@) ==> r is NotFound && final(db)@ == m
            &&& m.name_taken(username@) ==> (r is NoContent || r is InternalError)
            &&& r is InternalError ==> final(db)@ == m
            &&& m.name_taken(username@) && r is NoContent ==> {
                let posted = final(db)@.messages.last();
                &&& m.messages.len() < i32::MAX
                &&& final(db)@ == (DbModel { messages: m.messages.push(posted), ..m })
                &&& posted.message_id == m.messages.len() + 1
                &&& posted.author_id == m.id_of(username@)
                &&& posted.text == msg.content@
                &&& posted.flagged == 0
            }
            &&& m.name_taken(username@) && m.messages.len() >= i32::MAX ==> r is InternalError
        }),
{
    update_latest(db, latest);
    match get_user_by_name(db, username) {
        Some(user) => {
            match now_timestamp() {
                Some(now) => match create_msg(db, user.user_id, &msg.content, now, 0) {
                    Ok(_) => ApiResponse::NoContent,
                    Err(_) => ApiResponse::InternalError,
                },
                None => ApiResponse::InternalError,
            }
        },
        None => ApiResponse::NotFound,
    }
}

/// `GET /fllws/{username}`: applies `latest`, then lists the names of at
/// most `no` accounts that the account follows, or answers 404.
pub fn list_user_followers(db: &mut Database, username: &String, no: i32, latest: Option<i32>) -> (r:
    ApiResponse)
    requires
        old(db)@.wf(),
    ensures
        final(db)@.wf(),
        final(db)@ == with_latest(old(db)@, latest),
        !final(db)@.name_taken(username@) ==> r is NotFound,
        final(db)@.name_taken(username@) ==> (r matches ApiResponse::FollowList(f) && ({
            let ids = followed_ids(final(db)@.follows, final(db)@.id_of(username@));
            &&& f.follows@.len() == vstd::math::min(limit_of(no), ids.len() as int)
            &&& forall|k: int|
                0 <= k < f.follows@.len() ==> (#[trigger] f.follows@[k])@ == final(db)@.user(ids[k]).username
        })),
{
    update_latest(db, latest);
    match get_user_by_name(db, username) {
        Some(user) => {
            let users = get_followers(db, user.user_id, no);
            let mut names: Vec<String> = Vec::new();
            let mut i: usize = 0;
            let ghost ids = followed_ids(db@.follows, user.user_id);
            while i < users.len()
                invariant
                    i <= users@.len(),
                    names@.len() == i,
                    forall|k: int| 0 <= k < users@.len() ==> #[trigger] users@[k]@ == db@.user(ids[k]),
                    forall|k: int| 0 <= k < i ==> (#[trigger] names@[k])@ == db@.user(ids[k]).username,
                decreases users@.len() - i,
            {
                assert(users@[i as int]@ == db@.user(ids[i as int]));
                names.push(users[i].username.clone());
                i = i + 1;
            }
            ApiResponse::FollowList(Follows { follows: names })
        },
        None => ApiResponse::NotFound,
    }
}

/// `POST /fllws/{username}`: applies `latest`; then, for a known account,
/// follows the account named in `follow` where that field is given, and
/// otherwise unfollows the one named in `unfollow`. A named account that
/// does not exist, or neither field given, answers 400; an unknown
/// `username` answers 404.
pub fn update_user_followers(db: &mut Database, username: &String, param: &FollowParam, latest: Option<i32>)
    -> (r: ApiResponse)
    requires
        old(db)@.wf(),
    ensures
        final(db)@.wf(),
        ({
            let m = with_latest(old(db)@, latest);
            let me = m.id_of(username@);
            &&& !m.name_taken(username@) ==> r is NotFound && final(db)@ == m
            &&& m.name_taken(username@) && param.follow is Some ==> {
                let name = param.follow->0@;
                &&& m.name_taken(name) ==> r is NoContent && (if m.follows_edge(me, m.id_of(name)) {
                    final(db)@ == m
                } else {
                    final(db)@ == (DbModel {
                        follows: m.follows.push(Followers { who_id: me, whom_id: m.id_of(name) }),
                        ..m
                    })
                })
                &&& !m.name_taken(name) ==> r is BadRequest && final(db)@ == m
            }
            &&& m.name_taken(username@) && param.follow is None && param.unfollow is Some ==> {
                let name = param.unfollow->0@;
                &&& m.name_taken(name) ==> r is NoContent && final(db)@ == (DbModel {
                    follows: without_edge(m.follows, Followers { who_id: me, whom_id: m.id_of(name) }),
                    ..m
                })
                &&& !m.name_taken(name) ==> r is BadRequest && final(db)@ == m
            }
            &&& m.name_taken(username@) && param.follow is None && param.unfollow is None ==> r is BadRequest
                && final(db)@ == m
        }),
{
    update_latest(db, latest);
    let me = match get_user_by_name(db, username) {
        Some(user) => user.user_id,
        None => {
            return ApiResponse::NotFound;
        },
    };
    match &param.follow {
        Some(name) => {
            match get_user_by_name(db, name) {
                Some(target) => {
                    let _ = follow(db, me, target.user_id);
                    ApiResponse::NoContent
                },
                None => ApiResponse::BadRequest,
            }
        },
        None => match &param.unfollow {
            Some(name) => {
                match get_user_by_name(db, name) {
                    Some(target) => {
                        unfollow(db, me, target.user_id);
                        ApiResponse::NoContent
                    },
                    None => ApiResponse::BadRequest,
                }
            },
            None => ApiResponse::BadRequest,
        },
    }
}

} // verus!
