use vstd::prelude::*;
use crate::models::{is_newer, newer, Followers, Latest, MessageRow, Messages, UserRow, Users};

verus! {

/// Why the data store refused a write.
#[derive(Clone, Copy, PartialEq, Eq, Structural, Debug)]
pub enum StoreError {
    /// The username is already held by another account.
    UniqueViolation,
    /// A referenced account does not exist.
    ForeignKeyViolation,
    /// No identifier is left for a new row.
    IdsExhausted,
}

/// The whole content of the data store, as mathematical values.
pub struct DbModel {
    pub users: Seq<UserRow>,
    pub messages: Seq<MessageRow>,
    pub follows: Seq<Followers>,
    pub latest: i32,
}

/// The relational data store: accounts, messages, follow edges and the
/// synchronisation counter. Row `i` of `users` has id `i + 1`, and likewise
/// for `messages`; rows are never deleted, so ids are never reused.
pub struct Database {
    users: Vec<Users>,
    messages: Vec<Messages>,
    followers: Vec<Followers>,
    latest: Latest,
}

pub open spec fn users_view(v: Seq<Users>) -> Seq<UserRow> {
    v.map_values(|u: Users| u@)
}

pub open spec fn messages_view(v: Seq<Messages>) -> Seq<MessageRow> {
    v.map_values(|m: Messages| m@)
}

impl View for Database {
    type V = DbModel;

    closed spec fn view(&self) -> DbModel {
        DbModel {
            users: users_view(self.users@),
            messages: messages_view(self.messages@),
            follows: self.followers@,
            latest: self.latest.value,
        }
    }
}

impl DbModel {
    /// `id` names a stored account.
    pub open spec fn has_user_id(self, id: i32) -> bool {
        1 <= id <= self.users.len()
    }

    /// The account with id `id`.
    pub open spec fn user(self, id: i32) -> UserRow
        recommends
            self.has_user_id(id),
    {
        self.users[id - 1]
    }

    /// Some account is called `name`.
    pub open spec fn name_taken(self, name: Seq<char>) -> bool {
        exists|i: int| 0 <= i < self.users.len() && self.users[i].username == name
    }

    /// The id of the account called `name`, where there is one.
    pub open spec fn id_of(self, name: Seq<char>) -> i32 {
        choose|id: i32| self.has_user_id(id) && self.user(id).username == name
    }

    /// `who` follows `whom`.
    pub open spec fn follows_edge(self, who: i32, whom: i32) -> bool {
        self.follows.contains(Followers { who_id: who, whom_id: whom })
    }

    /// Ids follow row positions, usernames are unique, every reference names a
    /// stored account, and no follow edge is stored twice.
    pub open spec fn wf(self) -> bool {
        &&& forall|i: int| 0 <= i < self.users.len() ==> #[trigger] self.users[i].user_id == i + 1
        &&& forall|i: int, j: int|
            0 <= i < j < self.users.len() ==> #[trigger] self.users[i].username
                != #[trigger] self.users[j].username
        &&& forall|i: int| 0 <= i < self.messages.len() ==> #[trigger] self.messages[i].message_id == i + 1
        &&& forall|i: int| 0 <= i < self.messages.len() ==> self.has_user_id(#[trigger] self.messages[i].author_id)
        &&& forall|i: int| 0 <= i < self.follows.len() ==> self.has_user_id(#[trigger] self.follows[i].who_id)
        &&& forall|i: int| 0 <= i < self.follows.len() ==> self.has_user_id(#[trigger] self.follows[i].whom_id)
        &&& self.follows.no_duplicates()
    }
}

/// In a well-formed store a username names at most one account.
pub proof fn lemma_name_names_one(m: DbModel, a: i32, b: i32)
    requires
        m.wf(),
        m.has_user_id(a),
        m.has_user_id(b),
        m.user(a).username == m.user(b).username,
    ensures
        a == b,
{
    if a < b {
        assert(m.users[a - 1].username != m.users[b - 1].username);
    } else if b < a {
        assert(m.users[b - 1].username != m.users[a - 1].username);
    }
}

/// The id of a taken name is the one account that holds it.
pub proof fn lemma_id_of(m: DbModel, name: Seq<char>, id: i32)
    requires
        m.wf(),
        m.has_user_id(id),
        m.user(id).username == name,
    ensures
        m.name_taken(name),
        m.id_of(name) == id,
{
    assert(m.users[id - 1].username == name);
    let c = m.id_of(name);
    lemma_name_names_one(m, c, id);
}

/// A write to the store, as `create_user`, `create_msg`, `follow` and
/// `unfollow` perform it.
pub enum StoreWrite {
    NewUser(UserRow),
    NewMessage(MessageRow),
    Follow(Followers),
    Unfollow(Followers),
}

/// The store after one write.
pub open spec fn apply_write(m: DbModel, w: StoreWrite) -> DbModel {
    match w {
        StoreWrite::NewUser(u) => DbModel { users: m.users.push(u), ..m },
        StoreWrite::NewMessage(x) => DbModel { messages: m.messages.push(x), ..m },
        StoreWrite::Follow(e) => if m.follows.contains(e) {
            m
        } else {
            DbModel { follows: m.follows.push(e), ..m }
        },
        StoreWrite::Unfollow(e) => DbModel { follows: without_edge(m.follows, e), ..m },
    }
}

/// The store after the writes of `ws`, in order.
pub open spec fn apply_writes(m: DbModel, ws: Seq<StoreWrite>) -> DbModel
    decreases ws.len(),
{
    if ws.len() == 0 {
        m
    } else {
        apply_write(apply_writes(m, ws.drop_last()), ws.last())
    }
}

impl Database {
    /// An empty store whose counter reads 0.
    pub fn new() -> (r: Database)
        ensures
            r@.wf(),
            r@.users.len() == 0,
            r@.messages.len() == 0,
            r@.follows.len() == 0,
            r@.latest == 0,
    {
        let r = Database { users: Vec::new(), messages: Vec::new(), followers: Vec::new(), latest: Latest { id: 1, value: 0 } };
        proof {
            assert(r@.users =~= Seq::<UserRow>::empty());
            assert(r@.messages =~= Seq::<MessageRow>::empty());
        }
        r
    }
}

/// Looks up an account by its exact (case-sensitive) username.
pub fn get_user_by_name(db: &Database, username: &String) -> (r: Option<Users>)
    requires
        db@.wf(),
    ensures
        r is Some <==> db@.name_taken(username@),
        r is Some ==> db@.has_user_id(r->0.user_id) && r->0@ == db@.user(r->0.user_id)
            && r->0@.username == username@ && r->0.user_id == db@.id_of(username@),
{
    let mut i: usize = 0;
    while i < db.users.len()
        invariant
            db@.wf(),
            i <= db.users.len(),
            forall|k: int| 0 <= k < i ==> db@.users[k].username != username@,
        decreases db.users.len() - i,
    {
        if db.users[i].username == *username {
            let u = db.users[i].clone();
            assert(db@.users[i as int] == db.users@[i as int]@);
            assert(db@.users[i as int].user_id == i + 1);
            proof {
                lemma_id_of(db@, username@, u.user_id);
            }
            return Some(u);
        }
        i = i + 1;
    }
    None
}

/// The id of the account called `name`, or -1 where there is none.
pub fn get_user_id(db: &Database, name: &String) -> (r: i32)
    requires
        db@.wf(),
    ensures
        db@.name_taken(name@) ==> db@.has_user_id(r) && db@.user(r).username == name@ && r == db@.id_of(
            name@,
        ),
        !db@.name_taken(name@) ==> r == -1,
{
    match get_user_by_name(db, name) {
        Some(u) => u.user_id,
        None => -1,
    }
}

/// Looks up an account by id.
pub fn get_user_by_id(db: &Database, user_id: i32) -> (r: Option<Users>)
    requires
        db@.wf(),
    ensures
        r is Some <==> db@.has_user_id(user_id),
        r is Some ==> r->0@ == db@.user(user_id) && r->0.user_id == user_id,
{
    if user_id >= 1 && (user_id as usize) <= db.users.len() {
        let u = db.users[(user_id - 1) as usize].clone();
        assert(db@.users[user_id - 1].user_id == user_id);
        Some(u)
    } else {
        None
    }
}

/// Inserts an account with the next free id. The store is the final
/// authority on username uniqueness.
pub fn create_user(db: &mut Database, username: &String, email: &String, pw_hash: &String) -> (r:
    Result<Users, StoreError>)
    requires
        old(db)@.wf(),
    ensures
        final(db)@.wf(),
        old(db)@.name_taken(username@) ==> r == Err::<Users, StoreError>(StoreError::UniqueViolation),
        !old(db)@.name_taken(username@) && old(db)@.users.len() >= i32::MAX ==> r == Err::<
            Users,
            StoreError,
        >(StoreError::IdsExhausted),
        !old(db)@.name_taken(username@) && old(db)@.users.len() < i32::MAX ==> r is Ok,
        r is Err ==> final(db)@ == old(db)@,
        r is Ok ==> r->Ok_0@ == (UserRow {
            user_id: (old(db)@.users.len() + 1) as i32,
            username: username@,
            email: email@,
            pw_hash: pw_hash@,
        }) && final(db)@ == (DbModel { users: old(db)@.users.push(r->Ok_0@), ..old(db)@ }),
        r is Ok ==> final(db)@ == apply_write(old(db)@, StoreWrite::NewUser(r->Ok_0@)),
{
    if get_user_by_name(db, username).is_some() {
        return Err(StoreError::UniqueViolation);
    }
    if db.users.len() >= i32::MAX as usize {
        return Err(StoreError::IdsExhausted);
    }
    let user = Users {
        user_id: (db.users.len() + 1) as i32,
        username: username.clone(),
        email: email.clone(),
        pw_hash: pw_hash.clone(),
    };
    let stored = user.clone();
    let ghost before = db@;
    db.users.push(stored);
    proof {
        assert(db@.users =~= before.users.push(user@));
        assert forall|i: int, j: int| 0 <= i < j < db@.users.len() implies
            #[trigger] db@.users[i].username != #[trigger] db@.users[j].username by {
            if j == before.users.len() {
                assert(before.users[i].username == db@.users[i].username);
            }
        }
    }
    Ok(user)
}

/// Inserts a message with the next free id.
pub fn create_msg(db: &mut Database, author_id: i32, text: &String, pub_date: i64, flagged: i32)
    -> (r: Result<Messages, StoreError>)
    requires
        old(db)@.wf(),
    ensures
        final(db)@.wf(),
        !old(db)@.has_user_id(author_id) ==> r == Err::<Messages, StoreError>(
            StoreError::ForeignKeyViolation,
        ),
        old(db)@.has_user_id(author_id) && old(db)@.messages.len() >= i32::MAX ==> r == Err::<
            Messages,
            StoreError,
        >(StoreError::IdsExhausted),
        old(db)@.has_user_id(author_id) && old(db)@.messages.len() < i32::MAX ==> r is Ok,
        r is Err ==> final(db)@ == old(db)@,
        r is Ok ==> r->Ok_0@ == (MessageRow {
            message_id: (old(db)@.messages.len() + 1) as i32,
            author_id,
            text: text@,
            pub_date,
            flagged,
        }) && final(db)@ == (DbModel { messages: old(db)@.messages.push(r->Ok_0@), ..old(db)@ }),
        r is Ok ==> final(db)@ == apply_write(old(db)@, StoreWrite::NewMessage(r->Ok_0@)),
{
    if author_id < 1 || author_id as usize > db.users.len() {
        return Err(StoreError::ForeignKeyViolation);
    }
    if db.messages.len() >= i32::MAX as usize {
        return Err(StoreError::IdsExhausted);
    }
    let msg = Messages {
        message_id: (db.messages.len() + 1) as i32,
        author_id,
        text: text.clone(),
        pub_date,
        flagged,
    };
    let stored = msg.clone();
    let ghost before = db@;
    db.messages.push(stored);
    proof {
        assert(db@.messages =~= before.messages.push(msg@));
    }
    Ok(msg)
}

/// Tells whether `follower_id` follows `followed_id` (note the order of the
/// parameters: the followed account comes first).
pub fn is_following(db: &Database, followed_id: i32, follower_id: i32) -> (r: bool)
    requires
        db@.wf(),
    ensures
        r == db@.follows_edge(follower_id, followed_id),
{
    let edge = Followers { who_id: follower_id, whom_id: followed_id };
    let mut i: usize = 0;
    while i < db.followers.len()
        invariant
            i <= db.followers.len(),
            edge == (Followers { who_id: follower_id, whom_id: followed_id }),
            forall|k: int| 0 <= k < i ==> db@.follows[k] != edge,
        decreases db.followers.len() - i,
    {
        if db.followers[i] == edge {
            assert(db@.follows[i as int] == edge);
            assert(db@.follows.contains(edge));
            return true;
        }
        i = i + 1;
    }
    false
}

/// Adds the edge "`follower_id` follows `followed_id`". Following twice
/// leaves the single edge in place.
pub fn follow(db: &mut Database, follower_id: i32, followed_id: i32) -> (r: Result<(), StoreError>)
    requires
        old(db)@.wf(),
    ensures
        final(db)@.wf(),
        r is Ok <==> old(db)@.has_user_id(follower_id) && old(db)@.has_user_id(followed_id),
        r is Err ==> r == Err::<(), StoreError>(StoreError::ForeignKeyViolation),
        r is Err || old(db)@.follows_edge(follower_id, followed_id) ==> final(db)@ == old(db)@,
        r is Ok && !old(db)@.follows_edge(follower_id, followed_id) ==> final(db)@ == (DbModel {
            follows: old(db)@.follows.push(Followers { who_id: follower_id, whom_id: followed_id }),
            ..old(db)@
        }),
        r is Ok ==> final(db)@ == apply_write(
            old(db)@,
            StoreWrite::Follow(Followers { who_id: follower_id, whom_id: followed_id }),
        ),
{
    if follower_id < 1 || follower_id as usize > db.users.len() || followed_id < 1
        || followed_id as usize > db.users.len() {
        return Err(StoreError::ForeignKeyViolation);
    }
    if is_following(db, followed_id, follower_id) {
        return Ok(());
    }
    let edge = Followers { who_id: follower_id, whom_id: followed_id };
    let ghost before = db@;
    db.followers.push(edge);
    proof {
        assert(db@.follows =~= before.follows.push(edge));
        assert forall|i: int, j: int| 0 <= i < j < db@.follows.len() implies
            db@.follows[i] != db@.follows[j] by {
            if j == before.follows.len() {
                assert(before.follows[i] == db@.follows[i]);
            }
        }
    }
    Ok(())
}

/// The edges of `s` other than `e`, in their order.
pub open spec fn without_edge(s: Seq<Followers>, e: Followers) -> Seq<Followers> {
    s.filter(other_than(e))
}

/// Holds of every edge but `e`.
pub open spec fn other_than(e: Followers) -> spec_fn(Followers) -> bool {
    |x: Followers| x != e
}

/// Removes the edge "`follower_id` follows `followed_id`"; where there is no
/// such edge nothing changes.
pub fn unfollow(db: &mut Database, follower_id: i32, followed_id: i32)
    requires
        old(db)@.wf(),
    ensures
        final(db)@.wf(),
        final(db)@ == (DbModel {
            follows: without_edge(old(db)@.follows, Followers { who_id: follower_id, whom_id: followed_id }),
            ..old(db)@
        }),
        final(db)@ == apply_write(
            old(db)@,
            StoreWrite::Unfollow(Followers { who_id: follower_id, whom_id: followed_id }),
        ),
{
    let edge = Followers { who_id: follower_id, whom_id: followed_id };
    let ghost old_edges = db.followers@;
    let ghost pred = other_than(edge);
    let mut kept: Vec<Followers> = Vec::new();
    let mut i: usize = 0;
    while i < db.followers.len()
        invariant
            i <= db.followers.len(),
            db.followers@ == old_edges,
            pred == other_than(edge),
            old_edges.no_duplicates(),
            kept@ == old_edges.subrange(0, i as int).filter(pred),
            kept@.no_duplicates(),
            forall|a: int|
                0 <= a < kept@.len() ==> exists|b: int| 0 <= b < i && #[trigger] kept@[a] == old_edges[b],
        decreases db.followers.len() - i,
    {
        let e = db.followers[i];
        proof {
            assert(old_edges.subrange(0, i + 1) =~= old_edges.subrange(0, i as int).push(e));
            old_edges.subrange(0, i as int).lemma_filter_push(e, pred);
        }
        if e != edge {
            proof {
                assert forall|a: int| 0 <= a < kept@.len() implies kept@[a] != e by {
                    let b = choose|b: int| 0 <= b < i && kept@[a] == old_edges[b];
                    assert(old_edges[b] != old_edges[i as int]);
                }
            }
            let ghost prev = kept@;
            kept.push(e);
            assert(kept@ == prev.push(e));
            proof {
                assert forall|a: int| 0 <= a < kept@.len() implies exists|b: int|
                    0 <= b < i + 1 && #[trigger] kept@[a] == old_edges[b] by {
                    if a < prev.len() {
                        let b = choose|b: int| 0 <= b < i && prev[a] == old_edges[b];
                        assert(kept@[a] == old_edges[b]);
                    } else {
                        assert(kept@[a] == old_edges[i as int]);
                    }
                }
            }
        }
        i = i + 1;
    }
    proof {
        assert(old_edges.subrange(0, old_edges.len() as int) =~= old_edges);
    }
    let ghost before = db@;
    let ghost new_edges = kept@;
    db.followers = kept;
    proof {
        assert forall|a: int| 0 <= a < db@.follows.len() implies before.has_user_id(
            #[trigger] db@.follows[a].who_id,
        ) && before.has_user_id(db@.follows[a].whom_id) by {
            assert(db@.follows[a] == new_edges[a]);
            let b = choose|b: int| 0 <= b < old_edges.len() && new_edges[a] == old_edges[b];
            assert(before.follows[b] == old_edges[b]);
        }
        assert(db@.users == before.users);
        assert(db@.messages == before.messages);
    }
}

/// The current value of the synchronisation counter.
pub fn get_latest(db: &Database) -> (r: i32)
    ensures
        r == db@.latest,
{
    db.latest.value
}

/// Overwrites the synchronisation counter, whatever it held before.
pub fn set_latest(db: &mut Database, latest: &i32)
    requires
        old(db)@.wf(),
    ensures
        final(db)@.wf(),
        final(db)@ == (DbModel { latest: *latest, ..old(db)@ }),
{
    db.latest.value = *latest;
}

/// Which stored messages a listing draws from. Flagged messages are never
/// listed.
#[derive(Clone, Copy, PartialEq, Eq, Structural, Debug)]
pub enum MessageFilter {
    /// Every account's messages.
    Public,
    /// The messages of one author.
    ByAuthor(i32),
    /// The messages of an account and of the accounts it follows.
    TimelineOf(i32),
}

/// A negative limit lists nothing.
pub open spec fn limit_of(limit: i32) -> int {
    if limit < 0 {
        0
    } else {
        limit as int
    }
}

/// The message halves of a listing.
pub open spec fn message_rows(r: Seq<(Messages, Users)>) -> Seq<MessageRow> {
    r.map_values(|p: (Messages, Users)| p.0@)
}

impl DbModel {
    /// `m` is unflagged and belongs to what `f` selects.
    pub open spec fn admits(self, f: MessageFilter, m: MessageRow) -> bool {
        &&& m.flagged == 0
        &&& match f {
            MessageFilter::Public => true,
            MessageFilter::ByAuthor(a) => m.author_id == a,
            MessageFilter::TimelineOf(u) => m.author_id == u || self.follows_edge(u, m.author_id),
        }
    }

    /// `sel` lists, newest first and without repetition, the stored messages
    /// that `f` admits, cut off after `limit` of them.
    pub open spec fn is_listing(self, sel: Seq<MessageRow>, f: MessageFilter, limit: int) -> bool {
        &&& sel.len() <= limit
        &&& forall|i: int, j: int| 0 <= i < j < sel.len() ==> newer(#[trigger] sel[i], #[trigger] sel[j])
        &&& forall|i: int| 0 <= i < sel.len() ==> self.messages.contains(#[trigger] sel[i]) && self.admits(f, sel[i])
        &&& forall|k: int|
            0 <= k < self.messages.len() && self.admits(f, #[trigger] self.messages[k]) && !sel.contains(
                self.messages[k],
            ) ==> sel.len() == limit && forall|i: int| 0 <= i < sel.len() ==> newer(#[trigger] sel[i], self.messages[k])
    }

    /// Each listed message is paired with its author's account.
    pub open spec fn with_authors(self, r: Seq<(Messages, Users)>) -> bool {
        forall|i: int|
            0 <= i < r.len() ==> self.has_user_id(#[trigger] r[i].0.author_id) && r[i].1@ == self.user(r[i].0.author_id)
    }
}

fn admits(db: &Database, f: MessageFilter, m: &Messages) -> (r: bool)
    requires
        db@.wf(),
    ensures
        r == db@.admits(f, m@),
{
    if m.flagged != 0 {
        return false;
    }
    match f {
        MessageFilter::Public => true,
        MessageFilter::ByAuthor(a) => m.author_id == a,
        MessageFilter::TimelineOf(u) => m.author_id == u || is_following(db, m.author_id, u),
    }
}

/// The newest-first listing of what `f` admits, each message with its author.
fn select_newest(db: &Database, f: MessageFilter, limit: i32) -> (r: Vec<(Messages, Users)>)
    requires
        db@.wf(),
    ensures
        db@.is_listing(message_rows(r@), f, limit_of(limit)),
        db@.with_authors(r@),
{
    let cap: usize = if limit < 0 {
        0
    } else {
        limit as usize
    };
    let ghost msgs = db@.messages;
    let mut r: Vec<(Messages, Users)> = Vec::new();
    let mut last: usize = 0;
    proof {
        assert(message_rows(r@) =~= Seq::<MessageRow>::empty());
    }
    while r.len() < cap
        invariant
            db@.wf(),
            msgs == db@.messages,
            cap == limit_of(limit),
            r.len() <= cap,
            forall|i: int, j: int|
                0 <= i < j < r.len() ==> newer(#[trigger] message_rows(r@)[i], #[trigger] message_rows(r@)[j]),
            forall|i: int|
                0 <= i < r.len() ==> msgs.contains(#[trigger] message_rows(r@)[i]) && db@.admits(f, message_rows(r@)[i]),
            forall|k: int|
                0 <= k < msgs.len() && db@.admits(f, #[trigger] msgs[k]) && !message_rows(r@).contains(msgs[k])
                    && r.len() > 0 ==> newer(message_rows(r@)[r.len() - 1], msgs[k]),
            r.len() > 0 ==> last < msgs.len() && message_rows(r@)[r.len() - 1] == msgs[last as int],
            db@.with_authors(r@),
        ensures
            db@.is_listing(message_rows(r@), f, cap as int),
            db@.with_authors(r@),
        decreases cap - r.len(),
    {
        let ghost sel = message_rows(r@);
        let mut found = false;
        let mut best: usize = 0;
        let mut j: usize = 0;
        while j < db.messages.len()
            invariant
                db@.wf(),
                msgs == db@.messages,
                sel == message_rows(r@),
                j <= msgs.len(),
                r.len() > 0 ==> last < msgs.len() && sel[r.len() - 1] == msgs[last as int],
                found ==> best < j && db@.admits(f, msgs[best as int]) && (r.len() > 0 ==> newer(
                    sel[r.len() - 1],
                    msgs[best as int],
                )),
                forall|k: int|
                    0 <= k < j && db@.admits(f, #[trigger] msgs[k]) && (r.len() == 0 || newer(
                        sel[r.len() - 1],
                        msgs[k],
                    )) ==> found && (msgs[best as int] == msgs[k] || newer(msgs[best as int], msgs[k])),
            decreases msgs.len() - j,
        {
            assert(msgs[j as int] == db.messages@[j as int]@);
            let candidate = admits(db, f, &db.messages[j]) && (r.len() == 0 || is_newer(
                &db.messages[last],
                &db.messages[j],
            ));
            if candidate {
                if !found || is_newer(&db.messages[j], &db.messages[best]) {
                    found = true;
                    best = j;
                } else {
                    assert(msgs[j as int].message_id == j + 1);
                    assert(msgs[best as int].message_id == best + 1);
                }
            }
            j = j + 1;
        }
        if !found {
            proof {
                assert forall|k: int|
                    0 <= k < msgs.len() && db@.admits(f, #[trigger] msgs[k]) && !sel.contains(msgs[k]) implies
                    sel.len() == cap && forall|i: int| 0 <= i < sel.len() ==> newer(#[trigger] sel[i], msgs[k]) by {
                    if r.len() > 0 {
                        assert(newer(sel[r.len() - 1], msgs[k]));
                    }
                }
            }
            break;
        }
        let m = db.messages[best].clone();
        assert(msgs[best as int] == db.messages@[best as int]@);
        let author = m.author_id;
        assert(db@.messages[best as int].author_id == author);
        assert(db@.has_user_id(author));
        let u = db.users[(author - 1) as usize].clone();
        assert(db@.users[author - 1] == db.users@[author - 1]@);
        let ghost pair_row = m@;
        r.push((m, u));
        last = best;
        proof {
            let sel2 = message_rows(r@);
            assert(sel2 =~= sel.push(pair_row));
            assert(msgs.contains(pair_row)) by {
                assert(msgs[best as int] == pair_row);
            }
            assert forall|k: int|
                0 <= k < msgs.len() && db@.admits(f, #[trigger] msgs[k]) && !sel2.contains(msgs[k])
                    && sel2.len() > 0 implies newer(sel2[sel2.len() - 1], msgs[k]) by {
                if sel.contains(msgs[k]) {
                    let i = choose|i: int| 0 <= i < sel.len() && sel[i] == msgs[k];
                    assert(sel2[i] == msgs[k]);
                }
                assert(sel2[sel.len() as int] == pair_row);
                assert(msgs[k] != pair_row);
                assert(msgs[k].message_id == k + 1);
                assert(pair_row.message_id == best + 1);
            }
        }
    }
    r
}

/// All unflagged messages, newest first, at most `limit` of them.
pub fn get_public_messages(db: &Database, limit: i32) -> (r: Vec<(Messages, Users)>)
    requires
        db@.wf(),
    ensures
        db@.is_listing(message_rows(r@), MessageFilter::Public, limit_of(limit)),
        db@.with_authors(r@),
{
    select_newest(db, MessageFilter::Public, limit)
}

/// The unflagged messages of account `id`, newest first, at most `limit`.
pub fn get_user_timeline(db: &Database, id: i32, limit: i32) -> (r: Vec<(Messages, Users)>)
    requires
        db@.wf(),
    ensures
        db@.is_listing(message_rows(r@), MessageFilter::ByAuthor(id), limit_of(limit)),
        db@.with_authors(r@),
{
    select_newest(db, MessageFilter::ByAuthor(id), limit)
}

/// The personal timeline of account `id`: the union of its own unflagged
/// messages and those of the accounts it follows, newest first, each at most
/// once, at most `limit` of them.
pub fn get_timeline(db: &Database, id: i32, limit: i32) -> (r: Vec<(Messages, Users)>)
    requires
        db@.wf(),
    ensures
        db@.is_listing(message_rows(r@), MessageFilter::TimelineOf(id), limit_of(limit)),
        db@.with_authors(r@),
{
    select_newest(db, MessageFilter::TimelineOf(id), limit)
}

/// The ids of the accounts that `who` follows, in the order of `edges`.
pub open spec fn followed_ids(edges: Seq<Followers>, who: i32) -> Seq<i32>
    decreases edges.len(),
{
    if edges.len() == 0 {
        Seq::empty()
    } else {
        let before = followed_ids(edges.drop_last(), who);
        if edges.last().who_id == who {
            before.push(edges.last().whom_id)
        } else {
            before
        }
    }
}

/// The accounts that `user_id` follows (not those that follow it), in the
/// order the edges were made, at most `limit` of them.
pub fn get_followers(db: &Database, user_id: i32, limit: i32) -> (r: Vec<Users>)
    requires
        db@.wf(),
    ensures
        r@.len() == vstd::math::min(limit_of(limit), followed_ids(db@.follows, user_id).len() as int),
        forall|k: int|
            #![trigger r@[k]]
            0 <= k < r@.len() ==> r@[k]@ == db@.user(followed_ids(db@.follows, user_id)[k]),
{
    let cap: usize = if limit < 0 {
        0
    } else {
        limit as usize
    };
    let ghost edges = db@.follows;
    let mut r: Vec<Users> = Vec::new();
    let mut i: usize = 0;
    while i < db.followers.len()
        invariant
            db@.wf(),
            edges == db@.follows,
            cap == limit_of(limit),
            i <= edges.len(),
            r@.len() == vstd::math::min(cap as int, followed_ids(edges.subrange(0, i as int), user_id).len() as int),
            forall|k: int|
                #![trigger r@[k]]
                0 <= k < r@.len() ==> r@[k]@ == db@.user(followed_ids(edges.subrange(0, i as int), user_id)[k]),
        decreases edges.len() - i,
    {
        let e = db.followers[i];
        proof {
            assert(edges.subrange(0, i + 1).drop_last() =~= edges.subrange(0, i as int));
            assert(edges.subrange(0, i + 1).last() == e);
        }
        let ghost prev_ids = followed_ids(edges.subrange(0, i as int), user_id);
        let ghost next_ids = followed_ids(edges.subrange(0, i + 1), user_id);
        if e.who_id == user_id && r.len() < cap {
            assert(db@.has_user_id(edges[i as int].whom_id));
            let u = db.users[(e.whom_id - 1) as usize].clone();
            assert(db@.users[e.whom_id - 1] == db.users@[e.whom_id - 1]@);
            let ghost prev = r@;
            r.push(u);
            proof {
                assert(next_ids == prev_ids.push(e.whom_id));
                assert forall|k: int| #![trigger r@[k]] 0 <= k < r@.len() implies r@[k]@ == db@.user(
                    next_ids[k],
                ) by {
                    if k < prev.len() {
                        assert(r@[k] == prev[k]);
                    }
                }
            }
        } else {
            proof {
                assert forall|k: int| #![trigger r@[k]] 0 <= k < r@.len() implies r@[k]@ == db@.user(
                    next_ids[k],
                ) by {
                    assert(next_ids[k] == prev_ids[k]);
                }
            }
        }
        i = i + 1;
    }
    proof {
        assert(i == edges.len());
        assert(edges.subrange(0, edges.len() as int) =~= edges);
        let ids = followed_ids(edges, user_id);
        assert(followed_ids(edges.subrange(0, i as int), user_id) == ids);
    }
    r
}

} // verus!
