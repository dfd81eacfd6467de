use vstd::prelude::*;
use crate::api::with_latest;
use crate::models::{newer, Followers, MessageRow, UserRow};
use crate::repository::{apply_writes, other_than, StoreWrite, without_edge, DbModel, MessageFilter};
use crate::validation::{register_error_text, registration_error, valid_email, RegisterError};

verus! {

/// An empty username is refused as such, whatever the other fields hold.
pub proof fn law_empty_username(
    m: DbModel,
    email: Seq<char>,
    password: Seq<char>,
    confirmation: Option<Seq<char>>,
)
    ensures
        registration_error(m, Seq::empty(), email, password, confirmation) == Some(RegisterError::EmptyUsername),
        register_error_text(RegisterError::EmptyUsername) == "You have to enter a username"@,
{
}

/// After a registration has succeeded (whatever hash was stored),
/// registering the same username again
/// (with fields that pass their own checks) is refused as taken, and the
/// store holds exactly one account of that name.
pub proof fn law_register_twice(
    m: DbModel,
    username: Seq<char>,
    email: Seq<char>,
    password: Seq<char>,
    confirmation: Option<Seq<char>>,
    pw_hash: Seq<char>,
    email2: Seq<char>,
    password2: Seq<char>,
    confirmation2: Option<Seq<char>>,
)
    requires
        m.wf(),
        registration_error(m, username, email, password, confirmation) is None,
        m.users.len() < i32::MAX,
        valid_email(email2),
        password2.len() > 0,
        confirmation2 is None || confirmation2 == Some(password2),
    ensures
        ({
            let after = DbModel {
                users: m.users.push(
                    UserRow {
                        user_id: (m.users.len() + 1) as i32,
                        username,
                        email,
                        pw_hash,
                    },
                ),
                ..m
            };
            &&& registration_error(after, username, email2, password2, confirmation2) == Some(
                RegisterError::UsernameTaken,
            )
            &&& forall|i: int, j: int|
                0 <= i < after.users.len() && 0 <= j < after.users.len() && after.users[i].username == username
                    && after.users[j].username == username ==> i == j
        }),
{
    let after = DbModel {
        users: m.users.push(
            UserRow { user_id: (m.users.len() + 1) as i32, username, email, pw_hash },
        ),
        ..m
    };
    let n = m.users.len() as int;
    assert(after.users[n].username == username);
    assert(after.name_taken(username));
    assert forall|i: int, j: int|
        0 <= i < after.users.len() && 0 <= j < after.users.len() && after.users[i].username == username
            && after.users[j].username == username implies i == j by {
        if i < n {
            assert(m.users[i].username == username);
            assert(m.name_taken(username));
        }
        if j < n {
            assert(m.users[j].username == username);
            assert(m.name_taken(username));
        }
    }
}

proof fn lemma_stored_keys_ordered(m: DbModel, a: MessageRow, b: MessageRow)
    requires
        m.wf(),
        m.messages.contains(a),
        m.messages.contains(b),
        a != b,
    ensures
        newer(a, b) || newer(b, a),
{
    let i = choose|i: int| 0 <= i < m.messages.len() && m.messages[i] == a;
    let j = choose|j: int| 0 <= j < m.messages.len() && m.messages[j] == b;
    assert(m.messages[i].message_id == i + 1);
    assert(m.messages[j].message_id == j + 1);
}

/// A listing holds each message once.
pub proof fn law_listing_no_duplicates(m: DbModel, sel: Seq<MessageRow>, f: MessageFilter, limit: int)
    requires
        m.is_listing(sel, f, limit),
    ensures
        sel.no_duplicates(),
{
    assert forall|i: int, j: int| 0 <= i < sel.len() && 0 <= j < sel.len() && i != j implies sel[i] != sel[j] by {
        if i < j {
            assert(newer(sel[i], sel[j]));
        } else {
            assert(newer(sel[j], sel[i]));
        }
    }
}

/// A listing is determined by the store, the filter and the limit: any two
/// sequences that meet `is_listing` are equal.
pub proof fn law_listing_unique(
    m: DbModel,
    s1: Seq<MessageRow>,
    s2: Seq<MessageRow>,
    f: MessageFilter,
    limit: int,
)
    requires
        m.wf(),
        m.is_listing(s1, f, limit),
        m.is_listing(s2, f, limit),
    ensures
        s1 == s2,
{
    let n = if s1.len() < s2.len() {
        s1.len() as int
    } else {
        s2.len() as int
    };
    lemma_agree_upto(m, s1, s2, f, limit, n);
    lemma_longer_listing(m, s1, s2, f, limit);
    lemma_longer_listing(m, s2, s1, f, limit);
    assert(s1 =~= s2);
}

proof fn lemma_in_pool(m: DbModel, sel: Seq<MessageRow>, f: MessageFilter, limit: int, i: int) -> (k: int)
    requires
        m.is_listing(sel, f, limit),
        0 <= i < sel.len(),
    ensures
        0 <= k < m.messages.len(),
        m.messages[k] == sel[i],
        m.admits(f, m.messages[k]),
{
    assert(m.messages.contains(sel[i]) && m.admits(f, sel[i]));
    choose|k: int| 0 <= k < m.messages.len() && m.messages[k] == sel[i]
}

/// Two listings agree on their first `n` positions.
proof fn lemma_agree_upto(m: DbModel, s1: Seq<MessageRow>, s2: Seq<MessageRow>, f: MessageFilter, limit: int, n: int)
    requires
        m.wf(),
        m.is_listing(s1, f, limit),
        m.is_listing(s2, f, limit),
        0 <= n <= s1.len(),
        n <= s2.len(),
    ensures
        forall|k: int| 0 <= k < n ==> s1[k] == s2[k],
    decreases n,
{
    if n > 0 {
        lemma_agree_upto(m, s1, s2, f, limit, n - 1);
        let k = n - 1;
        if s1[k] != s2[k] {
            let a = lemma_in_pool(m, s1, f, limit, k);
            let b = lemma_in_pool(m, s2, f, limit, k);
            lemma_stored_keys_ordered(m, s1[k], s2[k]);
            lemma_not_earlier(m, s2, s1, f, limit, k, a);
            lemma_not_earlier(m, s1, s2, f, limit, k, b);
        }
    }
}

/// Where two listings agree below `k`, the second is not newer than the
/// first at `k`.
proof fn lemma_not_earlier(
    m: DbModel,
    s: Seq<MessageRow>,
    t: Seq<MessageRow>,
    f: MessageFilter,
    limit: int,
    k: int,
    a: int,
)
    requires
        m.wf(),
        m.is_listing(s, f, limit),
        m.is_listing(t, f, limit),
        0 <= k < s.len(),
        k < t.len(),
        forall|j: int| 0 <= j < k ==> s[j] == t[j],
        0 <= a < m.messages.len(),
        m.messages[a] == t[k],
        m.admits(f, m.messages[a]),
    ensures
        !newer(t[k], s[k]),
{
    if newer(t[k], s[k]) {
        if s.contains(t[k]) {
            let j = choose|j: int| 0 <= j < s.len() && s[j] == t[k];
            if j < k {
                assert(s[j] == t[j]);
                assert(newer(t[j], t[k]));
            } else if j > k {
                assert(newer(s[k], s[j]));
            }
        } else {
            assert(newer(s[k], m.messages[a]));
        }
    }
}

/// A listing that agrees with another on its whole length is not shorter.
proof fn lemma_longer_listing(m: DbModel, s: Seq<MessageRow>, t: Seq<MessageRow>, f: MessageFilter, limit: int)
    requires
        m.wf(),
        m.is_listing(s, f, limit),
        m.is_listing(t, f, limit),
        forall|k: int| 0 <= k < s.len() && k < t.len() ==> s[k] == t[k],
    ensures
        s.len() >= t.len(),
{
    if s.len() < t.len() {
        let n = s.len() as int;
        let a = lemma_in_pool(m, t, f, limit, n);
        if s.contains(t[n]) {
            let j = choose|j: int| 0 <= j < s.len() && s[j] == t[n];
            assert(s[j] == t[j]);
            assert(newer(t[j], t[n]));
        } else {
            assert(m.admits(f, m.messages[a]) && !s.contains(m.messages[a]));
        }
    }
}

/// The personal timeline of `u` holds unflagged messages of `u` and of the
/// accounts `u` follows, each once; every other such message is missing only
/// because the listing is full of newer ones.
pub proof fn law_timeline_is_union(m: DbModel, sel: Seq<MessageRow>, u: i32, limit: int)
    requires
        m.wf(),
        m.is_listing(sel, MessageFilter::TimelineOf(u), limit),
    ensures
        sel.no_duplicates(),
        forall|i: int|
            0 <= i < sel.len() ==> (#[trigger] sel[i]).flagged == 0 && (sel[i].author_id == u || m.follows_edge(
                u,
                sel[i].author_id,
            )),
        forall|k: int|
            0 <= k < m.messages.len() && (#[trigger] m.messages[k]).flagged == 0 && (m.messages[k].author_id == u
                || m.follows_edge(u, m.messages[k].author_id)) && !sel.contains(m.messages[k]) ==> sel.len()
                == limit && forall|i: int| 0 <= i < sel.len() ==> newer(#[trigger] sel[i], m.messages[k]),
{
    law_listing_no_duplicates(m, sel, MessageFilter::TimelineOf(u), limit);
    assert forall|i: int| 0 <= i < sel.len() implies (#[trigger] sel[i]).flagged == 0 && (sel[i].author_id == u
        || m.follows_edge(u, sel[i].author_id)) by {
        assert(m.admits(MessageFilter::TimelineOf(u), sel[i]));
    }
    assert forall|k: int|
        0 <= k < m.messages.len() && (#[trigger] m.messages[k]).flagged == 0 && (m.messages[k].author_id == u
            || m.follows_edge(u, m.messages[k].author_id)) && !sel.contains(m.messages[k]) implies sel.len()
            == limit && forall|i: int| 0 <= i < sel.len() ==> newer(#[trigger] sel[i], m.messages[k]) by {
        assert(m.admits(MessageFilter::TimelineOf(u), m.messages[k]));
    }
}

/// The public listing never holds a flagged message.
pub proof fn law_public_unflagged(m: DbModel, sel: Seq<MessageRow>, limit: int)
    requires
        m.is_listing(sel, MessageFilter::Public, limit),
    ensures
        forall|i: int| 0 <= i < sel.len() ==> (#[trigger] sel[i]).flagged == 0,
{
    assert forall|i: int| 0 <= i < sel.len() implies (#[trigger] sel[i]).flagged == 0 by {
        assert(m.admits(MessageFilter::Public, sel[i]));
    }
}

/// After `follow(a, b)` has succeeded, `a` follows `b`.
pub proof fn law_follow_then_following(m: DbModel, a: i32, b: i32)
    ensures
        ({
            let after = if m.follows_edge(a, b) {
                m
            } else {
                DbModel { follows: m.follows.push(Followers { who_id: a, whom_id: b }), ..m }
            };
            after.follows_edge(a, b)
        }),
{
    if !m.follows_edge(a, b) {
        let e = Followers { who_id: a, whom_id: b };
        assert(m.follows.push(e)[m.follows.len() as int] == e);
    }
}

/// After `unfollow(a, b)`, `a` does not follow `b`.
pub proof fn law_unfollow_then_not_following(m: DbModel, a: i32, b: i32)
    ensures
        !(DbModel { follows: without_edge(m.follows, Followers { who_id: a, whom_id: b }), ..m }).follows_edge(a, b),
{
    let e = Followers { who_id: a, whom_id: b };
    let s = without_edge(m.follows, e);
    if s.contains(e) {
        let i = choose|i: int| 0 <= i < s.len() && s[i] == e;
        m.follows.lemma_filter_pred(other_than(e), i);
    }
}

/// Unfollowing where there is no edge changes nothing.
pub proof fn law_unfollow_absent(m: DbModel, a: i32, b: i32)
    requires
        !m.follows_edge(a, b),
    ensures
        without_edge(m.follows, Followers { who_id: a, whom_id: b }) == m.follows,
{
    let e = Followers { who_id: a, whom_id: b };
    lemma_filter_keeps_all(m.follows, e);
}

proof fn lemma_filter_keeps_all(s: Seq<Followers>, e: Followers)
    requires
        !s.contains(e),
    ensures
        without_edge(s, e) == s,
    decreases s.len(),
{
    if s.len() > 0 {
        let init = s.drop_last();
        if init.contains(e) {
            let i = choose|i: int| 0 <= i < init.len() && init[i] == e;
            assert(s[i] == e);
        }
        lemma_filter_keeps_all(init, e);
        assert(init.push(s.last()) =~= s);
        init.lemma_filter_push(s.last(), other_than(e));
        assert(s.last() != e) by {
            assert(s[s.len() - 1] == s.last());
        }
    } else {
        assert(s.filter(other_than(e)) =~= s);
    }
}

/// After `set_latest(v)`, any sequence of calls of `create_user`,
/// `create_msg`, `follow` and `unfollow` (whose contracts state their effect
/// as `apply_write`), with any reads between them (which change nothing),
/// leaves the counter at `v`.
pub proof fn law_latest_survives_writes(m: DbModel, v: i32, ws: Seq<StoreWrite>)
    ensures
        apply_writes(DbModel { latest: v, ..m }, ws).latest == v,
    decreases ws.len(),
{
    if ws.len() > 0 {
        law_latest_survives_writes(m, v, ws.drop_last());
    }
}

/// Setting the counter and reading it back gives the value set; a call
/// without the parameter leaves it as it was.
pub proof fn law_latest_set_then_get(m: DbModel, v: i32)
    ensures
        with_latest(m, Some(v)).latest == v,
        with_latest(with_latest(m, Some(v)), None).latest == v,
{
}

} // verus!
