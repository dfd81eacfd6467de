use vstd::prelude::*;

verus! {

/// What a stored account holds, as plain mathematical values.
pub struct UserRow {
    pub user_id: i32,
    pub username: Seq<char>,
    pub email: Seq<char>,
    pub pw_hash: Seq<char>,
}

/// What a stored message holds, as plain mathematical values.
pub struct MessageRow {
    pub message_id: i32,
    pub author_id: i32,
    pub text: Seq<char>,
    pub pub_date: i64,
    pub flagged: i32,
}

/// A registered account.
pub struct Users {
    pub user_id: i32,
    pub username: String,
    pub email: String,
    pub pw_hash: String,
}

/// A follow edge: `who_id` follows `whom_id`.
#[derive(Clone, Copy, PartialEq, Eq, Structural, Debug)]
pub struct Followers {
    pub who_id: i32,
    pub whom_id: i32,
}

/// A posted message; `pub_date` counts seconds since 1970-01-01 00:00 UTC.
pub struct Messages {
    pub message_id: i32,
    pub author_id: i32,
    pub text: String,
    pub pub_date: i64,
    pub flagged: i32,
}

/// The singleton row of the synchronisation counter.
#[derive(Clone, Copy, PartialEq, Eq, Structural, Debug)]
pub struct Latest {
    pub id: i32,
    pub value: i32,
}

impl View for Users {
    type V = UserRow;

    open spec fn view(&self) -> UserRow {
        UserRow {
            user_id: self.user_id,
            username: self.username@,
            email: self.email@,
            pw_hash: self.pw_hash@,
        }
    }
}

impl View for Messages {
    type V = MessageRow;

    open spec fn view(&self) -> MessageRow {
        MessageRow {
            message_id: self.message_id,
            author_id: self.author_id,
            text: self.text@,
            pub_date: self.pub_date,
            flagged: self.flagged,
        }
    }
}

impl Clone for Users {
    fn clone(&self) -> (r: Self)
        ensures
            r@ == self@,
    {
        Users {
            user_id: self.user_id,
            username: self.username.clone(),
            email: self.email.clone(),
            pw_hash: self.pw_hash.clone(),
        }
    }
}

impl Clone for Messages {
    fn clone(&self) -> (r: Self)
        ensures
            r@ == self@,
    {
        Messages {
            message_id: self.message_id,
            author_id: self.author_id,
            text: self.text.clone(),
            pub_date: self.pub_date,
            flagged: self.flagged,
        }
    }
}

/// `a` comes before `b` in a newest-first listing: a later date, or the same
/// date and a later message id.
pub open spec fn newer(a: MessageRow, b: MessageRow) -> bool {
    a.pub_date > b.pub_date || (a.pub_date == b.pub_date && a.message_id > b.message_id)
}

/// Executable form of `newer`.
pub fn is_newer(a: &Messages, b: &Messages) -> (r: bool)
    ensures
        r == newer(a@, b@),
{
    a.pub_date > b.pub_date || (a.pub_date == b.pub_date && a.message_id > b.message_id)
}

} // verus!
