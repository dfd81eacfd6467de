use vstd::prelude::*;
use crate::models::{UserRow, Users};
use crate::password::{bcrypt_verifies, hash_password, verify_password};
use crate::repository::{create_user, get_user_by_name, Database, DbModel, StoreError};

verus! {

/// Why a registration was turned down, in the order the checks run.
#[derive(Clone, Copy, PartialEq, Eq, Structural, Debug)]
pub enum RegisterError {
    EmptyUsername,
    InvalidEmail,
    EmptyPassword,
    PasswordMismatch,
    UsernameTaken,
    /// The password hasher gave no result.
    HashFailed,
    Store(StoreError),
}

/// Why a login was turned down.
#[derive(Clone, Copy, PartialEq, Eq, Structural, Debug)]
pub enum AuthError {
    InvalidUsername,
    InvalidPassword,
}

/// The text shown to the user for each registration error.
pub open spec fn register_error_text(e: RegisterError) -> Seq<char> {
    match e {
        RegisterError::EmptyUsername => "You have to enter a username"@,
        RegisterError::InvalidEmail => "You have to enter a valid email address"@,
        RegisterError::EmptyPassword => "You have to enter a password"@,
        RegisterError::PasswordMismatch => "The two passwords do not match"@,
        RegisterError::UsernameTaken => "The username is already taken"@,
        RegisterError::HashFailed => "The password could not be hashed"@,
        RegisterError::Store(_) => "The account could not be stored"@,
    }
}

/// The text shown to the user for each login error.
pub open spec fn auth_error_text(e: AuthError) -> Seq<char> {
    match e {
        AuthError::InvalidUsername => "Invalid username"@,
        AuthError::InvalidPassword => "Invalid password"@,
    }
}

impl RegisterError {
    /// The user-visible text of this error.
    pub fn message(&self) -> (r: String)
        ensures
            r@ == register_error_text(*self),
    {
        match self {
            RegisterError::EmptyUsername => {
                proof {
                    reveal_strlit("You have to enter a username");
                }
                "You have to enter a username".to_string()
            },
            RegisterError::InvalidEmail => {
                proof {
                    reveal_strlit("You have to enter a valid email address");
                }
                "You have to enter a valid email address".to_string()
            },
            RegisterError::EmptyPassword => {
                proof {
                    reveal_strlit("You have to enter a password");
                }
                "You have to enter a password".to_string()
            },
            RegisterError::PasswordMismatch => {
                proof {
                    reveal_strlit("The two passwords do not match");
                }
                "The two passwords do not match".to_string()
            },
            RegisterError::UsernameTaken => {
                proof {
                    reveal_strlit("The username is already taken");
                }
                "The username is already taken".to_string()
            },
            RegisterError::HashFailed => {
                proof {
                    reveal_strlit("The password could not be hashed");
                }
                "The password could not be hashed".to_string()
            },
            RegisterError::Store(_) => {
                proof {
                    reveal_strlit("The account could not be stored");
                }
                "The account could not be stored".to_string()
            },
        }
    }
}

impl AuthError {
    /// The user-visible text of this error.
    pub fn message(&self) -> (r: String)
        ensures
            r@ == auth_error_text(*self),
    {
        match self {
            AuthError::InvalidUsername => {
                proof {
                    reveal_strlit("Invalid username");
                }
                "Invalid username".to_string()
            },
            AuthError::InvalidPassword => {
                proof {
                    reveal_strlit("Invalid password");
                }
                "Invalid password".to_string()
            },
        }
    }
}

/// An address is accepted when it is not empty and holds an `@`.
pub open spec fn valid_email(email: Seq<char>) -> bool {
    email.len() > 0 && email.contains('@')
}

/// Whether `s` holds the character `@`.
pub fn contains_at_sign(s: &String) -> (r: bool)
    ensures
        r == s@.contains('@'),
{
    let mut found = false;
    for c in it: s.as_str().chars()
        invariant
            it.seq() == s@,
            found == (exists|k: int| 0 <= k < it.index() && it.seq()[k] == '@'),
    {
        if c == '@' {
            found = true;
        }
    }
    found
}

/// The first check that fails, in the fixed order: username, email,
/// password, confirmation (where one is given), uniqueness.
pub open spec fn registration_error(
    m: DbModel,
    username: Seq<char>,
    email: Seq<char>,
    password: Seq<char>,
    confirmation: Option<Seq<char>>,
) -> Option<RegisterError> {
    if username.len() == 0 {
        Some(RegisterError::EmptyUsername)
    } else if !valid_email(email) {
        Some(RegisterError::InvalidEmail)
    } else if password.len() == 0 {
        Some(RegisterError::EmptyPassword)
    } else if confirmation is Some && confirmation->0 != password {
        Some(RegisterError::PasswordMismatch)
    } else if m.name_taken(username) {
        Some(RegisterError::UsernameTaken)
    } else {
        None
    }
}

/// The characters of an optional string.
pub open spec fn opt_chars(s: Option<&String>) -> Option<Seq<char>> {
    match s {
        Some(t) => Some(t@),
        None => None,
    }
}

/// Runs the checks of `registration_error` in their order.
pub fn check_registration(
    db: &Database,
    username: &String,
    email: &String,
    password: &String,
    confirmation: Option<&String>,
) -> (r: Option<RegisterError>)
    requires
        db@.wf(),
    ensures
        r == registration_error(db@, username@, email@, password@, opt_chars(confirmation)),
{
    if username.as_str().is_empty() {
        return Some(RegisterError::EmptyUsername);
    }
    if email.as_str().is_empty() || !contains_at_sign(email) {
        return Some(RegisterError::InvalidEmail);
    }
    if password.as_str().is_empty() {
        return Some(RegisterError::EmptyPassword);
    }
    match confirmation {
        Some(c) => {
            if *c != *password {
                return Some(RegisterError::PasswordMismatch);
            }
        },
        None => {},
    }
    if get_user_by_name(db, username).is_some() {
        return Some(RegisterError::UsernameTaken);
    }
    None
}

/// Registers an account after the checks of `registration_error`, storing
/// `pw_hash`, which the caller got from the password hasher for `password`.
/// `confirmation` is the second password field of the web form, absent in
/// the JSON API.
pub fn register(
    db: &mut Database,
    username: &String,
    email: &String,
    password: &String,
    confirmation: Option<&String>,
    pw_hash: &String,
) -> (r: Result<Users, RegisterError>)
    requires
        old(db)@.wf(),
    ensures
        final(db)@.wf(),
        registration_error(old(db)@, username@, email@, password@, opt_chars(confirmation)) matches Some(e)
            ==> r == Err::<Users, RegisterError>(e),
        registration_error(old(db)@, username@, email@, password@, opt_chars(confirmation)) is None
            && old(db)@.users.len() >= i32::MAX ==> r == Err::<Users, RegisterError>(
            RegisterError::Store(StoreError::IdsExhausted),
        ),
        registration_error(old(db)@, username@, email@, password@, opt_chars(confirmation)) is None
            && old(db)@.users.len() < i32::MAX ==> r is Ok,
        r is Err ==> final(db)@ == old(db)@,
        r is Ok ==> r->Ok_0@ == (UserRow {
            user_id: (old(db)@.users.len() + 1) as i32,
            username: username@,
            email: email@,
            pw_hash: pw_hash@,
        }) && final(db)@ == (DbModel { users: old(db)@.users.push(r->Ok_0@), ..old(db)@ }),
{
    match check_registration(db, username, email, password, confirmation) {
        Some(e) => Err(e),
        None => match create_user(db, username, email, pw_hash) {
            Ok(u) => Ok(u),
            Err(e) => Err(RegisterError::Store(e)),
        },
    }
}

/// Registers an account after the checks of `registration_error`, storing
/// the password hasher's result for `password`. The hasher runs only once
/// the checks have passed.
pub fn register_account(
    db: &mut Database,
    username: &String,
    email: &String,
    password: &String,
    confirmation: Option<&String>,
) -> (r: Result<Users, RegisterError>)
    requires
        old(db)@.wf(),
    ensures
        final(db)@.wf(),
        registration_error(old(db)@, username@, email@, password@, opt_chars(confirmation)) matches Some(e)
            ==> r == Err::<Users, RegisterError>(e),
        registration_error(old(db)@, username@, email@, password@, opt_chars(confirmation)) is None
            ==> r is Ok || r == Err::<Users, RegisterError>(RegisterError::HashFailed) || (old(db)@.users.len()
            >= i32::MAX && r == Err::<Users, RegisterError>(RegisterError::Store(StoreError::IdsExhausted))),
        r is Err ==> final(db)@ == old(db)@,
        r is Ok ==> r->Ok_0@.user_id == old(db)@.users.len() + 1 && r->Ok_0@.username == username@
            && r->Ok_0@.email == email@ && bcrypt_verifies(password@, r->Ok_0@.pw_hash) && final(db)@ == (DbModel {
            users: old(db)@.users.push(r->Ok_0@),
            ..old(db)@
        }),
{
    match check_registration(db, username, email, password, confirmation) {
        Some(e) => Err(e),
        None => match hash_password(password.as_str()) {
            Some(h) => register(db, username, email, password, confirmation, &h),
            None => Err(RegisterError::HashFailed),
        },
    }
}

/// Decides a login once the password hasher has judged the typed password
/// against the stored hash of the account called `username` (`verified`).
pub fn decide_login(db: &Database, username: &String, verified: bool) -> (r: Result<i32, AuthError>)
    requires
        db@.wf(),
    ensures
        !db@.name_taken(username@) ==> r == Err::<i32, AuthError>(AuthError::InvalidUsername),
        db@.name_taken(username@) && !verified ==> r == Err::<i32, AuthError>(AuthError::InvalidPassword),
        db@.name_taken(username@) && verified ==> r == Ok::<i32, AuthError>(db@.id_of(username@)),
{
    match get_user_by_name(db, username) {
        None => Err(AuthError::InvalidUsername),
        Some(user) => {
            if verified {
                Ok(user.user_id)
            } else {
                Err(AuthError::InvalidPassword)
            }
        },
    }
}

/// Checks a username and password against the stored accounts, the
/// password through the hasher's `verify`, and gives the account's id on
/// success.
pub fn login(db: &Database, username: &String, password: &String) -> (r: Result<i32, AuthError>)
    requires
        db@.wf(),
    ensures
        !db@.name_taken(username@) ==> r == Err::<i32, AuthError>(AuthError::InvalidUsername),
        db@.name_taken(username@) && !bcrypt_verifies(password@, db@.user(db@.id_of(username@)).pw_hash) ==> r
            == Err::<i32, AuthError>(AuthError::InvalidPassword),
        db@.name_taken(username@) && bcrypt_verifies(password@, db@.user(db@.id_of(username@)).pw_hash) ==> r
            == Ok::<i32, AuthError>(db@.id_of(username@)),
{
    let verified = match get_user_by_name(db, username) {
        None => false,
        Some(user) => verify_password(password.as_str(), user.pw_hash.as_str()),
    };
    decide_login(db, username, verified)
}

} // verus!
