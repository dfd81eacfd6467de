use vstd::prelude::*;

verus! {

/// The only `Authorization` header value that the JSON API accepts.
pub const API_AUTHORIZATION: &'static str = "Basic c2ltdWxhdG9yOnN1cGVyX3NhZmUh";

/// The path prefix of the JSON API.
pub const API_PREFIX: &'static str = "/api";

/// Guards the JSON API: requests under `/api` must carry the shared token.
pub struct AuthMiddleware;

/// The guard placed in front of a service.
pub struct VerifyAuthToken<S> {
    pub service: S,
}

/// `prefix` begins `s`.
pub open spec fn starts_with(s: Seq<char>, prefix: Seq<char>) -> bool {
    prefix.len() <= s.len() && s.subrange(0, prefix.len() as int) == prefix
}

/// The characters of an optional header value.
pub open spec fn header_chars(h: Option<&str>) -> Option<Seq<char>> {
    match h {
        Some(a) => Some(a@),
        None => None,
    }
}

/// A request may pass: it is outside the API, or it carries the token.
pub open spec fn request_admitted(path: Seq<char>, authorization: Option<Seq<char>>) -> bool {
    !starts_with(path, API_PREFIX@) || authorization == Some(API_AUTHORIZATION@)
}

fn chars_of(s: &str) -> (r: Vec<char>)
    ensures
        r@ == s@,
{
    let mut r: Vec<char> = Vec::new();
    for c in it: s.chars()
        invariant
            it.seq() == s@,
            r@ == s@.subrange(0, it.index() as int),
    {
        proof {
            assert(s@.subrange(0, it.index() + 1) =~= r@.push(c));
        }
        r.push(c);
    }
    proof {
        assert(s@.subrange(0, s@.len() as int) =~= s@);
    }
    r
}

/// Whether `prefix` begins `s`.
pub fn has_prefix(s: &str, prefix: &str) -> (r: bool)
    ensures
        r == starts_with(s@, prefix@),
{
    let a = chars_of(s);
    let b = chars_of(prefix);
    if b.len() > a.len() {
        return false;
    }
    let mut i: usize = 0;
    while i < b.len()
        invariant
            a@ == s@,
            b@ == prefix@,
            b.len() <= a.len(),
            i <= b.len(),
            forall|k: int| 0 <= k < i ==> a@[k] == b@[k],
        decreases b.len() - i,
    {
        if a[i] != b[i] {
            assert(s@.subrange(0, prefix@.len() as int)[i as int] != prefix@[i as int]);
            return false;
        }
        i = i + 1;
    }
    assert(s@.subrange(0, prefix@.len() as int) =~= prefix@);
    true
}

impl AuthMiddleware {
    /// Places the guard in front of `service`.
    pub fn new_transform<S>(&self, service: S) -> (r: VerifyAuthToken<S>)
        ensures
            r.service == service,
    {
        VerifyAuthToken { service }
    }
}

impl<S> VerifyAuthToken<S> {
    /// Whether a request for `path` with the given `Authorization` header
    /// may reach the service; the others are answered 401.
    pub fn call(&self, path: &str, authorization: Option<&str>) -> (r: bool)
        ensures
            r == request_admitted(path@, header_chars(authorization)),
    {
        proof {
            reveal_strlit("/api");
            reveal_strlit("Basic c2ltdWxhdG9yOnN1cGVyX3NhZmUh");
        }
        if !has_prefix(path, API_PREFIX) {
            return true;
        }
        match authorization {
            None => false,
            Some(a) => {
                let given = chars_of(a);
                let token = chars_of(API_AUTHORIZATION);
                if given.len() != token.len() {
                    return false;
                }
                let mut i: usize = 0;
                while i < token.len()
                    invariant
                        given@ == a@,
                        token@ == API_AUTHORIZATION@,
                        starts_with(path@, API_PREFIX@),
                        authorization == Some(a),
                        given.len() == token.len(),
                        i <= token.len(),
                        forall|k: int| 0 <= k < i ==> given@[k] == token@[k],
                    decreases token.len() - i,
                {
                    if given[i] != token[i] {
                        assert(a@[i as int] != API_AUTHORIZATION@[i as int]);
                        return false;
                    }
                    i = i + 1;
                }
                assert(given@ =~= token@);
                true
            },
        }
    }
}

} // verus!
