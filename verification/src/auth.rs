//! The server's access rules: where a request's API key comes from, how a
//! key is turned into a user, who may change or delete what, how failed
//! writes are reported, and how fresh API keys are drawn.
use vstd::prelude::*;
use crate::app_error::AppError;
use crate::text::{contains, contains_text, join2, owned, push_char, text_eq};

verus! {

/// The request headers that carry an API key, as text (a header whose value
/// is not visible ASCII counts as absent).
#[derive(Debug, Clone, PartialEq, Eq)]
pub struct RequestHeaders {
    /// The `authorization` header.
    pub authorization: Option<String>,
    /// The `x-api-key` header.
    pub x_api_key: Option<String>,
}

/// A registered user.
#[derive(Debug, Clone, PartialEq, Eq)]
pub struct User {
    pub id: i64,
    pub username: String,
    pub api_key: String,
}

/// The API key of a request: the `authorization` header, or else `x-api-key`.
pub open spec fn api_key_of(h: RequestHeaders) -> Option<Seq<char>> {
    match h.authorization {
        Some(a) => Some(a@),
        None => match h.x_api_key {
            Some(x) => Some(x@),
            None => None,
        },
    }
}

/// The API key a request carries: `authorization` wins over `x-api-key`.
pub fn get_api_key_from_headers(headers: &RequestHeaders) -> (r: Option<&str>)
    ensures
        match r {
            Some(k) => api_key_of(*headers) == Some(k@),
            None => api_key_of(*headers) is None,
        },
        headers.authorization matches Some(a) ==> (r matches Some(k) && k@ == a@),
        headers.authorization is None ==> match headers.x_api_key {
            Some(x) => r matches Some(k) && k@ == x@,
            None => r is None,
        },
{
    match &headers.authorization {
        Some(a) => Some(a.as_str()),
        None => match &headers.x_api_key {
            Some(x) => Some(x.as_str()),
            None => None,
        },
    }
}

/// First step of authentication: the request must carry an API key.
pub fn require_api_key(headers: &RequestHeaders) -> (r: Result<&str, AppError>)
    ensures
        match r {
            Ok(k) => api_key_of(*headers) == Some(k@),
            Err(e) => api_key_of(*headers) is None && e == AppError::Unauthorized("missing api key"),
        },
        headers.authorization matches Some(a) ==> (r matches Ok(k) && k@ == a@),
        (headers.authorization is None && headers.x_api_key is None) ==> r is Err,
{
    match get_api_key_from_headers(headers) {
        Some(k) => Ok(k),
        None => Err(AppError::Unauthorized("missing api key")),
    }
}

/// Second step of authentication: the key must belong to a user (`found` is
/// the user the database holds for the key).
pub fn resolve_user(found: Option<User>) -> (r: Result<User, AppError>)
    ensures
        match found {
            Some(u) => r == Ok::<User, AppError>(u),
            None => r == Err::<User, AppError>(AppError::Unauthorized("invalid api key")),
        },
{
    match found {
        Some(u) => Ok(u),
        None => Err(AppError::Unauthorized("invalid api key")),
    }
}

/// The `authorization` header is the request's API key whenever it is sent,
/// whatever `x-api-key` holds; `x-api-key` counts only without it; and a
/// request without either carries no key.
pub proof fn law_authorization_header_first(h: RequestHeaders)
    ensures
        h.authorization matches Some(a) ==> api_key_of(h) == Some(a@),
        h.authorization is None ==> match h.x_api_key {
            Some(x) => api_key_of(h) == Some(x@),
            None => api_key_of(h) is None,
        },
{
}

/// A question may be changed only by its asker: `owner` is the asker's id, or
/// `None` when the question does not exist.
pub fn verify_question_ownership(owner: Option<i64>, user_id: i64, forbidden_msg: &'static str) -> (r:
    Result<(), AppError>)
    ensures
        match owner {
            Some(id) => if id == user_id {
                r is Ok
            } else {
                r == Err::<(), AppError>(AppError::Forbidden(forbidden_msg))
            },
            None => r == Err::<(), AppError>(AppError::NotFound("question not found")),
        },
{
    match owner {
        Some(id) => {
            if id == user_id {
                Ok(())
            } else {
                Err(AppError::Forbidden(forbidden_msg))
            }
        },
        None => Err(AppError::NotFound("question not found")),
    }
}

/// An answer may be deleted only by its author: `owner` is the author's id,
/// or `None` when no such answer exists under the question.
pub fn verify_answer_ownership(owner: Option<i64>, user_id: i64) -> (r: Result<(), AppError>)
    ensures
        match owner {
            Some(id) => if id == user_id {
                r is Ok
            } else {
                r == Err::<(), AppError>(AppError::Forbidden("can only delete your own answers"))
            },
            None => r == Err::<(), AppError>(AppError::NotFound("answer not found")),
        },
{
    match owner {
        Some(id) => {
            if id == user_id {
                Ok(())
            } else {
                Err(AppError::Forbidden("can only delete your own answers"))
            }
        },
        None => Err(AppError::NotFound("answer not found")),
    }
}

/// An API key may be replaced only by a caller that repeats the current one.
pub fn check_current_api_key(user: &User, given: &str) -> (r: Result<(), AppError>)
    ensures
        user.api_key@ == given@ ==> r is Ok,
        user.api_key@ != given@ ==> r == Err::<(), AppError>(
            AppError::Unauthorized("invalid current api key"),
        ),
{
    if text_eq(user.api_key.as_str(), given) {
        Ok(())
    } else {
        Err(AppError::Unauthorized("invalid current api key"))
    }
}

/// An answer needs an existing question.
pub fn require_question_exists(exists: bool) -> (r: Result<(), AppError>)
    ensures
        exists ==> r is Ok,
        !exists ==> r == Err::<(), AppError>(AppError::NotFound("question not found")),
{
    if exists {
        Ok(())
    } else {
        Err(AppError::NotFound("question not found"))
    }
}

/// A failed user insert: a uniqueness violation means the name is taken;
/// anything else is internal. `failure` is the database's description.
pub fn registration_error(failure: String) -> (r: AppError)
    ensures
        contains_text(failure@, "UNIQUE"@) ==> r == AppError::Conflict("username already exists"),
        !contains_text(failure@, "UNIQUE"@) ==> r == AppError::Internal(failure),
{
    if contains(failure.as_str(), "UNIQUE") {
        AppError::Conflict("username already exists")
    } else {
        AppError::Internal(failure)
    }
}

/// A failed star insert: a foreign-key violation means the question does not
/// exist; anything else is internal.
pub fn star_error(failure: String) -> (r: AppError)
    ensures
        contains_text(failure@, "FOREIGN KEY"@) ==> r == AppError::NotFound("question not found"),
        !contains_text(failure@, "FOREIGN KEY"@) ==> r == AppError::Internal(failure),
{
    if contains(failure.as_str(), "FOREIGN KEY") {
        AppError::NotFound("question not found")
    } else {
        AppError::Internal(failure)
    }
}

/// The `unsolved` query parameter of the mark-solved request: the question is
/// marked unsolved only when the parameter is exactly `true`.
pub fn unsolved_requested(param: Option<&str>) -> (r: bool)
    ensures
        r == match param {
            Some(v) => v@ == "true"@,
            None => false,
        },
{
    match param {
        Some(v) => text_eq(v, "true"),
        None => false,
    }
}

/// The key a request is rate-limited under: its `authorization` header, else
/// the peer's IP address prefixed with `ip:`, else `anonymous`.
pub open spec fn rate_limit_key_of(authorization: Option<Seq<char>>, peer_ip: Option<Seq<char>>) -> Seq<
    char,
> {
    match authorization {
        Some(a) => a,
        None => match peer_ip {
            Some(ip) => "ip:"@ + ip,
            None => "anonymous"@,
        },
    }
}

/// The rate-limiting bucket of a request.
pub fn rate_limit_key(authorization: Option<&str>, peer_ip: Option<&str>) -> (r: String)
    ensures
        r@ == rate_limit_key_of(
            match authorization {
                Some(a) => Some(a@),
                None => None,
            },
            match peer_ip {
                Some(ip) => Some(ip@),
                None => None,
            },
        ),
{
    match authorization {
        Some(a) => owned(a),
        None => match peer_ip {
            Some(ip) => join2("ip:", ip),
            None => owned("anonymous"),
        },
    }
}

// ---------------------------------------------------------------------------
// API keys
// ---------------------------------------------------------------------------

/// Length of a generated API key.
pub const API_KEY_LEN: usize = 32;

/// An ASCII letter or digit.
pub open spec fn is_alphanumeric_ascii(c: char) -> bool {
    ('A' <= c && c <= 'Z') || ('a' <= c && c <= 'z') || ('0' <= c && c <= '9')
}

/// rand's standard random number generator.
#[verifier::external_type_specification]
#[verifier::external_body]
pub struct ExStdRng(rand::rngs::StdRng);

/// `SeedableRng::from_rng` for `rand::rngs::StdRng`, seeded from the
/// operating system's source (`rand::rngs::OsRng`): a generator, or `None`
/// when the operating system cannot supply a seed. Which of the two comes
/// back depends on the machine, so nothing is stated of it.
#[verifier::external_body]
fn seed_from_os() -> Option<rand::rngs::StdRng> {
    match <rand::rngs::StdRng as rand::SeedableRng>::from_rng(rand::rngs::OsRng) {
        Ok(rng) => Some(rng),
        Err(_) => None,
    }
}

/// `rand::Rng::sample` with the `Alphanumeric` distribution: one random
/// character drawn from `A-Z`, `a-z` and `0-9`. Which one is left to chance.
#[verifier::external_body]
fn sample_alphanumeric(rng: &mut rand::rngs::StdRng) -> (c: char)
    ensures
        is_alphanumeric_ascii(c),
{
    char::from(rand::Rng::sample(rng, rand::distributions::Alphanumeric))
}

/// Why no API key could be drawn.
pub open spec fn unseeded_message() -> Seq<char> {
    "random number generator could not be seeded"@
}

/// An API key drawn from `rng`: 32 ASCII letters and digits.
pub fn api_key_from_rng(rng: &mut rand::rngs::StdRng) -> (key: String)
    ensures
        key@.len() == API_KEY_LEN,
        forall|i: int| 0 <= i < key@.len() ==> is_alphanumeric_ascii(#[trigger] key@[i]),
{
    let mut key = String::new();
    let mut n: usize = 0;
    while n < API_KEY_LEN
        invariant
            n <= API_KEY_LEN,
            key@.len() == n,
            forall|i: int| 0 <= i < key@.len() ==> is_alphanumeric_ascii(#[trigger] key@[i]),
        decreases API_KEY_LEN - n,
    {
        let c = sample_alphanumeric(rng);
        push_char(&mut key, c);
        n = n + 1;
    }
    key
}

/// A fresh random API key of 32 ASCII letters and digits, drawn from a
/// generator seeded by the operating system, or an internal error when the
/// operating system cannot supply a seed.
pub fn generate_api_key() -> (r: Result<String, AppError>)
    ensures
        r matches Ok(key) ==> key@.len() == API_KEY_LEN && forall|i: int|
            0 <= i < key@.len() ==> is_alphanumeric_ascii(#[trigger] key@[i]),
        r matches Err(e) ==> e matches AppError::Internal(m) && m@ == unseeded_message(),
{
    match seed_from_os() {
        Some(mut rng) => Ok(api_key_from_rng(&mut rng)),
        None => Err(AppError::Internal(owned("random number generator could not be seeded"))),
    }
}

/// The question a request names must exist; `found` is what the database holds for it.
pub fn question_found<T>(found: Option<T>) -> (r: Result<T, AppError>)
    ensures
        match found {
            Some(q) => r == Ok::<T, AppError>(q),
            None => r == Err::<T, AppError>(AppError::NotFound("question not found")),
        },
{
    match found {
        Some(q) => Ok(q),
        None => Err(AppError::NotFound("question not found")),
    }
}

} // verus!
