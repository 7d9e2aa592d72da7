//! Response caching for the read-only endpoints: the cache key of a request,
//! how long an entry lives, and the decisions of the caching middleware, as a
//! state machine that the HTTP layer drives (it performs each action and
//! reports what came of it).
use vstd::prelude::*;
use crate::text::{
    before_first, from_first, has_prefix, join2, owned, prefix_before, strip_prefix, suffix_from,
    text_eq,
};

verus! {

/// A multiplexed asynchronous connection to a Redis server.
#[verifier::external_type_specification]
#[verifier::external_body]
pub struct ExMultiplexedConnection(redis::aio::MultiplexedConnection);

/// A Redis client: the parsed connection settings, not yet connected.
#[verifier::external_type_specification]
#[verifier::external_body]
pub struct ExRedisClient(redis::Client);

/// An error reported by the Redis client library.
#[verifier::external_type_specification]
#[verifier::external_body]
pub struct ExRedisError(redis::RedisError);

/// Whether the Redis client library accepts a text as a Redis URL
/// (`redis://`, `rediss://`, `redis+unix://` or `unix://`, with its parts).
pub uninterp spec fn redis_url_accepted(url: Seq<char>) -> bool;

/// `redis::Client::open` on a URL text: parses the connection settings
/// without connecting, or reports that the URL does not parse. The accepted
/// URL grammar is not restated; the contract ties success to the text alone.
#[verifier::external_body]
fn open_redis_client(redis_url: &str) -> (r: Result<redis::Client, redis::RedisError>)
    ensures
        r is Ok <==> redis_url_accepted(redis_url@),
{
    redis::Client::open(redis_url)
}

/// The Redis client for the configured URL; no connection is made yet.
pub fn redis_client(redis_url: &str) -> (r: Result<redis::Client, redis::RedisError>)
    ensures
        r is Ok <==> redis_url_accepted(redis_url@),
{
    open_redis_client(redis_url)
}

/// The response cache: a Redis connection, or none when Redis is not
/// configured or not reachable (then every lookup misses and nothing is stored).
#[derive(Clone)]
pub struct CacheState {
    redis: Option<redis::aio::MultiplexedConnection>,
}

impl CacheState {
    /// The connection held, if any.
    pub closed spec fn held(&self) -> Option<redis::aio::MultiplexedConnection> {
        self.redis
    }

    /// A cache over the given connection (the server also runs without one).
    pub fn new(redis: Option<redis::aio::MultiplexedConnection>) -> (r: CacheState)
        ensures
            r.held() == redis,
    {
        CacheState { redis }
    }

    /// The connection to send cache commands on, if any.
    pub fn connection(&self) -> (r: Option<&redis::aio::MultiplexedConnection>)
        ensures
            match r {
                Some(c) => self.held() == Some(*c),
                None => self.held() is None,
            },
    {
        match &self.redis {
            Some(c) => Some(c),
            None => None,
        }
    }
}

/// Seconds a cached list page stays valid.
pub const LIST_TTL_SECS: u64 = 60;

/// Seconds a cached single question stays valid.
pub const QUESTION_TTL_SECS: u64 = 300;

/// The cache key of a request: `qa:cache:{method}:{uri}:user:{api_key}` for a
/// request that carries an API key, `qa:cache:{method}:{uri}:anon` otherwise.
pub open spec fn cache_key_of(method: Seq<char>, uri: Seq<char>, api_key: Option<Seq<char>>) -> Seq<
    char,
> {
    let base = method + ":"@ + uri;
    match api_key {
        Some(k) => "qa:cache:"@ + base + ":user:"@ + k,
        None => "qa:cache:"@ + base + ":anon"@,
    }
}

/// The path of a request target: for an absolute-form URI
/// (`http://host/path?query` or `https://...`) the part from the first `/`
/// after the host up to the query; otherwise everything before the query.
pub open spec fn uri_path(uri: Seq<char>) -> Seq<char> {
    if has_prefix(uri, "http://"@) {
        from_first(before_first(uri.subrange("http://"@.len() as int, uri.len() as int), '?'), '/')
    } else if has_prefix(uri, "https://"@) {
        from_first(before_first(uri.subrange("https://"@.len() as int, uri.len() as int), '?'), '/')
    } else {
        before_first(uri, '?')
    }
}

/// The path of a request target (see `uri_path`).
pub fn request_target_path<'a>(uri: &'a str) -> (r: &'a str)
    ensures
        r@ == uri_path(uri@),
{
    match strip_prefix(uri, "http://") {
        Some(rest) => suffix_from(prefix_before(rest, '?'), '/'),
        None => match strip_prefix(uri, "https://") {
            Some(rest) => suffix_from(prefix_before(rest, '?'), '/'),
            None => prefix_before(uri, '?'),
        },
    }
}

/// Whether the URI names one of the paginated list endpoints.
pub open spec fn is_list_uri(uri: Seq<char>) -> bool {
    uri_path(uri) == "/questions/unsolved"@ || uri_path(uri) == "/questions/starred"@
}

/// Lifetime of a cache entry: 60 seconds for the list pages, 300 for the rest.
pub open spec fn ttl_of(uri: Seq<char>) -> u64 {
    if is_list_uri(uri) {
        LIST_TTL_SECS
    } else {
        QUESTION_TTL_SECS
    }
}

/// Builds the cache key of a request from its method, its URI and the API key
/// it carries in its `authorization` header, if any.
pub fn generate_cache_key(method: &str, uri: &str, api_key: Option<&str>) -> (r: String)
    ensures
        r@ == cache_key_of(method@, uri@, match api_key {
            Some(k) => Some(k@),
            None => None,
        }),
{
    let mut base = join2(method, ":");
    base.append(uri);
    let mut r = owned("qa:cache:");
    r.append(base.as_str());
    match api_key {
        Some(k) => {
            r.append(":user:");
            r.append(k);
        },
        None => {
            r.append(":anon");
        },
    }
    proof {
        let ghost b = method@ + ":"@ + uri@;
        assert(base@ =~= b);
    }
    assert(r@ =~= cache_key_of(method@, uri@, match api_key {
        Some(k) => Some(k@),
        None => None,
    }));
    r
}

/// How long the response to a request for `uri` is kept in the cache.
pub fn cache_ttl(uri: &str) -> (r: u64)
    ensures
        r == ttl_of(uri@),
{
    let path = request_target_path(uri);
    if text_eq(path, "/questions/unsolved") || text_eq(path, "/questions/starred") {
        LIST_TTL_SECS
    } else {
        QUESTION_TTL_SECS
    }
}

/// Where the caching middleware stands in handling one request.
#[derive(Debug, Clone, PartialEq, Eq)]
pub enum CachePhase {
    /// No request seen yet.
    Start,
    /// The cache was asked for `key`.
    AwaitingLookup { key: String, ttl: u64 },
    /// The request was handed to the inner handler after a cache miss.
    AwaitingHandler { key: String, ttl: u64 },
    /// The handler answered 200 and its body is being read.
    AwaitingBody { key: String, ttl: u64 },
    /// The response has been decided.
    Done,
}

/// What the middleware has learned from the outside.
#[derive(Debug, Clone, PartialEq, Eq)]
pub enum CacheEvent {
    /// A request arrived, with its method, URI and `authorization` header text.
    Request { method: String, uri: String, authorization: Option<String> },
    /// The cache answered a lookup (`None` on a miss or when no cache is reachable).
    Looked { cached: Option<String> },
    /// The inner handler answered with this status code.
    Handled { status: u16 },
    /// The handler's body was read (as text), or could not be read.
    BodyRead { body: Option<String> },
}

/// What the middleware asks the HTTP layer to do next.
#[derive(Debug, Clone, PartialEq, Eq)]
pub enum CacheAction {
    /// Run the inner handler and return its response untouched; the cache is not used.
    PassThrough,
    /// Look `key` up in the cache.
    Lookup { key: String },
    /// Answer 200 with `body`, `content-type: application/json` and `x-cache: HIT`,
    /// without running the handler.
    ServeHit { body: String },
    /// Run the inner handler.
    RunHandler,
    /// Read the body of the handler's response.
    ReadBody,
    /// Return the handler's response unchanged.
    ReturnResponse,
    /// Store `value` under `key` for `ttl` seconds and return the handler's
    /// response, with the same body, marked `x-cache: MISS`.
    StoreAndServeMiss { key: String, value: String, ttl: u64 },
    /// Return the handler's status and headers with an empty body.
    ServeEmpty,
    /// The event does not belong to this phase; nothing to do.
    Ignore,
}

/// The ghost view of a phase.
pub enum PhaseView {
    Start,
    AwaitingLookup { key: Seq<char>, ttl: u64 },
    AwaitingHandler { key: Seq<char>, ttl: u64 },
    AwaitingBody { key: Seq<char>, ttl: u64 },
    Done,
}

/// The ghost view of an event.
pub enum EventView {
    Request { method: Seq<char>, uri: Seq<char>, authorization: Option<Seq<char>> },
    Looked { cached: Option<Seq<char>> },
    Handled { status: u16 },
    BodyRead { body: Option<Seq<char>> },
}

/// The ghost view of an action.
pub enum ActionView {
    PassThrough,
    Lookup { key: Seq<char> },
    ServeHit { body: Seq<char> },
    RunHandler,
    ReadBody,
    ReturnResponse,
    StoreAndServeMiss { key: Seq<char>, value: Seq<char>, ttl: u64 },
    ServeEmpty,
    Ignore,
}

pub open spec fn opt_view(o: Option<String>) -> Option<Seq<char>> {
    match o {
        Some(s) => Some(s@),
        None => None,
    }
}

impl View for CachePhase {
    type V = PhaseView;

    open spec fn view(&self) -> PhaseView {
        match self {
            CachePhase::Start => PhaseView::Start,
            CachePhase::AwaitingLookup { key, ttl } => PhaseView::AwaitingLookup {
                key: key@,
                ttl: *ttl,
            },
            CachePhase::AwaitingHandler { key, ttl } => PhaseView::AwaitingHandler {
                key: key@,
                ttl: *ttl,
            },
            CachePhase::AwaitingBody { key, ttl } => PhaseView::AwaitingBody { key: key@, ttl: *ttl },
            CachePhase::Done => PhaseView::Done,
        }
    }
}

impl View for CacheEvent {
    type V = EventView;

    open spec fn view(&self) -> EventView {
        match self {
            CacheEvent::Request { method, uri, authorization } => EventView::Request {
                method: method@,
                uri: uri@,
                authorization: opt_view(*authorization),
            },
            CacheEvent::Looked { cached } => EventView::Looked { cached: opt_view(*cached) },
            CacheEvent::Handled { status } => EventView::Handled { status: *status },
            CacheEvent::BodyRead { body } => EventView::BodyRead { body: opt_view(*body) },
        }
    }
}

impl View for CacheAction {
    type V = ActionView;

    open spec fn view(&self) -> ActionView {
        match self {
            CacheAction::PassThrough => ActionView::PassThrough,
            CacheAction::Lookup { key } => ActionView::Lookup { key: key@ },
            CacheAction::ServeHit { body } => ActionView::ServeHit { body: body@ },
            CacheAction::RunHandler => ActionView::RunHandler,
            CacheAction::ReadBody => ActionView::ReadBody,
            CacheAction::ReturnResponse => ActionView::ReturnResponse,
            CacheAction::StoreAndServeMiss { key, value, ttl } => ActionView::StoreAndServeMiss {
                key: key@,
                value: value@,
                ttl: *ttl,
            },
            CacheAction::ServeEmpty => ActionView::ServeEmpty,
            CacheAction::Ignore => ActionView::Ignore,
        }
    }
}

/// The HTTP status code of a successful response.
pub const STATUS_OK: u16 = 200;

/// One decision of the caching middleware: from where it stands and what it
/// has just learned, where it goes and what it asks for.
///
/// Only `GET` requests use the cache; each user's responses are cached under
/// a key of their own; a hit is served from the cache; on a miss the handler
/// runs, and only a `200` response is stored.
pub open spec fn next_step(phase: PhaseView, event: EventView) -> (PhaseView, ActionView) {
    match (phase, event) {
        (PhaseView::Start, EventView::Request { method, uri, authorization }) => {
            if method == "GET"@ {
                let key = cache_key_of(method, uri, authorization);
                (PhaseView::AwaitingLookup { key, ttl: ttl_of(uri) }, ActionView::Lookup { key })
            } else {
                (PhaseView::Done, ActionView::PassThrough)
            }
        },
        (PhaseView::AwaitingLookup { key, ttl }, EventView::Looked { cached }) => {
            match cached {
                Some(body) => (PhaseView::Done, ActionView::ServeHit { body }),
                None => (PhaseView::AwaitingHandler { key, ttl }, ActionView::RunHandler),
            }
        },
        (PhaseView::AwaitingHandler { key, ttl }, EventView::Handled { status }) => {
            if status == STATUS_OK {
                (PhaseView::AwaitingBody { key, ttl }, ActionView::ReadBody)
            } else {
                (PhaseView::Done, ActionView::ReturnResponse)
            }
        },
        (PhaseView::AwaitingBody { key, ttl }, EventView::BodyRead { body }) => {
            match body {
                Some(value) => (
                    PhaseView::Done,
                    ActionView::StoreAndServeMiss { key, value, ttl },
                ),
                None => (PhaseView::Done, ActionView::ServeEmpty),
            }
        },
        _ => (phase, ActionView::Ignore),
    }
}

/// Advances the caching middleware by one event.
pub fn cache_step(phase: CachePhase, event: CacheEvent) -> (r: (CachePhase, CacheAction))
    ensures
        (r.0@, r.1@) == next_step(phase@, event@),
{
    match phase {
        CachePhase::Start => match event {
            CacheEvent::Request { method, uri, authorization } => {
                if text_eq(method.as_str(), "GET") {
                    let auth = match &authorization {
                        Some(a) => Some(a.as_str()),
                        None => None,
                    };
                    let key = generate_cache_key(method.as_str(), uri.as_str(), auth);
                    let ttl = cache_ttl(uri.as_str());
                    let k2 = key.clone();
                    (CachePhase::AwaitingLookup { key, ttl }, CacheAction::Lookup { key: k2 })
                } else {
                    (CachePhase::Done, CacheAction::PassThrough)
                }
            },
            _ => (CachePhase::Start, CacheAction::Ignore),
        },
        CachePhase::AwaitingLookup { key, ttl } => match event {
            CacheEvent::Looked { cached } => match cached {
                Some(body) => (CachePhase::Done, CacheAction::ServeHit { body }),
                None => (CachePhase::AwaitingHandler { key, ttl }, CacheAction::RunHandler),
            },
            _ => (CachePhase::AwaitingLookup { key, ttl }, CacheAction::Ignore),
        },
        CachePhase::AwaitingHandler { key, ttl } => match event {
            CacheEvent::Handled { status } => {
                if status == STATUS_OK {
                    (CachePhase::AwaitingBody { key, ttl }, CacheAction::ReadBody)
                } else {
                    (CachePhase::Done, CacheAction::ReturnResponse)
                }
            },
            _ => (CachePhase::AwaitingHandler { key, ttl }, CacheAction::Ignore),
        },
        CachePhase::AwaitingBody { key, ttl } => match event {
            CacheEvent::BodyRead { body } => match body {
                Some(value) => (CachePhase::Done, CacheAction::StoreAndServeMiss { key, value, ttl }),
                None => (CachePhase::Done, CacheAction::ServeEmpty),
            },
            _ => (CachePhase::AwaitingBody { key, ttl }, CacheAction::Ignore),
        },
        CachePhase::Done => (CachePhase::Done, CacheAction::Ignore),
    }
}

// ---------------------------------------------------------------------------
// Laws
// ---------------------------------------------------------------------------

/// Requests with a method other than `GET` never touch the cache: the handler
/// runs and its response is returned as it is.
pub proof fn law_non_get_bypasses_cache(
    method: Seq<char>,
    uri: Seq<char>,
    authorization: Option<Seq<char>>,
)
    requires
        method != "GET"@,
    ensures
        next_step(PhaseView::Start, EventView::Request { method, uri, authorization }) == (
            PhaseView::Done,
            ActionView::PassThrough,
        ),
{
}

/// A cache hit is answered with exactly the stored text, and the handler does not run.
pub proof fn law_hit_serves_stored_body(key: Seq<char>, ttl: u64, stored: Seq<char>)
    ensures
        next_step(PhaseView::AwaitingLookup { key, ttl }, EventView::Looked { cached: Some(stored) })
            == (PhaseView::Done, ActionView::ServeHit { body: stored }),
{
}

/// Only a `200` response is read and stored; any other status is returned unchanged.
pub proof fn law_only_ok_responses_stored(key: Seq<char>, ttl: u64, status: u16)
    requires
        status != STATUS_OK,
    ensures
        next_step(PhaseView::AwaitingHandler { key, ttl }, EventView::Handled { status }) == (
            PhaseView::Done,
            ActionView::ReturnResponse,
        ),
{
}

/// On a miss for a `GET` request whose handler answers `200` with body `b`,
/// the middleware stores exactly `b`, under the key of that request, for the
/// lifetime that its URI calls for.
pub proof fn law_miss_stores_handler_body(
    uri: Seq<char>,
    authorization: Option<Seq<char>>,
    body: Seq<char>,
)
    ensures
        ({
            let s1 = next_step(
                PhaseView::Start,
                EventView::Request { method: "GET"@, uri, authorization },
            );
            let s2 = next_step(s1.0, EventView::Looked { cached: None });
            let s3 = next_step(s2.0, EventView::Handled { status: STATUS_OK });
            let s4 = next_step(s3.0, EventView::BodyRead { body: Some(body) });
            &&& s1.1 == ActionView::Lookup { key: cache_key_of("GET"@, uri, authorization) }
            &&& s2.1 == ActionView::RunHandler
            &&& s3.1 == ActionView::ReadBody
            &&& s4 == (
                PhaseView::Done,
                ActionView::StoreAndServeMiss {
                    key: cache_key_of("GET"@, uri, authorization),
                    value: body,
                    ttl: ttl_of(uri),
                },
            )
        }),
{
}

/// A body stored on a miss is what a later identical request is answered
/// with: the second request looks up the very key the first one stored under,
/// and when the cache gives back the stored text (as Redis does until the
/// entry expires), it is served as a hit without running the handler.
pub proof fn law_stored_body_served_on_repeat(
    uri: Seq<char>,
    authorization: Option<Seq<char>>,
    body: Seq<char>,
)
    ensures
        ({
            let first = next_step(
                PhaseView::Start,
                EventView::Request { method: "GET"@, uri, authorization },
            );
            let stored_key = cache_key_of("GET"@, uri, authorization);
            let again = next_step(
                PhaseView::Start,
                EventView::Request { method: "GET"@, uri, authorization },
            );
            &&& again.1 == ActionView::Lookup { key: stored_key }
            &&& next_step(again.0, EventView::Looked { cached: Some(body) }) == (
                PhaseView::Done,
                ActionView::ServeHit { body },
            )
            &&& first == again
        }),
{
    law_miss_stores_handler_body(uri, authorization, body);
}

/// Each user's responses are cached apart: for the same method and URI, two
/// requests share a cache key only when they carry the same API key (or both
/// carry none).
pub proof fn law_cache_key_separates_users(
    method: Seq<char>,
    uri: Seq<char>,
    a: Option<Seq<char>>,
    b: Option<Seq<char>>,
)
    requires
        cache_key_of(method, uri, a) == cache_key_of(method, uri, b),
    ensures
        a == b,
{
    reveal_strlit(":user:");
    reveal_strlit(":anon");
    reveal_strlit("qa:cache:");
    reveal_strlit(":");
    let p = "qa:cache:"@ + (method + ":"@ + uri);
    let n = p.len() as int;
    let ka = cache_key_of(method, uri, a);
    let kb = cache_key_of(method, uri, b);
    match (a, b) {
        (Some(x), Some(y)) => {
            assert(ka == p + ":user:"@ + x);
            assert(kb == p + ":user:"@ + y);
            assert(ka.subrange(n + 6, ka.len() as int) =~= x);
            assert(kb.subrange(n + 6, kb.len() as int) =~= y);
        },
        (Some(x), None) => {
            assert(ka == p + ":user:"@ + x);
            assert(kb == p + ":anon"@);
            assert(ka[n + 1] == 'u');
            assert(kb[n + 1] == 'a');
        },
        (None, Some(y)) => {
            assert(kb == p + ":user:"@ + y);
            assert(ka == p + ":anon"@);
            assert(kb[n + 1] == 'u');
            assert(ka[n + 1] == 'a');
        },
        (None, None) => {},
    }
}

/// List pages expire after 60 seconds and single questions after 300.
pub proof fn law_ttl_by_endpoint(uri: Seq<char>)
    ensures
        is_list_uri(uri) ==> ttl_of(uri) == 60,
        !is_list_uri(uri) ==> ttl_of(uri) == 300,
{
}

} // verus!
