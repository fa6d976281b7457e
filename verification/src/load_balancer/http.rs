use crate::load_balancer::load_balancer::{LbError, LoadBalancer};
use crate::load_balancer::strategy::{default_constructor, policy_named};
use crate::text::{decimal, push_decimal, str_equals};
use vstd::prelude::*;

verus! {

/// The string that the member `key` of the JSON object in `body` holds:
/// `None` where `body` is not a JSON object, has no such member, or the
/// member is not a string.
pub uninterp spec fn json_member_string(body: Seq<u8>, key: Seq<char>) -> Option<Seq<char>>;

/// Parses `body` as a JSON object (`serde_json::from_slice`) and takes the
/// string held by its member `key`. The contract claims only that the result
/// is a function of `body` and `key`; what JSON parsing accepts is left to
/// serde_json.
#[verifier::external_body]
fn json_string_member(body: &[u8], key: &str) -> (r: Option<String>)
    ensures
        r is None <==> json_member_string(body@, key@) is None,
        r matches Some(s) ==> json_member_string(body@, key@) == Some(s@),
{
    match serde_json::from_slice::<std::collections::HashMap<String, serde_json::Value>>(body) {
        Ok(mut members) => match members.remove(key) {
            Some(serde_json::Value::String(s)) => Some(s),
            _ => None,
        },
        Err(_) => None,
    }
}

/// Whether the URI parser of hyper (`hyper::Uri`'s `FromStr`) accepts `s`.
pub uninterp spec fn uri_accepts(s: Seq<char>) -> bool;

/// Asks hyper's URI parser (`hyper::Uri::from_str`) whether `s` is a URI it
/// accepts. The contract claims only that the answer is a function of `s`;
/// which strings are URIs is left to hyper.
#[verifier::external_body]
fn uri_parses(s: &str) -> (r: bool)
    ensures
        r == uri_accepts(s@),
{
    s.parse::<hyper::Uri>().is_ok()
}

/// The path and query of a request, or nothing where it has none.
pub open spec fn path_and_query_or_empty(path_and_query: Option<&str>) -> Seq<char> {
    match path_and_query {
        Some(pq) => pq@,
        None => Seq::<char>::empty(),
    }
}

/// Where the balancer sends a request.
#[derive(Clone, Copy, Debug, PartialEq, Eq, Structural)]
pub enum Route {
    /// `POST /strategy`: switch the strategy.
    SetStrategy,
    /// Anything else: forward to a worker.
    Proxy,
}

/// Routes a request by its method and path.
pub fn route(method: &str, path: &str) -> (r: Route)
    ensures
        r == (if method@ == "POST"@ && path@ == "/strategy"@ {
            Route::SetStrategy
        } else {
            Route::Proxy
        }),
{
    if str_equals(method, "POST") && str_equals(path, "/strategy") {
        Route::SetStrategy
    } else {
        Route::Proxy
    }
}

/// The answer to a strategy request: an HTTP status and a body.
pub struct StrategyReply {
    pub status: u16,
    pub message: &'static str,
}

/// Answers a strategy request whose body names `strategy` (or names none):
/// no name is an error and changes nothing; the name of a policy switches
/// to a fresh strategy for it and is answered `200 ok`; any other name is
/// answered `400 unknown strategy` and changes nothing.
pub fn strategy_reply<H>(lb: &mut LoadBalancer<H>, strategy: Option<String>) -> (r: Result<
    StrategyReply,
    LbError,
>)
    ensures
        final(lb).ports() == old(lb).ports(),
        final(lb).pool() == old(lb).pool(),
        strategy is None ==> r == Err::<StrategyReply, LbError>(LbError::StrategyNotInRequest)
            && final(lb).active() == old(lb).active(),
        strategy matches Some(name) ==> {
            let switched = policy_named(name@) is Some;
            &&& r matches Ok(reply) && (if switched {
                reply.status == 200 && reply.message@ == "ok"@
            } else {
                reply.status == 400 && reply.message@ == "unknown strategy"@
            })
            &&& switched ==> final(lb).active() == default_constructor(
                policy_named(name@)->0,
            ).builds()
            &&& !switched ==> final(lb).active() == old(lb).active()
        },
{
    match strategy {
        None => Err(LbError::StrategyNotInRequest),
        Some(name) => {
            let result = lb.set_strategy_handler(name.as_str());
            if result.is_ok() {
                Ok(StrategyReply { status: 200, message: "ok" })
            } else {
                Ok(StrategyReply { status: 400, message: "unknown strategy" })
            }
        },
    }
}

/// Handles a strategy request: takes the member `strategy` of the JSON
/// object in `body` and answers as `strategy_reply` does.
pub fn set_strategy_handler<H>(lb: &mut LoadBalancer<H>, body: &[u8]) -> (r: Result<
    StrategyReply,
    LbError,
>)
    ensures
        final(lb).ports() == old(lb).ports(),
        final(lb).pool() == old(lb).pool(),
        json_member_string(body@, "strategy"@) is None ==> r == Err::<StrategyReply, LbError>(
            LbError::StrategyNotInRequest,
        ) && final(lb).active() == old(lb).active(),
        json_member_string(body@, "strategy"@) matches Some(name) ==> {
            let switched = policy_named(name) is Some;
            &&& r matches Ok(reply) && (if switched {
                reply.status == 200 && reply.message@ == "ok"@
            } else {
                reply.status == 400 && reply.message@ == "unknown strategy"@
            })
            &&& switched ==> final(lb).active() == default_constructor(
                policy_named(name)->0,
            ).builds()
            &&& !switched ==> final(lb).active() == old(lb).active()
        },
{
    let field = json_string_member(body, "strategy");
    strategy_reply(lb, field)
}

/// The address of the worker on `port`, followed by the request's path and
/// query where it has one.
pub fn worker_uri(port: u16, path_and_query: Option<&str>) -> (uri: String)
    ensures
        uri@ == "http://localhost:"@ + decimal(port as nat) + match path_and_query {
            Some(pq) => pq@,
            None => Seq::<char>::empty(),
        },
{
    let mut uri = String::from_str("http://localhost:");
    push_decimal(&mut uri, port as u64);
    match path_and_query {
        Some(pq) => {
            uri.append(pq);
        },
        None => {
            assert(uri@ =~= uri@ + Seq::<char>::empty());
        },
    }
    uri
}

/// The address a request is forwarded to when the worker on `port` serves
/// it: `worker_uri`, where hyper's URI parser accepts it; `None` (the
/// request fails) where it does not.
pub fn worker_target(port: u16, path_and_query: Option<&str>) -> (r: Option<String>)
    ensures
        r is Some <==> uri_accepts(
            "http://localhost:"@ + decimal(port as nat) + path_and_query_or_empty(path_and_query),
        ),
        r matches Some(u) ==> u@ == "http://localhost:"@ + decimal(port as nat)
            + path_and_query_or_empty(path_and_query),
{
    let uri = worker_uri(port, path_and_query);
    if uri_parses(uri.as_str()) {
        Some(uri)
    } else {
        None
    }
}

/// What a worker on `port` answers to a request with `method` and the path
/// and query `path_and_query` (`/` where the request has none).
pub fn echo_message(port: u16, method: &str, path_and_query: Option<&str>) -> (m: String)
    ensures
        m@ == "worker on port "@ + decimal(port as nat) + " received "@ + method@ + " "@
            + match path_and_query {
            Some(pq) => pq@,
            None => "/"@,
        },
{
    let mut m = String::from_str("worker on port ");
    push_decimal(&mut m, port as u64);
    m.append(" received ");
    m.append(method);
    m.append(" ");
    match path_and_query {
        Some(pq) => m.append(pq),
        None => m.append("/"),
    }
    m
}

/// Whether a line read by a worker from its standard input asks it to shut
/// down.
pub fn is_shutdown_line(line: &str) -> (r: bool)
    ensures
        r == (line@ == "shutdown\n"@),
{
    str_equals(line, "shutdown\n")
}

} // verus!
