use vstd::prelude::*;

use crate::message::PartialThingMessage;

verus! {

/// Where the local REST interface listens.
#[derive(Debug, PartialEq)]
pub struct RestConfig {
    /// Address to serve on; `127.0.0.1` keeps the interface local.
    pub address: String,
    pub port: u16,
    /// Number of worker threads.
    pub workers: u16,
}

impl Default for RestConfig {
    fn default() -> (r: Self)
        ensures
            r.address@ == "127.0.0.1"@,
            r.port == 8000,
            r.workers == 8,
    {
        RestConfig { address: "127.0.0.1".to_owned(), port: 8000, workers: 8 }
    }
}

/// The same settings, as a web framework's launcher takes them.
#[derive(Debug, PartialEq)]
pub struct RocketConfig {
    pub address: String,
    pub port: u16,
    pub workers: u16,
}

impl Default for RocketConfig {
    fn default() -> (r: Self)
        ensures
            r.address@ == "127.0.0.1"@,
            r.port == 8000,
            r.workers == 8,
    {
        RocketConfig { address: "127.0.0.1".to_owned(), port: 8000, workers: 8 }
    }
}

/// Body of the answer to a token check.
#[derive(Debug, PartialEq)]
pub struct TokenCheckResponse {
    pub email: String,
    pub valid_token: bool,
}

/// Body of a message list, sent or received.
#[derive(Debug)]
pub struct IncomingMessages {
    pub msgs: Vec<PartialThingMessage>,
}

/// The HTTP methods that the interface serves.
#[derive(Debug, Clone, Copy, PartialEq, Eq, Structural)]
pub enum Method {
    Get,
    Post,
    Delete,
}

/// The operations of the interface.
#[derive(Debug, Clone, Copy, PartialEq, Eq, Structural)]
pub enum Endpoint {
    TokenCheck,
    Login,
    Logout,
    PostThing,
    UnpairThing,
    DeleteThing,
    PostMessages,
    GetMessages,
}

/// A request matched to its operation, with the serial number that the
/// path carries (empty where the path carries none).
#[derive(Debug)]
pub struct Route {
    pub endpoint: Endpoint,
    pub serial: String,
}

/// Every path is mounted under this prefix.
pub open spec fn api_prefix() -> Seq<char> {
    "/api/v1"@
}

pub open spec fn starts_with(s: Seq<char>, p: Seq<char>) -> bool {
    p.len() <= s.len() && s.take(p.len() as int) == p
}

/// A serial number as one path segment: not empty, no `/`.
pub open spec fn is_segment(s: Seq<char>) -> bool {
    s.len() > 0 && forall|i: int| 0 <= i < s.len() ==> s[i] != '/'
}

/// `rest` is `head` followed by one path segment, which is returned.
pub open spec fn segment_after(rest: Seq<char>, head: Seq<char>) -> Option<Seq<char>> {
    if starts_with(rest, head) && is_segment(rest.skip(head.len() as int)) {
        Some(rest.skip(head.len() as int))
    } else {
        None
    }
}

/// The operation that a request asks for, and its serial number.
pub open spec fn route_of(method: Method, path: Seq<char>) -> Option<(Endpoint, Seq<char>)> {
    if !starts_with(path, api_prefix()) {
        None
    } else {
        let rest = path.skip(api_prefix().len() as int);
        let none = Seq::<char>::empty();
        match method {
            Method::Get => if rest == "/token/check"@ {
                Some((Endpoint::TokenCheck, none))
            } else if let Some(s) = segment_after(rest, "/messages/"@) {
                Some((Endpoint::GetMessages, s))
            } else {
                None
            },
            Method::Post => if rest == "/login"@ {
                Some((Endpoint::Login, none))
            } else if rest == "/logout"@ {
                Some((Endpoint::Logout, none))
            } else if rest == "/things"@ {
                Some((Endpoint::PostThing, none))
            } else if let Some(s) = segment_after(rest, "/messages/"@) {
                Some((Endpoint::PostMessages, s))
            } else {
                None
            },
            Method::Delete => if let Some(s) = segment_after(rest, "/things/unpair/"@) {
                Some((Endpoint::UnpairThing, s))
            } else if let Some(s) = segment_after(rest, "/things/"@) {
                Some((Endpoint::DeleteThing, s))
            } else {
                None
            },
        }
    }
}

fn has_prefix(s: &str, p: &str) -> (r: bool)
    ensures
        r == starts_with(s@, p@),
{
    let n = p.unicode_len();
    if n > s.unicode_len() {
        return false;
    }
    let mut i: usize = 0;
    while i < n
        invariant
            n == p@.len(),
            n <= s@.len(),
            i <= n,
            forall|j: int| 0 <= j < i ==> s@[j] == p@[j],
        decreases n - i,
    {
        if s.get_char(i) != p.get_char(i) {
            assert(s@.take(n as int)[i as int] != p@[i as int]);
            return false;
        }
        i = i + 1;
    }
    assert(s@.take(n as int) =~= p@);
    true
}

fn same_text(s: &str, p: &str) -> (r: bool)
    ensures
        r == (s@ == p@),
{
    if s.unicode_len() != p.unicode_len() {
        return false;
    }
    let b = has_prefix(s, p);
    proof {
        assert(s@ =~= s@.take(p@.len() as int));
    }
    b
}

/// The text after `head`, when `s` starts with it and the rest is one
/// path segment.
fn segment(s: &str, head: &str) -> (r: Option<String>)
    ensures
        match segment_after(s@, head@) {
            Some(seg) => r matches Some(x) && x@ == seg,
            None => r is None,
        },
{
    if !has_prefix(s, head) {
        return None;
    }
    let n = s.unicode_len();
    let from = head.unicode_len();
    let rest = s.substring_char(from, n);
    if from == n {
        return None;
    }
    assert(rest@ =~= s@.skip(head@.len() as int));
    let m = rest.unicode_len();
    let mut i: usize = 0;
    while i < m
        invariant
            m == rest@.len(),
            rest@ == s@.skip(head@.len() as int),
            starts_with(s@, head@),
            i <= m,
            forall|j: int| 0 <= j < i ==> rest@[j] != '/',
        decreases m - i,
    {
        if rest.get_char(i) == '/' {
            return None;
        }
        i = i + 1;
    }
    Some(rest.to_owned())
}

fn route_entry(endpoint: Endpoint, serial: String) -> (r: Option<Route>)
    ensures
        r matches Some(x) && x.endpoint == endpoint && x.serial == serial,
{
    Some(Route { endpoint, serial })
}

/// Matches a request to the operation it asks for.
pub fn route(method: Method, path: &str) -> (r: Option<Route>)
    ensures
        match route_of(method, path@) {
            Some((e, s)) => r matches Some(x) && x.endpoint == e && x.serial@ == s,
            None => r is None,
        },
{
    proof {
        reveal_strlit("/api/v1");
    }
    if !has_prefix(path, "/api/v1") {
        return None;
    }
    let rest = path.substring_char(7, path.unicode_len());
    assert(rest@ == path@.skip(api_prefix().len() as int));
    match method {
        Method::Get => {
            if same_text(rest, "/token/check") {
                route_entry(Endpoint::TokenCheck, String::new())
            } else if let Some(s) = segment(rest, "/messages/") {
                route_entry(Endpoint::GetMessages, s)
            } else {
                None
            }
        },
        Method::Post => {
            if same_text(rest, "/login") {
                route_entry(Endpoint::Login, String::new())
            } else if same_text(rest, "/logout") {
                route_entry(Endpoint::Logout, String::new())
            } else if same_text(rest, "/things") {
                route_entry(Endpoint::PostThing, String::new())
            } else if let Some(s) = segment(rest, "/messages/") {
                route_entry(Endpoint::PostMessages, s)
            } else {
                None
            }
        },
        Method::Delete => {
            if let Some(s) = segment(rest, "/things/unpair/") {
                route_entry(Endpoint::UnpairThing, s)
            } else if let Some(s) = segment(rest, "/things/") {
                route_entry(Endpoint::DeleteThing, s)
            } else {
                None
            }
        },
    }
}

} // verus!
