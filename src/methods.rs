use vstd::prelude::*;
use crate::dav::{object_fragment, render_directory, render_object, directory_fragment, ObjectInfo};
use crate::path::{ends_with_slash, ends_with_slash_exec, key_from_path, key_of};
use crate::gate::same_text;
use crate::tree::{multistatus, slash_then, texts};

verus! {

/// The request methods that have a handler.
#[derive(Debug, Clone, Copy, PartialEq, Eq, Structural)]
pub enum DavMethod {
    Get,
    Delete,
    Proppatch,
    Put,
    Head,
    Options,
    Mkcol,
    Propfind,
    Copy,
    Move,
    Lock,
    Unlock,
}

/// The handler that a method name selects, if any.
pub open spec fn method_named(m: Seq<char>) -> Option<DavMethod> {
    if m == "GET"@ { Some(DavMethod::Get) }
    else if m == "DELETE"@ { Some(DavMethod::Delete) }
    else if m == "PROPPATCH"@ { Some(DavMethod::Proppatch) }
    else if m == "PUT"@ { Some(DavMethod::Put) }
    else if m == "HEAD"@ { Some(DavMethod::Head) }
    else if m == "OPTIONS"@ { Some(DavMethod::Options) }
    else if m == "MKCOL"@ { Some(DavMethod::Mkcol) }
    else if m == "PROPFIND"@ { Some(DavMethod::Propfind) }
    else if m == "COPY"@ { Some(DavMethod::Copy) }
    else if m == "MOVE"@ { Some(DavMethod::Move) }
    else if m == "LOCK"@ { Some(DavMethod::Lock) }
    else if m == "UNLOCK"@ { Some(DavMethod::Unlock) }
    else { None }
}

/// The handler for a request method; `None` answers 405.
pub fn route(method: &str) -> (r: Option<DavMethod>)
    ensures
        r == method_named(method@),
{
    if same_text(method, "GET") { Some(DavMethod::Get) }
    else if same_text(method, "DELETE") { Some(DavMethod::Delete) }
    else if same_text(method, "PROPPATCH") { Some(DavMethod::Proppatch) }
    else if same_text(method, "PUT") { Some(DavMethod::Put) }
    else if same_text(method, "HEAD") { Some(DavMethod::Head) }
    else if same_text(method, "OPTIONS") { Some(DavMethod::Options) }
    else if same_text(method, "MKCOL") { Some(DavMethod::Mkcol) }
    else if same_text(method, "PROPFIND") { Some(DavMethod::Propfind) }
    else if same_text(method, "COPY") { Some(DavMethod::Copy) }
    else if same_text(method, "MOVE") { Some(DavMethod::Move) }
    else if same_text(method, "LOCK") { Some(DavMethod::Lock) }
    else if same_text(method, "UNLOCK") { Some(DavMethod::Unlock) }
    else { None }
}

pub const NOT_IMPLEMENTED: u16 = 501;
pub const FORBIDDEN: u16 = 403;
pub const NOT_FOUND: u16 = 404;
pub const METHOD_NOT_ALLOWED: u16 = 405;
pub const CONFLICT: u16 = 409;
pub const CREATED: u16 = 201;
pub const NO_CONTENT: u16 = 204;

/// What a PROPFIND request asks of the store.
pub enum PropfindPlan {
    /// Look up the object at this key and describe it alone.
    Object(String),
    /// Describe the directory at this key, without its children.
    SelfOnly(String),
    /// List everything under this key and describe its children.
    Listing(String),
    /// Answer with this status and no work.
    Reject(u16),
}

/// The plan for a PROPFIND of `path` with the given `Depth` header.
pub open spec fn propfind_spec(path: Seq<char>, depth: Option<Seq<char>>) -> PropfindPlanSpec {
    let key = key_of(path);
    if key.len() > 0 && !ends_with_slash(path) {
        PropfindPlanSpec::Object(key)
    } else {
        let d = match depth {
            Some(d) => d,
            None => "1"@,
        };
        if d == "0"@ {
            PropfindPlanSpec::SelfOnly(key)
        } else if d == "1"@ {
            PropfindPlanSpec::Listing(key)
        } else if d == "infinity"@ {
            PropfindPlanSpec::Reject(501)
        } else {
            PropfindPlanSpec::Reject(403)
        }
    }
}

/// The mathematical form of a `PropfindPlan`.
pub enum PropfindPlanSpec {
    Object(Seq<char>),
    SelfOnly(Seq<char>),
    Listing(Seq<char>),
    Reject(u16),
}

impl PropfindPlan {
    pub open spec fn view(&self) -> PropfindPlanSpec {
        match self {
            PropfindPlan::Object(k) => PropfindPlanSpec::Object(k@),
            PropfindPlan::SelfOnly(k) => PropfindPlanSpec::SelfOnly(k@),
            PropfindPlan::Listing(k) => PropfindPlanSpec::Listing(k@),
            PropfindPlan::Reject(s) => PropfindPlanSpec::Reject(*s),
        }
    }
}

/// Decides a PROPFIND of `path`. A path with a key and no trailing slash
/// names an object. Otherwise it names a directory, and the `Depth`
/// header (one when absent) picks the answer: `0` the directory alone,
/// `1` its children too, `infinity` 501, anything else 403.
pub fn propfind_plan(path: &str, depth: Option<&str>) -> (r: PropfindPlan)
    ensures
        r.view() == propfind_spec(path@, match depth {
            Some(d) => Some(d@),
            None => None,
        }),
{
    let key = key_from_path(path);
    if key.as_str().unicode_len() > 0 && !ends_with_slash_exec(path) {
        return PropfindPlan::Object(key);
    }
    let d = match depth {
        Some(d) => String::from_str(d),
        None => String::from_str("1"),
    };
    if same_text(d.as_str(), "0") {
        PropfindPlan::SelfOnly(key)
    } else if same_text(d.as_str(), "1") {
        PropfindPlan::Listing(key)
    } else if same_text(d.as_str(), "infinity") {
        PropfindPlan::Reject(NOT_IMPLEMENTED)
    } else {
        PropfindPlan::Reject(FORBIDDEN)
    }
}

/// A PROPFIND of a directory path with `Depth: infinity` is answered 501,
/// and one with any `Depth` other than `0`, `1` and `infinity` is answered
/// 403.
pub proof fn lemma_propfind_depth_rejections(path: Seq<char>, depth: Seq<char>)
    requires
        ends_with_slash(path) || key_of(path).len() == 0,
    ensures
        depth == "infinity"@ ==> propfind_spec(path, Some(depth)) == PropfindPlanSpec::Reject(501),
        depth != "0"@ && depth != "1"@ && depth != "infinity"@ ==> propfind_spec(path, Some(depth))
            == PropfindPlanSpec::Reject(403),
{
    reveal_strlit("0");
    reveal_strlit("1");
    reveal_strlit("infinity");
    assert("infinity"@.len() == 8);
    assert("0"@.len() == 1);
    assert("1"@.len() == 1);
}

fn wrap_multistatus(body: &String) -> (r: String)
    ensures
        r@ == multistatus(body@),
{
    let mut page = String::from_str("<?xml version=\"1.0\" encoding=\"utf-8\"?><multistatus xmlns=\"DAV:\">");
    page.append(body.as_str());
    page.append("</multistatus>");
    page
}

/// The PROPFIND document for the object at `key`, given what the store
/// found there; `None` (answered 404) when nothing is stored there. The
/// document holds exactly one fragment, whose href is `/` and the key.
pub fn propfind_object(key: &str, found: Option<&ObjectInfo>) -> (r: Option<String>)
    ensures
        found is None <==> r is None,
        found matches Some(o) ==> r matches Some(t) && t@ == multistatus(object_fragment("/"@ + key@, *o)),
{
    match found {
        Some(o) => {
            let href = slash_then(key);
            let f = render_object(href.as_str(), o);
            Some(wrap_multistatus(&f))
        },
        None => None,
    }
}

/// The depth-zero PROPFIND document of the directory at `key`, dated `now`.
pub fn propfind_self(key: &str, now: &str) -> (r: String)
    ensures
        r@ == multistatus(directory_fragment("/"@ + key@, now@)),
{
    let href = slash_then(key);
    let f = render_directory(href.as_str(), now);
    wrap_multistatus(&f)
}

/// What a GET request asks of the store.
pub enum GetPlan {
    /// A directory path: answer the static not-found page.
    DirectoryPage,
    /// A `Range` header was sent: answer 405.
    RangeRejected,
    /// Fetch the object at this key.
    Fetch(String),
}

/// The mathematical form of a `GetPlan`.
pub enum GetPlanSpec {
    DirectoryPage,
    RangeRejected,
    Fetch(Seq<char>),
}

impl GetPlan {
    pub open spec fn view(&self) -> GetPlanSpec {
        match self {
            GetPlan::DirectoryPage => GetPlanSpec::DirectoryPage,
            GetPlan::RangeRejected => GetPlanSpec::RangeRejected,
            GetPlan::Fetch(k) => GetPlanSpec::Fetch(k@),
        }
    }
}

/// The plan for a GET of `path`, with or without a `Range` header.
pub open spec fn get_spec(path: Seq<char>, has_range: bool) -> GetPlanSpec {
    if ends_with_slash(path) {
        GetPlanSpec::DirectoryPage
    } else if has_range {
        GetPlanSpec::RangeRejected
    } else {
        GetPlanSpec::Fetch(key_of(path))
    }
}

/// Decides a GET of `path`. A path that ends with `/` gets the static
/// page; otherwise any `Range` header is refused with 405, whatever it
/// holds; otherwise the object at the path's key is fetched.
pub fn get_plan(path: &str, has_range: bool) -> (r: GetPlan)
    ensures
        r.view() == get_spec(path@, has_range),
        !ends_with_slash(path@) && has_range ==> r is RangeRejected,
{
    if ends_with_slash_exec(path) {
        GetPlan::DirectoryPage
    } else if has_range {
        GetPlan::RangeRejected
    } else {
        GetPlan::Fetch(key_from_path(path))
    }
}

/// The static page that a GET of a directory answers.
pub fn directory_page() -> (r: &'static str)
    ensures
        r@ == "<!DOCTYPE HTML PUBLIC \"-//IETF//DTD HTML 2.0//EN\"><html><head><title>404 Not Found</title></head><body><h1>Not Found</h1><p>The requested URL was not found on this server.</p></body></html>"@,
{
    "<!DOCTYPE HTML PUBLIC \"-//IETF//DTD HTML 2.0//EN\"><html><head><title>404 Not Found</title></head><body><h1>Not Found</h1><p>The requested URL was not found on this server.</p></body></html>"
}

/// The key that a PUT of `path` stores to, if it has one.
pub open spec fn put_key(path: Seq<char>) -> Option<Seq<char>> {
    if key_of(path).len() == 0 {
        None
    } else {
        Some(key_of(path))
    }
}

/// The key that a PUT of `path` stores to; `None` (answered 405) for the
/// empty key.
pub fn put_target(path: &str) -> (r: Option<String>)
    ensures
        key_of(path@).len() == 0 <==> r is None,
        r matches Some(k) ==> put_key(path@) == Some(k@),
{
    let key = key_from_path(path);
    if key.as_str().unicode_len() == 0 {
        None
    } else {
        Some(key)
    }
}

/// The marker key of a directory created by MKCOL of `path`.
pub open spec fn marker_of(path: Seq<char>) -> Seq<char> {
    key_of(path) + "/"@
}

/// The answer to MKCOL when the marker is, or is not, stored already.
pub open spec fn mkcol_answer(marker_exists: bool) -> u16 {
    if marker_exists { 409 } else { 201 }
}

/// The store after MKCOL of `path`: the marker is added when absent.
pub open spec fn mkcol_effect(store: Set<Seq<char>>, path: Seq<char>) -> Set<Seq<char>> {
    store.insert(marker_of(path))
}

/// The marker key that MKCOL of `path` creates: the key followed by `/`;
/// `None` (answered 405) for the empty key.
pub fn mkcol_marker(path: &str) -> (r: Option<String>)
    ensures
        key_of(path@).len() == 0 <==> r is None,
        r matches Some(m) ==> m@ == marker_of(path@),
{
    let mut key = key_from_path(path);
    if key.as_str().unicode_len() == 0 {
        None
    } else {
        key.append("/");
        Some(key)
    }
}

/// Whether MKCOL writes its marker: only when none is stored yet. The
/// answer is 201 when it does and 409 when it does not.
pub fn mkcol_status(marker_exists: bool) -> (r: u16)
    ensures
        r == mkcol_answer(marker_exists),
{
    if marker_exists {
        CONFLICT
    } else {
        CREATED
    }
}

/// The keys that DELETE of directory `key` removes, given the keys listed
/// under it: all of them, then `key` itself; `None` (answered 404) when
/// nothing is listed.
pub fn delete_targets(key: &str, listed: &Vec<String>) -> (r: Option<Vec<String>>)
    ensures
        listed@.len() == 0 <==> r is None,
        r matches Some(v) ==> texts(v@) == texts(listed@).push(key@),
{
    if listed.len() == 0 {
        return None;
    }
    let mut out: Vec<String> = Vec::new();
    let mut i: usize = 0;
    while i < listed.len()
        invariant
            i <= listed@.len(),
            texts(out@) == texts(listed@.subrange(0, i as int)),
        decreases listed@.len() - i,
    {
        let ghost before = out@;
        out.push(String::from_str(listed[i].as_str()));
        proof {
            assert(texts(out@) =~= texts(before).push(listed@[i as int]@));
            assert(texts(listed@.subrange(0, i + 1)) =~= texts(listed@.subrange(0, i as int)).push(listed@[i as int]@));
        }
        i = i + 1;
    }
    proof {
        assert(listed@.subrange(0, i as int) =~= listed@);
    }
    let ghost before = out@;
    out.push(String::from_str(key));
    proof {
        assert(texts(out@) =~= texts(before).push(key@));
    }
    Some(out)
}

/// The body of a LOCK answer: a canned active lock that echoes the
/// request's `Depth` (`0` when absent) and `Timeout` (`Infinite` when
/// absent).
pub open spec fn lock_document(depth: Seq<char>, timeout: Seq<char>) -> Seq<char> {
    "<?xml version=\"1.0\" encoding=\"utf-8\"?><D:prop xmlns:D=\"DAV:\"><D:lockdiscovery><D:activelock><D:locktype><D:write/></D:locktype><D:lockscope><D:exclusive/></D:lockscope><D:depth>"@
        + depth
        + "</D:depth><ns0:owner xmlns:ns0=\"DAV:\"><ns0:href>http://www.apple.com/webdav_fs/</ns0:href></ns0:owner><D:timeout>"@
        + timeout + "</D:timeout></D:activelock></D:lockdiscovery></D:prop>"@
}

/// The body of a LOCK answer for the given `Depth` and `Timeout` headers.
pub fn lock_body(depth: Option<&str>, timeout: Option<&str>) -> (r: String)
    ensures
        r@ == lock_document(
            match depth { Some(d) => d@, None => "0"@ },
            match timeout { Some(t) => t@, None => "Infinite"@ },
        ),
{
    let mut r = String::from_str(
        "<?xml version=\"1.0\" encoding=\"utf-8\"?><D:prop xmlns:D=\"DAV:\"><D:lockdiscovery><D:activelock><D:locktype><D:write/></D:locktype><D:lockscope><D:exclusive/></D:lockscope><D:depth>",
    );
    match depth {
        Some(d) => r.append(d),
        None => r.append("0"),
    }
    r.append("</D:depth><ns0:owner xmlns:ns0=\"DAV:\"><ns0:href>http://www.apple.com/webdav_fs/</ns0:href></ns0:owner><D:timeout>");
    match timeout {
        Some(t) => r.append(t),
        None => r.append("Infinite"),
    }
    r.append("</D:timeout></D:activelock></D:lockdiscovery></D:prop>");
    r
}


/// The keys that DELETE of `key` removes: the key alone when an object is
/// stored there; otherwise as `delete_targets` says for the keys listed
/// under it, `None` (answered 404) when nothing is listed.
pub fn delete_plan(key: &str, exists: bool, listed: &Vec<String>) -> (r: Option<Vec<String>>)
    ensures
        exists ==> (r matches Some(v) && texts(v@) == seq![key@]),
        !exists ==> (listed@.len() == 0 <==> r is None),
        !exists ==> (r matches Some(v) ==> texts(v@) == texts(listed@).push(key@)),
{
    if exists {
        let mut v: Vec<String> = Vec::new();
        v.push(String::from_str(key));
        proof {
            assert(texts(v@) =~= seq![key@]);
        }
        Some(v)
    } else {
        delete_targets(key, listed)
    }
}

/// The status of a route that needs neither the request nor the store:
/// 405 for an unknown method, 204 for UNLOCK, 501 for PROPPATCH, COPY and
/// MOVE; `None` for the methods whose handler does the work.
pub open spec fn fixed_status_spec(m: Option<DavMethod>) -> Option<u16> {
    match m {
        None => Some(405),
        Some(DavMethod::Unlock) => Some(204),
        Some(DavMethod::Proppatch) | Some(DavMethod::Copy) | Some(DavMethod::Move) => Some(501),
        _ => None,
    }
}

/// The status of a route that needs neither the request nor the store.
pub fn fixed_status(m: Option<DavMethod>) -> (r: Option<u16>)
    ensures
        r == fixed_status_spec(m),
{
    match m {
        None => Some(METHOD_NOT_ALLOWED),
        Some(DavMethod::Unlock) => Some(NO_CONTENT),
        Some(DavMethod::Proppatch) | Some(DavMethod::Copy) | Some(DavMethod::Move) => Some(NOT_IMPLEMENTED),
        _ => None,
    }
}

/// The message sent with an error status.
pub open spec fn reason_text(status: u16) -> Seq<char> {
    if status == 403 { "Forbidden"@ }
    else if status == 404 { "Not Found"@ }
    else if status == 405 { "Method Not Allowed"@ }
    else if status == 409 { "Conflict"@ }
    else if status == 501 { "Not Implemented"@ }
    else { "Error"@ }
}

/// The message sent with an error status.
pub fn reason(status: u16) -> (r: &'static str)
    ensures
        r@ == reason_text(status),
{
    if status == FORBIDDEN { "Forbidden" }
    else if status == NOT_FOUND { "Not Found" }
    else if status == METHOD_NOT_ALLOWED { "Method Not Allowed" }
    else if status == CONFLICT { "Conflict" }
    else if status == NOT_IMPLEMENTED { "Not Implemented" }
    else { "Error" }
}

} // verus!
