use vstd::prelude::*;
use crate::tree::texts;

verus! {

/// One response header.
pub struct Header {
    pub name: String,
    pub value: String,
}

/// The headers as pairs of texts.
pub open spec fn pairs(v: Seq<Header>) -> Seq<(Seq<char>, Seq<char>)> {
    v.map_values(|h: Header| (h.name@, h.value@))
}

fn header(name: &str, value: &str) -> (r: Header)
    ensures
        r.name@ == name@,
        r.value@ == value@,
{
    Header { name: String::from_str(name), value: String::from_str(value) }
}

fn push_header(v: &mut Vec<Header>, name: &str, value: &str)
    ensures
        pairs(final(v)@) == pairs(old(v)@).push((name@, value@)),
{
    let ghost before = v@;
    v.push(header(name, value));
    proof {
        assert(pairs(v@) =~= pairs(before).push((name@, value@)));
    }
}

fn push_text(v: &mut Vec<String>, s: &str)
    ensures
        texts(final(v)@) == texts(old(v)@).push(s@),
{
    let ghost before = v@;
    v.push(String::from_str(s));
    proof {
        assert(texts(v@) =~= texts(before).push(s@));
    }
}

/// The advertised methods.
pub open spec fn advertised_methods() -> Seq<Seq<char>> {
    seq!["GET"@, "DELETE"@, "PROPPATCH"@, "HEAD"@, "OPTIONS"@, "MKCOL"@, "PROPFIND"@, "COPY"@, "MOVE"@]
}

/// The advertised methods, in order.
pub fn methods() -> (r: Vec<String>)
    ensures
        texts(r@) == advertised_methods(),
{
    let mut v: Vec<String> = Vec::new();
    push_text(&mut v, "GET");
    push_text(&mut v, "DELETE");
    push_text(&mut v, "PROPPATCH");
    push_text(&mut v, "HEAD");
    push_text(&mut v, "OPTIONS");
    push_text(&mut v, "MKCOL");
    push_text(&mut v, "PROPFIND");
    push_text(&mut v, "COPY");
    push_text(&mut v, "MOVE");
    proof {
        assert(texts(v@) =~= advertised_methods());
    }
    v
}

/// The request headers that cross-origin clients may send.
pub open spec fn allowed_request_headers() -> Seq<Seq<char>> {
    seq!["Authorization"@, "Content-Type"@, "Depth"@, "Overwrite"@, "Destination"@, "Range"@]
}

/// The request headers that cross-origin clients may send.
pub fn allowed_headers() -> (r: Vec<String>)
    ensures
        texts(r@) == allowed_request_headers(),
{
    let mut v: Vec<String> = Vec::new();
    push_text(&mut v, "Authorization");
    push_text(&mut v, "Content-Type");
    push_text(&mut v, "Depth");
    push_text(&mut v, "Overwrite");
    push_text(&mut v, "Destination");
    push_text(&mut v, "Range");
    proof {
        assert(texts(v@) =~= allowed_request_headers());
    }
    v
}

/// The response headers that cross-origin clients may read.
pub open spec fn exposed_response_headers() -> Seq<Seq<char>> {
    seq![
        "Content-Length"@, "Content-Type"@, "Content-Range"@, "Dav"@, "Date"@, "ETag"@,
        "Last-Modified"@, "Location"@, "Lock-Token"@, "X-WebDAV-Status"@,
    ]
}

/// The response headers that cross-origin clients may read.
pub fn exposed_headers() -> (r: Vec<String>)
    ensures
        texts(r@) == exposed_response_headers(),
{
    let mut v: Vec<String> = Vec::new();
    push_text(&mut v, "Content-Length");
    push_text(&mut v, "Content-Type");
    push_text(&mut v, "Content-Range");
    push_text(&mut v, "Dav");
    push_text(&mut v, "Date");
    push_text(&mut v, "ETag");
    push_text(&mut v, "Last-Modified");
    push_text(&mut v, "Location");
    push_text(&mut v, "Lock-Token");
    push_text(&mut v, "X-WebDAV-Status");
    proof {
        assert(texts(v@) =~= exposed_response_headers());
    }
    v
}

/// How long a browser may cache the cross-origin answer, in seconds.
pub const CORS_MAX_AGE: u64 = 86400;

/// The texts joined with `, ` between them.
pub open spec fn joined(v: Seq<Seq<char>>) -> Seq<char>
    decreases v.len(),
{
    if v.len() == 0 {
        Seq::empty()
    } else if v.len() == 1 {
        v[0]
    } else {
        joined(v.drop_last()) + ", "@ + v.last()
    }
}

/// The texts joined with `, ` between them.
pub fn join_texts(v: &Vec<String>) -> (r: String)
    ensures
        r@ == joined(texts(v@)),
{
    let mut r = String::new();
    let mut i: usize = 0;
    while i < v.len()
        invariant
            i <= v@.len(),
            r@ == joined(texts(v@.subrange(0, i as int))),
        decreases v@.len() - i,
    {
        proof {
            assert(texts(v@.subrange(0, i + 1)).drop_last() =~= texts(v@.subrange(0, i as int)));
        }
        if i > 0 {
            r.append(", ");
        }
        r.append(v[i].as_str());
        proof {
            if i == 0 {
                assert(r@ =~= texts(v@.subrange(0, 1))[0]);
            }
        }
        i = i + 1;
    }
    proof {
        assert(v@.subrange(0, i as int) =~= v@);
    }
    r
}

/// The headers of an OPTIONS answer, which is always 204 and needs no
/// store: `DAV: 1, 2` and `Allow` with the advertised methods.
pub fn options_headers() -> (r: Vec<Header>)
    ensures
        pairs(r@) == seq![("DAV"@, "1, 2"@), ("Allow"@, joined(advertised_methods()))],
{
    let mut h: Vec<Header> = Vec::new();
    push_header(&mut h, "DAV", "1, 2");
    let allow = join_texts(&methods());
    push_header(&mut h, "Allow", allow.as_str());
    proof {
        assert(pairs(h@) =~= seq![("DAV"@, "1, 2"@), ("Allow"@, joined(advertised_methods()))]);
    }
    h
}

/// The HTTP metadata stored with an object, as plain values.
pub struct HttpMeta {
    pub content_type: Option<String>,
    pub content_disposition: Option<String>,
    pub content_encoding: Option<String>,
    pub content_language: Option<String>,
    pub cache_control: Option<String>,
    /// The cache expiry time, as text.
    pub cache_expiry: Option<String>,
}

/// The header `name: value` when the value is present, else nothing.
pub open spec fn optional_pair(name: Seq<char>, value: Option<String>) -> Seq<(Seq<char>, Seq<char>)> {
    match value {
        Some(v) => seq![(name, v@)],
        None => Seq::empty(),
    }
}

/// The headers of a GET answer: the content type (binary when none is
/// stored), then each other stored field that is present.
pub open spec fn metadata_pairs(m: HttpMeta) -> Seq<(Seq<char>, Seq<char>)> {
    seq![("Content-Type"@, match m.content_type {
        Some(c) => c@,
        None => "application/octet-stream"@,
    })] + optional_pair("Content-Disposition"@, m.content_disposition)
        + optional_pair("Content-Encoding"@, m.content_encoding)
        + optional_pair("Content-Language"@, m.content_language)
        + optional_pair("Cache-Control"@, m.cache_control)
        + optional_pair("Cache-Expires"@, m.cache_expiry)
}

fn push_optional(v: &mut Vec<Header>, name: &str, value: &Option<String>)
    ensures
        pairs(final(v)@) == pairs(old(v)@) + optional_pair(name@, *value),
{
    match value {
        Some(s) => push_header(v, name, s.as_str()),
        None => {
            assert(pairs(v@) =~= pairs(v@) + optional_pair(name@, *value));
        },
    }
}

/// The headers that a GET answer carries for an object with metadata `m`.
pub fn content_headers(m: &HttpMeta) -> (r: Vec<Header>)
    ensures
        pairs(r@) == metadata_pairs(*m),
{
    let mut h: Vec<Header> = Vec::new();
    match &m.content_type {
        Some(c) => push_header(&mut h, "Content-Type", c.as_str()),
        None => push_header(&mut h, "Content-Type", "application/octet-stream"),
    }
    push_optional(&mut h, "Content-Disposition", &m.content_disposition);
    push_optional(&mut h, "Content-Encoding", &m.content_encoding);
    push_optional(&mut h, "Content-Language", &m.content_language);
    push_optional(&mut h, "Cache-Control", &m.cache_control);
    push_optional(&mut h, "Cache-Expires", &m.cache_expiry);
    proof {
        assert(pairs(h@) =~= metadata_pairs(*m));
    }
    h
}

} // verus!
