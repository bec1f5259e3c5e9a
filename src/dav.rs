use vstd::prelude::*;
use crate::path::{ends_with_slash, ends_with_slash_exec};

verus! {

/// What the store reports of one object, as plain values.
pub struct ObjectInfo {
    /// The object's key.
    pub key: String,
    /// Its size in bytes.
    pub size: u64,
    /// Its entity tag.
    pub etag: String,
    /// Its upload time, as text.
    pub uploaded: String,
    /// The content type stored with it, if any.
    pub content_type: Option<String>,
    /// The custom `resource_type` metadata stored with it, if any.
    pub resource_type: Option<String>,
}

/// The DAV properties of one resource, rendered by `build`.
#[derive(Debug, Clone)]
pub struct DavBuilder {
    pub creation_date: String,
    pub get_content_length: Option<String>,
    pub get_content_type: String,
    pub get_etag: Option<String>,
    pub get_last_modified: String,
    pub resource_type: String,
    pub href: String,
}

/// The text of an optional value, empty when absent.
pub open spec fn text_or_empty(o: Option<String>) -> Seq<char> {
    match o {
        Some(s) => s@,
        None => Seq::empty(),
    }
}

pub open spec fn digit_char(d: nat) -> char {
    if d == 0 { '0' }
    else if d == 1 { '1' }
    else if d == 2 { '2' }
    else if d == 3 { '3' }
    else if d == 4 { '4' }
    else if d == 5 { '5' }
    else if d == 6 { '6' }
    else if d == 7 { '7' }
    else if d == 8 { '8' }
    else { '9' }
}

/// The decimal digits of `n`, most significant first, without leading zeros.
pub open spec fn decimal(n: nat) -> Seq<char>
    decreases n,
{
    if n < 10 {
        seq![digit_char(n)]
    } else {
        decimal(n / 10).push(digit_char(n % 10))
    }
}

pub open spec fn directory_content_type() -> Seq<char> {
    "httpd/unix-directory"@
}

pub open spec fn binary_content_type() -> Seq<char> {
    "application/octet-stream"@
}

/// The content type of a stored object: the stored one, else the
/// directory type for a marker key (ending in `/`) and the binary type
/// for a file.
pub open spec fn stored_content_type(o: ObjectInfo) -> Seq<char> {
    match o.content_type {
        Some(c) => c@,
        None => if ends_with_slash(o.key@) {
            directory_content_type()
        } else {
            binary_content_type()
        },
    }
}

pub open spec fn collection_type() -> Seq<char> {
    "<collection />"@
}

pub open spec fn lock_support() -> Seq<char> {
    "</getetag><supportedlock><lockentry><lockscope><exclusive/></lockscope><locktype><write/></locktype></lockentry><lockentry><lockscope><shared/></lockscope><locktype><write/></locktype></lockentry></supportedlock><lockdiscovery/><getcontenttype>"@
}

/// The `<response>` fragment of a resource with the given properties.
pub open spec fn fragment(
    href: Seq<char>,
    resource_type: Seq<char>,
    creation_date: Seq<char>,
    content_length: Seq<char>,
    last_modified: Seq<char>,
    etag: Seq<char>,
    content_type: Seq<char>,
) -> Seq<char> {
    "<response><href>"@ + href + "</href><propstat><prop><resourcetype>"@ + resource_type
        + "</resourcetype><creationdate>"@ + creation_date
        + "</creationdate><getcontentlength>"@ + content_length
        + "</getcontentlength><getlastmodified>"@ + last_modified
        + "</getlastmodified><getetag>"@ + etag + lock_support() + content_type
        + "</getcontenttype></prop><status>HTTP/1.1 200 OK</status></propstat></response>"@
}

/// The fragment that a builder renders.
pub open spec fn builder_fragment(b: DavBuilder) -> Seq<char> {
    fragment(
        b.href@,
        b.resource_type@,
        b.creation_date@,
        text_or_empty(b.get_content_length),
        b.get_last_modified@,
        text_or_empty(b.get_etag),
        b.get_content_type@,
    )
}

/// The fragment of a synthetic directory at `href`, dated `now`.
pub open spec fn directory_fragment(href: Seq<char>, now: Seq<char>) -> Seq<char> {
    fragment(href, collection_type(), now, Seq::empty(), now, Seq::empty(), directory_content_type())
}

/// The fragment of a stored object at `href`.
pub open spec fn object_fragment(href: Seq<char>, o: ObjectInfo) -> Seq<char> {
    fragment(
        href,
        text_or_empty(o.resource_type),
        o.uploaded@,
        decimal(o.size as nat),
        o.uploaded@,
        o.etag@,
        stored_content_type(o),
    )
}

/// Relies on chrono's `Utc::now` and its `Display` impl: the current time
/// as text, which always holds the date, a space and the zone.
#[verifier::external_body]
fn current_time_text() -> (r: String)
    ensures
        r@.len() > 0,
{
    chrono::Utc::now().to_string()
}

fn digit_text(d: u64) -> (r: &'static str)
    requires
        d < 10,
    ensures
        r@ == seq![digit_char(d as nat)],
{
    proof {
        reveal_strlit("0");
        reveal_strlit("1");
        reveal_strlit("2");
        reveal_strlit("3");
        reveal_strlit("4");
        reveal_strlit("5");
        reveal_strlit("6");
        reveal_strlit("7");
        reveal_strlit("8");
        reveal_strlit("9");
    }
    if d == 0 { "0" }
    else if d == 1 { "1" }
    else if d == 2 { "2" }
    else if d == 3 { "3" }
    else if d == 4 { "4" }
    else if d == 5 { "5" }
    else if d == 6 { "6" }
    else if d == 7 { "7" }
    else if d == 8 { "8" }
    else {
        assert(seq!['9'] =~= "9"@);
        "9"
    }
}

/// The decimal text of `n`.
pub fn decimal_text(n: u64) -> (r: String)
    ensures
        r@ == decimal(n as nat),
    decreases n,
{
    if n < 10 {
        String::from_str(digit_text(n))
    } else {
        let mut s = decimal_text(n / 10);
        s.append(digit_text(n % 10));
        s
    }
}

fn copy_text(s: &String) -> (r: String)
    ensures
        r@ == s@,
{
    String::from_str(s.as_str())
}

impl DavBuilder {
    /// A builder for a synthetic directory dated `now`, with an empty href.
    pub fn created_at(now: &str) -> (r: Self)
        ensures
            r.creation_date@ == now@,
            r.get_last_modified@ == now@,
            r.get_content_length is None,
            r.get_content_type@ == directory_content_type(),
            r.get_etag is None,
            r.resource_type@ == collection_type(),
            r.href@ == Seq::<char>::empty(),
    {
        DavBuilder {
            creation_date: String::from_str(now),
            get_content_length: None,
            get_content_type: String::from_str("httpd/unix-directory"),
            get_etag: None,
            get_last_modified: String::from_str(now),
            resource_type: String::from_str("<collection />"),
            href: String::new(),
        }
    }

    /// A builder for a synthetic directory dated with the current time.
    pub fn new() -> (r: Self)
        ensures
            r.creation_date@ == r.get_last_modified@,
            r.creation_date@.len() > 0,
            r.get_content_length is None,
            r.get_content_type@ == directory_content_type(),
            r.get_etag is None,
            r.resource_type@ == collection_type(),
            r.href@ == Seq::<char>::empty(),
    {
        let now = current_time_text();
        Self::created_at(now.as_str())
    }

    /// Sets the href, and the properties of `object` when there is one.
    /// Without an object it describes a synthetic directory, with the
    /// builder's creation date as both of its dates.
    pub fn object(self, href: &str, object: Option<&ObjectInfo>) -> (r: Self)
        ensures
            r.href@ == href@,
            match object {
                Some(o) => {
                    &&& r.creation_date@ == o.uploaded@
                    &&& r.get_last_modified@ == o.uploaded@
                    &&& r.get_content_length matches Some(l) && l@ == decimal(o.size as nat)
                    &&& r.get_content_type@ == stored_content_type(*o)
                    &&& r.get_etag matches Some(e) && e@ == o.etag@
                    &&& r.resource_type@ == text_or_empty(o.resource_type)
                },
                None => {
                    &&& r.creation_date@ == self.creation_date@
                    &&& r.get_last_modified@ == self.creation_date@
                    &&& r.get_content_length is None
                    &&& r.get_content_type@ == directory_content_type()
                    &&& r.get_etag is None
                    &&& r.resource_type@ == collection_type()
                },
            },
    {
        match object {
            Some(o) => DavBuilder {
                creation_date: copy_text(&o.uploaded),
                get_content_length: Some(decimal_text(o.size)),
                get_content_type: match &o.content_type {
                    Some(c) => copy_text(c),
                    None => if ends_with_slash_exec(o.key.as_str()) {
                        String::from_str("httpd/unix-directory")
                    } else {
                        String::from_str("application/octet-stream")
                    },
                },
                get_etag: Some(copy_text(&o.etag)),
                get_last_modified: copy_text(&o.uploaded),
                resource_type: match &o.resource_type {
                    Some(t) => copy_text(t),
                    None => String::new(),
                },
                href: String::from_str(href),
            },
            None => DavBuilder {
                creation_date: copy_text(&self.creation_date),
                get_content_length: None,
                get_content_type: String::from_str("httpd/unix-directory"),
                get_etag: None,
                get_last_modified: self.creation_date,
                resource_type: String::from_str("<collection />"),
                href: String::from_str(href),
            },
        }
    }

    /// Renders the `<response>` fragment of these properties.
    pub fn build(self) -> (r: String)
        ensures
            r@ == builder_fragment(self),
    {
        let mut r = String::from_str("<response><href>");
        r.append(self.href.as_str());
        r.append("</href><propstat><prop><resourcetype>");
        r.append(self.resource_type.as_str());
        r.append("</resourcetype><creationdate>");
        r.append(self.creation_date.as_str());
        r.append("</creationdate><getcontentlength>");
        match &self.get_content_length {
            Some(l) => r.append(l.as_str()),
            None => {},
        }
        r.append("</getcontentlength><getlastmodified>");
        r.append(self.get_last_modified.as_str());
        r.append("</getlastmodified><getetag>");
        match &self.get_etag {
            Some(e) => r.append(e.as_str()),
            None => {},
        }
        r.append(
            "</getetag><supportedlock><lockentry><lockscope><exclusive/></lockscope><locktype><write/></locktype></lockentry><lockentry><lockscope><shared/></lockscope><locktype><write/></locktype></lockentry></supportedlock><lockdiscovery/><getcontenttype>",
        );
        r.append(self.get_content_type.as_str());
        r.append("</getcontenttype></prop><status>HTTP/1.1 200 OK</status></propstat></response>");
        proof {
            assert(r@ =~= builder_fragment(self));
        }
        r
    }
}

/// The fragment of a synthetic directory at `href`, dated `now`.
pub fn render_directory(href: &str, now: &str) -> (r: String)
    ensures
        r@ == directory_fragment(href@, now@),
{
    DavBuilder::created_at(now).object(href, None).build()
}

/// The fragment of the stored object `o` at `href`.
pub fn render_object(href: &str, o: &ObjectInfo) -> (r: String)
    ensures
        r@ == object_fragment(href@, *o),
{
    DavBuilder::created_at("").object(href, Some(o)).build()
}

} // verus!
