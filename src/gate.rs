use vstd::prelude::*;

verus! {

/// The standard, padded base64 encoding of the UTF-8 bytes of a text.
pub uninterp spec fn base64_standard(s: Seq<char>) -> Seq<char>;

/// Relies on base64's `STANDARD` engine `encode`: the padded standard
/// encoding of the bytes, which is empty exactly for empty input.
#[verifier::external_body]
fn encode_base64(s: &str) -> (r: String)
    ensures
        r@ == base64_standard(s@),
        s@.len() == 0 <==> r@.len() == 0,
{
    base64::Engine::encode(&base64::engine::general_purpose::STANDARD, s)
}

/// The one `Authorization` value that lets a request through.
pub open spec fn credential(user: Seq<char>, pass: Seq<char>) -> Seq<char> {
    "Basic "@ + base64_standard(user + ":"@ + pass)
}

/// Whether two texts are equal.
pub fn same_text(a: &str, b: &str) -> (r: bool)
    ensures
        r == (a@ == b@),
{
    String::from_str(a) == String::from_str(b)
}

/// The `Authorization` value that the configured user and password give:
/// `Basic ` followed by the base64 of `user:pass`.
pub fn credential_header(user: &str, pass: &str) -> (r: String)
    ensures
        r@ == credential(user@, pass@),
{
    let mut pair = String::from_str(user);
    pair.append(":");
    pair.append(pass);
    let encoded = encode_base64(pair.as_str());
    let mut r = String::from_str("Basic ");
    r.append(encoded.as_str());
    r
}

/// Whether a request whose `Authorization` header is `header` may pass,
/// given the configured credential header `expected`.
pub fn header_matches(header: Option<&str>, expected: &str) -> (r: bool)
    ensures
        r == (header matches Some(h) && h@ == expected@),
{
    match header {
        Some(h) => same_text(h, expected),
        None => false,
    }
}

/// Whether a request whose `Authorization` header is `header` may pass:
/// exactly when it equals the credential header of `user` and `pass`.
/// Every other value, and a missing header, is refused alike.
pub fn authorize(header: Option<&str>, user: &str, pass: &str) -> (r: bool)
    ensures
        r == (header matches Some(h) && h@ == credential(user@, pass@)),
{
    let expected = credential_header(user, pass);
    header_matches(header, expected.as_str())
}

/// The status of a refused request.
pub const UNAUTHORIZED: u16 = 401;

/// The challenge header sent with a refused request.
pub fn challenge() -> (r: (String, String))
    ensures
        r.0@ == "WWW-Authenticate"@,
        r.1@ == "Basic realm=\"webdav\""@,
{
    (String::from_str("WWW-Authenticate"), String::from_str("Basic realm=\"webdav\""))
}

/// The allowed origin of a response: the request's `Origin`, else `*`.
pub fn cors_origin(origin: Option<&str>) -> (r: String)
    ensures
        r@ == (match origin {
            Some(o) => o@,
            None => "*"@,
        }),
{
    match origin {
        Some(o) => String::from_str(o),
        None => String::from_str("*"),
    }
}

} // verus!
