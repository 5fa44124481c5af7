//! Credentials and request signing. A signed request carries the API key, the
//! timestamp in epoch milliseconds and a signature: the lower-case hex of
//! HMAC-SHA256, keyed with the secret, over timestamp, method and path.
use hmac::Mac;
use vstd::prelude::*;

use crate::text::{dec_str, dec_text, hex_of};

verus! {

#[verifier::external_type_specification]
#[verifier::external_body]
pub struct ExInvalidLength(hmac::digest::InvalidLength);

/// The HMAC-SHA256 tag of the UTF-8 bytes of `msg`, keyed with the UTF-8 bytes
/// of `key`.
pub uninterp spec fn hmac_sha256_of(key: Seq<char>, msg: Seq<char>) -> Seq<u8>;

/// Relies on hmac's Hmac<Sha256> (sha2): new_from_slice accepts a key of any
/// length (a key longer than a block is hashed first) and so always returns
/// `Ok`; chain_update then finalize give the 32-byte tag, which depends on key
/// and message alone.
#[verifier::external_body]
fn hmac_sha256(key: &str, msg: &str) -> (r: Result<Vec<u8>, hmac::digest::InvalidLength>)
    ensures
        r is Ok,
        r matches Ok(tag) ==> tag@ == hmac_sha256_of(key@, msg@) && tag@.len() == 32,
{
    let mac = hmac::Hmac::<sha2::Sha256>::new_from_slice(key.as_bytes())?;
    Ok(mac.chain_update(msg.as_bytes()).finalize().into_bytes().to_vec())
}

/// Relies on hex::encode: two lower-case hexadecimal digits per byte, high
/// nibble first.
#[verifier::external_body]
fn hex_encode(bytes: &Vec<u8>) -> (r: String)
    ensures
        r@ == hex_of(bytes@),
{
    hex::encode(bytes)
}

/// Relies on zeroize's Zeroize for String: the bytes are overwritten with
/// zeros, then the string is cleared.
#[verifier::external_body]
fn zeroize_string(s: &mut String)
    ensures
        final(s)@ == Seq::<char>::empty(),
{
    zeroize::Zeroize::zeroize(s)
}

/// Why a secret cannot key the signature.
#[derive(Clone, Copy, Debug, PartialEq, Eq, Structural)]
pub enum BadSecret {
    /// The signing primitive refuses the secret's length.
    InvalidLength,
}

/// An API key and its secret.
pub struct Credentials {
    key: String,
    secret: String,
}

impl View for Credentials {
    /// The key and the secret.
    type V = (Seq<char>, Seq<char>);

    closed spec fn view(&self) -> (Seq<char>, Seq<char>) {
        (self.key@, self.secret@)
    }
}

impl Credentials {
    pub fn new(key: String, secret: String) -> (r: Credentials)
        ensures
            r@ == (key@, secret@),
    {
        Credentials { key, secret }
    }

    /// Overwrites the key and the secret and leaves both empty; called when
    /// the credentials are no longer needed.
    pub fn wipe(&mut self)
        ensures
            final(self)@ == (Seq::<char>::empty(), Seq::<char>::empty()),
    {
        zeroize_string(&mut self.key);
        zeroize_string(&mut self.secret);
    }
}

/// The host that the paths are relative to.
pub open spec fn base_url() -> Seq<char> {
    "https://api.bitvavo.com"@
}

/// The request path that is signed: the endpoint under the `/v2/` root.
pub open spec fn slug(endpoint: Seq<char>) -> Seq<char> {
    "/v2/"@ + endpoint
}

/// What is signed: the timestamp in decimal, the method, then the path.
pub open spec fn signing_message(timestamp: u64, endpoint: Seq<char>) -> Seq<char> {
    dec_str(timestamp as nat) + "GET"@ + slug(endpoint)
}

/// The signature of a GET of `endpoint` at `timestamp` with `secret`.
pub open spec fn signature_of(secret: Seq<char>, timestamp: u64, endpoint: Seq<char>) -> Seq<char> {
    hex_of(hmac_sha256_of(secret, signing_message(timestamp, endpoint)))
}

/// Signs a GET of `endpoint` at `timestamp`.
pub fn signature(secret: &str, timestamp: u64, endpoint: &str) -> (r: Result<String, BadSecret>)
    ensures
        r is Ok,
        r matches Ok(s) ==> s@ == signature_of(secret@, timestamp, endpoint@),
{
    let mut message = dec_text(timestamp);
    message.append("GET");
    message.append("/v2/");
    message.append(endpoint);
    assert(message@ =~= signing_message(timestamp, endpoint@));
    match hmac_sha256(secret, message.as_str()) {
        Ok(tag) => Ok(hex_encode(&tag)),
        Err(_) => Err(BadSecret::InvalidLength),
    }
}

/// A GET request ready to be sent: its URL and its headers.
#[derive(Debug)]
pub struct Request {
    pub url: String,
    pub headers: Vec<(String, String)>,
}

impl View for Request {
    type V = (Seq<char>, Seq<(Seq<char>, Seq<char>)>);

    open spec fn view(&self) -> (Seq<char>, Seq<(Seq<char>, Seq<char>)>) {
        (self.url@, self.headers@.map_values(|h: (String, String)| (h.0@, h.1@)))
    }
}

/// The headers that authenticate a GET of `endpoint` at `timestamp`.
pub open spec fn auth_headers(key: Seq<char>, secret: Seq<char>, timestamp: u64, endpoint: Seq<char>) -> Seq<(Seq<char>, Seq<char>)> {
    seq![
        ("Bitvavo-Access-Key"@, key),
        ("Bitvavo-Access-Timestamp"@, dec_str(timestamp as nat)),
        ("Bitvavo-Access-Signature"@, signature_of(secret, timestamp, endpoint)),
    ]
}

/// The model of the request for `endpoint` at `timestamp`: signed where there
/// are credentials, bare where there are none.
pub open spec fn request_of(
    credentials: Option<(Seq<char>, Seq<char>)>,
    endpoint: Seq<char>,
    timestamp: u64,
) -> (Seq<char>, Seq<(Seq<char>, Seq<char>)>) {
    (
        base_url() + slug(endpoint),
        match credentials {
            Some(c) => auth_headers(c.0, c.1, timestamp, endpoint),
            None => seq![],
        },
    )
}

pub open spec fn credentials_view(c: Option<&Credentials>) -> Option<(Seq<char>, Seq<char>)> {
    match c {
        Some(c) => Some(c@),
        None => None,
    }
}

fn text_of(s: &str) -> (r: String)
    ensures
        r@ == s@,
{
    String::from_str(s)
}

/// The request for `endpoint` (a path with its query string, relative to the
/// `/v2/` root) at `timestamp` (epoch milliseconds).
pub fn prepare_request(credentials: Option<&Credentials>, endpoint: &str, timestamp: u64) -> (r: Result<Request, BadSecret>)
    ensures
        r is Ok,
        r matches Ok(req) ==> req@ == request_of(credentials_view(credentials), endpoint@, timestamp),
{
    let mut url = text_of("https://api.bitvavo.com");
    url.append("/v2/");
    url.append(endpoint);
    assert(url@ =~= base_url() + slug(endpoint@));
    let mut headers: Vec<(String, String)> = Vec::new();
    match credentials {
        Some(c) => {
            let sig = signature(c.secret.as_str(), timestamp, endpoint)?;
            headers.push((text_of("Bitvavo-Access-Key"), c.key.clone()));
            headers.push((text_of("Bitvavo-Access-Timestamp"), dec_text(timestamp)));
            headers.push((text_of("Bitvavo-Access-Signature"), sig));
            proof {
                assert(c@ == (c.key@, c.secret@));
            }
        },
        None => {},
    }
    let req = Request { url, headers };
    proof {
        assert(req@.1 =~= request_of(credentials_view(credentials), endpoint@, timestamp).1);
    }
    Ok(req)
}

/// Signing is a function of its inputs: two requests prepared from the same
/// credentials, endpoint and timestamp are the same, header for header.
pub proof fn lemma_signing_deterministic(
    credentials: Option<(Seq<char>, Seq<char>)>,
    endpoint: Seq<char>,
    timestamp: u64,
    a: Request,
    b: Request,
)
    requires
        a@ == request_of(credentials, endpoint, timestamp),
        b@ == request_of(credentials, endpoint, timestamp),
    ensures
        a@ == b@,
{
}

} // verus!
