//! API keys for the HTTP transports, and the decision on each request's
//! `Authorization` header.
use vstd::prelude::*;
use crate::text::{chars_of, hex_encode, hex_lower, owned, slice_chars, starts_with, string_from_chars};

verus! {

/// The key that HTTP clients must present.
pub struct ApiKey(pub String);

/// Thirty-two bytes from the thread-local generator (`rand::rng().random::<[u8; 32]>()`).
/// They are random, so nothing is stated of them but their number.
#[verifier::external_body]
fn random_key_bytes() -> (r: Vec<u8>)
    ensures
        r@.len() == 32,
{
    rand::Rng::random::<[u8; 32]>(&mut rand::rng()).to_vec()
}

/// Whether `k` is the text of a generated key: thirty-two bytes in lower-case hexadecimal.
pub open spec fn is_generated_key(k: Seq<char>) -> bool {
    exists|b: Seq<u8>| b.len() == 32 && k == hex_lower(b)
}

/// A fresh random key: thirty-two random bytes, written as sixty-four lower-case hexadecimal digits.
pub fn generate_key() -> (r: String)
    ensures
        is_generated_key(r@),
        r@.len() == 64,
{
    let bytes = random_key_bytes();
    let r = hex_encode(bytes.as_slice());
    assert(bytes@.len() == 32 && r@ == hex_lower(bytes@));
    r
}

/// The key that `resolve` chooses: the command line's, else a non-empty `MCP_API_KEY`.
pub open spec fn chosen_key(cli_arg: Option<Seq<char>>, env_key: Option<Seq<char>>) -> Option<Seq<char>> {
    match cli_arg {
        Some(k) => Some(k),
        None => match env_key {
            Some(k) => if k.len() > 0 {
                Some(k)
            } else {
                None
            },
            None => None,
        },
    }
}

impl ApiKey {
    /// The key from the command line where given, else the value of `MCP_API_KEY` where it
    /// is set and not empty, else a freshly generated one.
    pub fn resolve(cli_arg: Option<&str>, env_key: Option<String>) -> (r: ApiKey)
        ensures
            match chosen_key(
                match cli_arg {
                    Some(k) => Some(k@),
                    None => None,
                },
                match env_key {
                    Some(k) => Some(k@),
                    None => None,
                },
            ) {
                Some(k) => r.0@ == k,
                None => is_generated_key(r.0@) && r.0@.len() == 64,
            },
    {
        if let Some(key) = cli_arg {
            return ApiKey(owned(key));
        }
        if let Some(key) = env_key {
            if chars_of(key.as_str()).len() > 0 {
                return ApiKey(key);
            }
        }
        ApiKey(generate_key())
    }
}

/// Whether `a` and `b` hold the same bytes, examining every byte pair whatever the
/// differences, so the time taken depends on the length alone.
pub fn constant_time_eq(a: &[u8], b: &[u8]) -> (r: bool)
    ensures
        r == (a@ == b@),
{
    if a.len() != b.len() {
        return false;
    }
    let mut acc: u8 = 0;
    let mut i: usize = 0;
    while i < a.len()
        invariant
            a.len() == b.len(),
            i <= a.len(),
            (acc == 0) == (forall|j: int| 0 <= j < i ==> a@[j] == b@[j]),
        decreases a.len() - i,
    {
        let x = a[i];
        let y = b[i];
        let d = x ^ y;
        assert((d == 0) == (x == y)) by (bit_vector)
            requires
                d == x ^ y,
        ;
        let next = acc | d;
        assert((next == 0) == (acc == 0 && d == 0)) by (bit_vector)
            requires
                next == acc | d,
        ;
        acc = next;
        i = i + 1;
    }
    if acc == 0 {
        assert(a@ =~= b@);
        true
    } else {
        false
    }
}

/// The token of an `Authorization` header value of the form `Bearer <token>`.
pub open spec fn bearer_token(h: Seq<char>) -> Option<Seq<char>> {
    if "Bearer "@.is_prefix_of(h) {
        Some(h.skip("Bearer "@.len() as int))
    } else {
        None
    }
}

/// What is done with a request to the protected endpoint.
pub enum AuthDecision {
    /// Pass the request on.
    Allow,
    /// Refuse it: the header holds a bearer token that is not the key.
    InvalidKey,
    /// Refuse it: no header, a header that is not text, or no bearer token in it.
    MissingHeader,
}

/// The HTTP status of a refused request.
pub const UNAUTHORIZED_STATUS: u16 = 401;

impl AuthDecision {
    /// The body of the response that refuses a request.
    pub open spec fn spec_rejection_body(&self) -> Seq<char> {
        match self {
            AuthDecision::InvalidKey => "Invalid API key"@,
            _ => "Missing Authorization header. Use: Authorization: Bearer <key>"@,
        }
    }

    /// The body of the response that refuses a request.
    pub fn rejection_body(&self) -> (r: String)
        requires
            !(self is Allow),
        ensures
            r@ == self.spec_rejection_body(),
    {
        match self {
            AuthDecision::InvalidKey => owned("Invalid API key"),
            _ => owned("Missing Authorization header. Use: Authorization: Bearer <key>"),
        }
    }
}

/// The decision on a request whose `Authorization` header reads `header` (nothing where the
/// header is absent or is not visible ASCII): a bearer token equal to the key is let through.
pub fn check_authorization(header: Option<&str>, key: &ApiKey) -> (r: AuthDecision)
    ensures
        match header {
            Some(h) => match bearer_token(h@) {
                Some(t) => if t == key.0@ {
                    r is Allow
                } else {
                    r is InvalidKey
                },
                None => r is MissingHeader,
            },
            None => r is MissingHeader,
        },
{
    match header {
        None => AuthDecision::MissingHeader,
        Some(value) => {
            let v = chars_of(value);
            let prefix = chars_of("Bearer ");
            if !starts_with(v.as_slice(), prefix.as_slice()) {
                return AuthDecision::MissingHeader;
            }
            let token = string_from_chars(slice_chars(v.as_slice(), prefix.len(), v.len()).as_slice());
            assert(token@ =~= value@.skip("Bearer "@.len() as int));
            let same = constant_time_eq(token.as_str().as_bytes(), key.0.as_str().as_bytes());
            proof {
                vstd::utf8::encode_utf8_decode_utf8(token@);
                vstd::utf8::encode_utf8_decode_utf8(key.0@);
            }
            if same {
                AuthDecision::Allow
            } else {
                AuthDecision::InvalidKey
            }
        },
    }
}

/// A request that presents `Bearer ` followed by the key is let through, and one that
/// presents anything else is refused.
pub proof fn lemma_only_the_key_is_allowed(key: Seq<char>, header: Seq<char>)
    ensures
        bearer_token("Bearer "@ + key) == Some(key),
        (bearer_token(header) == Some(key)) == (header == "Bearer "@ + key),
{
    let p = "Bearer "@;
    assert(p.is_prefix_of(p + key)) by {
        assert((p + key).take(p.len() as int) =~= p);
    }
    assert((p + key).skip(p.len() as int) =~= key);
    if bearer_token(header) == Some(key) {
        assert(header =~= p + key) by {
            assert(header.take(p.len() as int) =~= p);
            assert(header =~= header.take(p.len() as int) + header.skip(p.len() as int));
        }
    }
}

} // verus!
