//! API key authentication.

use subtle::ConstantTimeEq;

use vstd::prelude::*;

verus! {

/// The `ct_eq` of `subtle` on two byte slices, as a `bool`: whether they hold the same
/// bytes. That the time it takes tells nothing of the contents is not expressible here.
#[verifier::external_body]
fn same_bytes(a: &[u8], b: &[u8]) -> (res: bool)
    ensures
        res == (a@ == b@),
{
    bool::from(a.ct_eq(b))
}

/// A validated `X-Api-Key` header.
pub struct ApiKey(pub String);

/// The body of the response (status 401) to a request without a valid key.
pub const UNAUTHORIZED_BODY: &'static str =
    "{\"code\":401,\"message\":\"Invalid API key\",\"data\":null}";

/// Validates the value of the `X-Api-Key` header: it must be there and be the configured
/// key. Otherwise the request is answered with [`UNAUTHORIZED_BODY`].
pub fn authenticate(header: Option<&str>, key: &str) -> (res: Result<ApiKey, &'static str>)
    ensures
        match res {
            Ok(found) => header matches Some(value) && value@ == key@ && found.0@ == value@,
            Err(body) => body@ == UNAUTHORIZED_BODY@ && !(header matches Some(value) && value@
                == key@),
        },
{
    match header {
        Some(value) => {
            proof {
                vstd::utf8::encode_utf8_decode_utf8(value@);
                vstd::utf8::encode_utf8_decode_utf8(key@);
            }
            if same_bytes(value.as_bytes(), key.as_bytes()) {
                Ok(ApiKey(value.to_owned()))
            } else {
                Err(UNAUTHORIZED_BODY)
            }
        },
        None => Err(UNAUTHORIZED_BODY),
    }
}

/// A request is let in if and only if its key is the configured one, and is then known by
/// it; any other, and one without a key, is told that the key is invalid.
pub proof fn only_the_key_lets_in(
    header: Option<&str>,
    key: &str,
    res: Result<ApiKey, &'static str>,
)
    requires
        call_ensures(authenticate, (header, key), res),
    ensures
        res is Ok <==> header is Some && header->0@ == key@,
        res matches Ok(found) ==> found.0@ == key@,
        res matches Err(body) ==> body@
            == "{\"code\":401,\"message\":\"Invalid API key\",\"data\":null}"@,
{
}

} // verus!
