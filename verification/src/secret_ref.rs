//! Reading a value out of a Kubernetes `Secret` key (`SecretKeyRef`): the
//! errors for a missing Secret or key, and the decoding of an API token.
use vstd::prelude::*;
use vstd::utf8::{decode_utf8, valid_utf8};
use crate::crd::instance::SecretKeyRef;
use crate::ports::GatewayFactoryError;
use crate::text::{debug_quoted, debug_text, join2, join3, join4};

verus! {

/// The coordinates of a Secret key as messages show them:
/// `<namespace>/<name>`.
pub open spec fn secret_coordinates(r: SecretKeyRef) -> Seq<char> {
    r.namespace@ + "/"@ + r.name@
}

/// The error for a Secret that could not be fetched.
pub open spec fn fetch_failure_text(what: Seq<char>, r: SecretKeyRef, rendered: Seq<char>) -> Seq<char> {
    "fetching "@ + what + " "@ + secret_coordinates(r) + ": "@ + rendered
}

/// The error for a Secret lacking the referenced key.
pub open spec fn missing_key_text(what: Seq<char>, r: SecretKeyRef) -> Seq<char> {
    what + " "@ + secret_coordinates(r) + " has no key "@ + debug_text(r.key@)
}

fn coordinates(r: &SecretKeyRef) -> (s: String)
    ensures
        s@ == secret_coordinates(*r),
{
    join3(r.namespace.as_str(), "/", r.name.as_str())
}

/// The value of `secret_ref`'s key, given what fetching the Secret gave:
/// the fetch error's text, or the key's bytes when the Secret holds it.
/// A missing Secret or key is an error, never an empty value. `what` names
/// the reference's role in the message.
pub fn read_secret_key(what: &str, secret_ref: &SecretKeyRef, fetched: Result<Option<Vec<u8>>, String>) -> (r: Result<Vec<u8>, String>)
    ensures
        fetched matches Ok(Some(v)) ==> r == Ok::<Vec<u8>, String>(v),
        fetched matches Ok(None) ==> (r matches Err(m) && m@ == missing_key_text(what@, *secret_ref)),
        fetched matches Err(e) ==> (r matches Err(m) && m@ == fetch_failure_text(what@, *secret_ref, e@)),
{
    match fetched {
        Ok(Some(v)) => Ok(v),
        Ok(None) => {
            let c = coordinates(secret_ref);
            let q = debug_quoted(secret_ref.key.as_str());
            let head = join4(what, " ", c.as_str(), " has no key ");
            Err(join2(head.as_str(), q.as_str()))
        },
        Err(e) => {
            let c = coordinates(secret_ref);
            let head = join4("fetching ", what, " ", c.as_str());
            Err(join3(head.as_str(), ": ", e.as_str()))
        },
    }
}

/// What std renders a UTF-8 decoding error of `bytes` as.
pub uninterp spec fn utf8_error_text(bytes: Seq<u8>) -> Seq<char>;

/// `String::from_utf8`: the text `bytes` encode when they are valid UTF-8
/// (as vstd's `valid_utf8`/`decode_utf8` define it), otherwise the error's
/// rendering, named `utf8_error_text(bytes@)` and not restated here.
#[verifier::external_body]
fn decode_utf8_bytes(bytes: Vec<u8>) -> (r: Result<String, String>)
    ensures
        r is Ok <==> valid_utf8(bytes@),
        r matches Ok(s) ==> s@ == decode_utf8(bytes@),
        r matches Err(m) ==> m@ == utf8_error_text(bytes@),
{
    String::from_utf8(bytes).map_err(|e| e.to_string())
}

/// The error for an API token that is not UTF-8.
pub open spec fn token_not_utf8_text(r: SecretKeyRef, bytes: Seq<u8>) -> Seq<char> {
    "secret "@ + secret_coordinates(r) + " key "@ + debug_text(r.key@) + " is not valid utf-8: "@
        + utf8_error_text(bytes)
}

/// The Authentik API token read from `secret_ref`: its bytes decoded as
/// UTF-8, or a `ResolutionFailed` error when they are not UTF-8.
pub fn token_from_secret(secret_ref: &SecretKeyRef, bytes: Vec<u8>) -> (r: Result<String, GatewayFactoryError>)
    ensures
        valid_utf8(bytes@) ==> (r matches Ok(t) && t@ == decode_utf8(bytes@)),
        !valid_utf8(bytes@) ==> (r matches Err(GatewayFactoryError::ResolutionFailed(m))
            && m@ == token_not_utf8_text(*secret_ref, bytes@)),
{
    let ghost b = bytes@;
    match decode_utf8_bytes(bytes) {
        Ok(t) => Ok(t),
        Err(e) => {
            let c = coordinates(secret_ref);
            let q = debug_quoted(secret_ref.key.as_str());
            let head = join4("secret ", c.as_str(), " key ", q.as_str());
            Err(GatewayFactoryError::ResolutionFailed(join3(head.as_str(), " is not valid utf-8: ", e.as_str())))
        },
    }
}

} // verus!
