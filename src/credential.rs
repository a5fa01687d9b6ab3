use vstd::prelude::*;
use crate::model::message_view;

verus! {

#[verifier::external_type_specification]
#[verifier::external_body]
pub struct ExJwtError(jsonwebtoken::errors::Error);

/// The `sub` claim of a token's payload, as JSON text, where it has one.
pub uninterp spec fn jwt_subject(token: Seq<char>) -> Option<Seq<char>>;

/// Relies on `jsonwebtoken::decode` with signature checking switched off:
/// where it succeeds, the claims it returns are those of the token's payload,
/// and the `sub` claim, if present, is rendered by `serde_json::Value`'s
/// `to_string`. Whether it succeeds also depends on the clock (`exp`).
#[verifier::external_body]
fn decode_subject(token: &str) -> (r: Result<Option<String>, jsonwebtoken::errors::Error>)
    ensures
        r matches Ok(s) ==> message_view(s) == jwt_subject(token@),
{
    let mut validation = jsonwebtoken::Validation::new(jsonwebtoken::Algorithm::HS256);
    validation.insecure_disable_signature_validation();
    let key = jsonwebtoken::DecodingKey::from_secret(b"ignore_signature");
    jsonwebtoken::decode::<serde_json::Value>(token, &key, &validation).map(
        |d| d.claims.get("sub").map(|v| v.to_string()),
    )
}

/// The text that every decoding error begins with.
pub open spec fn decode_error_prefix() -> Seq<char> {
    "Failed to decode JWT's sub: "@
}

/// An error text that begins with the decoding error prefix.
pub open spec fn is_decode_error(e: Seq<char>) -> bool {
    &&& e.len() >= decode_error_prefix().len()
    &&& e.subrange(0, decode_error_prefix().len() as int) == decode_error_prefix()
}

/// The decoding error with the given detail.
fn decode_error(detail: &str) -> (r: String)
    ensures
        r@ == decode_error_prefix() + detail@,
        is_decode_error(r@),
{
    let mut msg = String::from_str("Failed to decode JWT's sub: ");
    msg.append(detail);
    assert((decode_error_prefix() + detail@).subrange(0, decode_error_prefix().len() as int)
        =~= decode_error_prefix());
    msg
}

/// A credential for the remote service: the bearer token and the user
/// identifier read from its claims. The token's signature is not checked;
/// the service itself accepts or refuses it.
#[derive(Clone, Debug)]
pub struct DuolingoApi {
    pub jwt: String,
    pub user_id: String,
}

impl DuolingoApi {
    /// The user identifier is the token's subject claim.
    pub open spec fn matches_token(&self, token: Seq<char>) -> bool {
        &&& self.jwt@ == token
        &&& jwt_subject(token) == Some(self.user_id@)
    }

    /// Builds the credential from a token and its decoded subject claim;
    /// a token without one is refused.
    pub fn from_subject(jwt: &str, sub: Option<String>) -> (r: Result<DuolingoApi, String>)
        ensures
            sub is None ==> (r matches Err(e) && is_decode_error(e@)),
            sub matches Some(s) ==> (r matches Ok(c) && c.jwt@ == jwt@ && c.user_id@ == s@),
    {
        match sub {
            Some(s) => Ok(DuolingoApi { jwt: String::from_str(jwt), user_id: s }),
            None => Err(decode_error("no sub claim")),
        }
    }

    /// Reads the subject claim of `jwt` and keeps both.
    pub fn new(jwt: &str) -> (r: Result<DuolingoApi, String>)
        ensures
            r matches Ok(c) ==> c.matches_token(jwt@),
            r matches Err(e) ==> is_decode_error(e@),
            jwt_subject(jwt@) is None ==> r is Err,
    {
        match decode_subject(jwt) {
            Ok(sub) => DuolingoApi::from_subject(jwt, sub),
            Err(e) => {
                let detail = e.to_string();
                Err(decode_error(detail.as_str()))
            },
        }
    }

    /// Replaces the credential with one read from `new_jwt`; on failure the
    /// credential stays as it was.
    pub fn update_jwt(&mut self, new_jwt: &str) -> (r: Result<(), String>)
        ensures
            r is Ok ==> final(self).matches_token(new_jwt@),
            r is Err ==> *final(self) == *old(self),
            r matches Err(e) ==> is_decode_error(e@),
            jwt_subject(new_jwt@) is None ==> r is Err,
    {
        match DuolingoApi::new(new_jwt) {
            Ok(c) => {
                *self = c;
                Ok(())
            },
            Err(e) => Err(e),
        }
    }
}

} // verus!
