//! Bearer tokens, JWT key ids and the authorization middleware's decisions.

use vstd::prelude::*;
use vstd::string::*;
use crate::text::{
    first_occurrence_from, is_space, lemma_no_occurrence_from, occurs_at, second_piece,
    second_piece_is_a_slice, second_piece_trimmed, trim, trim_is_a_slice, trim_keeps_unpadded_text,
};

verus! {

broadcast use vstd::string::group_string_axioms;

/// The word that precedes the token in an `Authorization` header.
pub open spec fn bearer_word() -> Seq<char> {
    "Bearer"@
}

/// The token of an `Authorization` header: `header.split("Bearer").collect()[1].trim()`.
pub open spec fn bearer_token_spec(header: Seq<char>) -> Seq<char> {
    trim(second_piece(header, bearer_word()).unwrap())
}

/// Whether a token can be taken from the header: it holds the word `Bearer`.
/// Headers without it are kept out of `bearer_token`.
pub open spec fn has_bearer_spec(header: Seq<char>) -> bool {
    second_piece(header, bearer_word()) is Some
}

/// The token is a stretch of the header taken character for character:
/// `header[i..j]` for some positions `i <= j`.
pub proof fn bearer_token_is_a_slice(header: Seq<char>) -> (ij: (int, int))
    requires
        has_bearer_spec(header),
    ensures
        0 <= ij.0 <= ij.1 <= header.len(),
        bearer_token_spec(header) == header.subrange(ij.0, ij.1),
{
    let (a, b) = second_piece_is_a_slice(header, bearer_word());
    let piece = header.subrange(a, b);
    let (i, j) = trim_is_a_slice(piece);
    assert(piece.subrange(i, j) =~= header.subrange(a + i, a + j));
    (a + i, a + j)
}

/// For the header `Bearer <t>`, where `t` has no whitespace at its ends and
/// does not hold the word `Bearer`, the token is `t` itself.
pub proof fn bearer_token_of_plain_header(t: Seq<char>)
    requires
        t.len() > 0 ==> !is_space(t[0]) && !is_space(t.last()),
        forall|i: int| !occurs_at(t, bearer_word(), i),
    ensures
        has_bearer_spec("Bearer "@ + t),
        bearer_token_spec("Bearer "@ + t) == t,
{
    reveal_strlit("Bearer ");
    reveal_strlit("Bearer");
    let w = bearer_word();
    let h = "Bearer "@ + t;
    assert(w =~= seq!['B', 'e', 'a', 'r', 'e', 'r']);
    assert("Bearer "@ =~= seq!['B', 'e', 'a', 'r', 'e', 'r', ' ']);
    assert(h.subrange(0, 6) =~= w);
    assert(occurs_at(h, w, 0));
    assert forall|i: int| 6 <= i implies !occurs_at(h, w, i) by {
        if occurs_at(h, w, i) {
            if i == 6 {
                assert(h.subrange(i, i + 6)[0] == ' ');
            } else {
                assert(h.subrange(i, i + 6) =~= t.subrange(i - 7, i - 1));
                assert(occurs_at(t, w, i - 7));
            }
        }
    }
    lemma_no_occurrence_from(h, w, 6);
    assert(second_piece(h, w) == Some(h.subrange(6, h.len() as int)));
    let piece = h.subrange(6, h.len() as int);
    assert(piece =~= seq![' '] + t);
    assert(crate::text::trim_start(piece) == crate::text::trim_start(t)) by {
        assert(piece.drop_first() =~= t);
    }
    trim_keeps_unpadded_text(t);
}

/// Whether `header` holds the word `Bearer`, so that `bearer_token` applies.
pub fn has_bearer(header: &str) -> (b: bool)
    ensures
        b == has_bearer_spec(header@),
{
    let r = crate::text::find_first(header, "Bearer");
    proof {
        if r is None {
            assert(second_piece(header@, bearer_word()) is None);
        }
    }
    r.is_some()
}

/// The token carried by an `Authorization` header.
pub fn bearer_token(header: &str) -> (r: String)
    requires
        has_bearer_spec(header@),
    ensures
        r@ == bearer_token_spec(header@),
{
    second_piece_trimmed(header, "Bearer")
}

#[verifier::external_type_specification]
#[verifier::external_body]
pub struct ExJwtError(jsonwebtoken::errors::Error);

/// What `jsonwebtoken::decode_header` finds in a token: `None` when the token
/// has no decodable header, else the header's `kid`.
pub uninterp spec fn jwt_header_kid(token: Seq<char>) -> Option<Option<Seq<char>>>;

pub open spec fn opt_string_view(o: Option<String>) -> Option<Seq<char>> {
    match o {
        Some(s) => Some(s@),
        None => None,
    }
}

/// `jsonwebtoken::decode_header(token)`, keeping the header's `kid`.
#[verifier::external_body]
fn decode_header_kid(token: &str) -> (r: Result<Option<String>, jsonwebtoken::errors::Error>)
    ensures
        r matches Ok(k) ==> jwt_header_kid(token@) == Some(opt_string_view(k)),
        r is Err ==> jwt_header_kid(token@) is None,
{
    jsonwebtoken::decode_header(token).map(|h| h.kid)
}

/// Why a request is refused.
#[derive(PartialEq, Eq, Structural, Clone, Copy, Debug)]
pub enum AuthError {
    /// No `Authorization` header.
    Blocked,
    /// The token's header cannot be decoded.
    MalformedToken,
    /// The token does not verify against the key.
    InvalidToken,
}

impl AuthError {
    /// The message the refusal carries.
    pub fn message(&self) -> (r: String)
        ensures
            *self == AuthError::Blocked ==> r@ == "blocked!"@,
            *self == AuthError::MalformedToken ==> r@ == "malformed token!"@,
            *self == AuthError::InvalidToken ==> r@ == "invalid token!"@,
    {
        match self {
            AuthError::Blocked => "blocked!".to_string(),
            AuthError::MalformedToken => "malformed token!".to_string(),
            AuthError::InvalidToken => "invalid token!".to_string(),
        }
    }
}

/// The key id of a token, `None` when its header names none.
pub fn token_key_id(token: &str) -> (r: Result<Option<String>, AuthError>)
    ensures
        r matches Ok(k) ==> jwt_header_kid(token@) == Some(opt_string_view(k)),
        r is Err ==> jwt_header_kid(token@) is None && r == Err::<Option<String>, AuthError>(
            AuthError::MalformedToken,
        ),
{
    match decode_header_kid(token) {
        Ok(k) => Ok(k),
        Err(_) => Err(AuthError::MalformedToken),
    }
}

/// The key id used when a token names none.
pub open spec fn key_id_or_default(kid: Option<Seq<char>>) -> Seq<char> {
    match kid {
        Some(k) => k,
        None => "default string"@,
    }
}

/// Where the public key for a key id is fetched: `{service}/{kid}`.
pub open spec fn public_key_url_spec(service: Seq<char>, kid: Option<Seq<char>>) -> Seq<char> {
    service + "/"@ + key_id_or_default(kid)
}

/// `format!("{}/{}", service, kid.as_deref().unwrap_or("default string"))`.
pub fn public_key_url(service: &str, kid: &Option<String>) -> (r: String)
    ensures
        r@ == public_key_url_spec(service@, opt_string_view(*kid)),
{
    let mut r = service.to_string();
    r.append("/");
    match kid {
        Some(k) => r.append(k.as_str()),
        None => r.append("default string"),
    }
    r
}

/// The claims of a token checked by the middleware.
pub struct Claims {
    pub sub: String,
    pub exp: usize,
}

/// Proof that a request carried a verified token.
pub struct AuthorizationService;

/// What the middleware does next.
pub enum AuthStep {
    /// Refuse the request.
    Deny(AuthError),
    /// Fetch the key at `url` and verify `token` against it.
    FetchKey { url: String, token: String },
}

/// The token the middleware verifies; it does not check the one the header carries.
pub open spec fn checked_token() -> Seq<char> {
    "a.jwt.token"@
}

impl AuthorizationService {
    /// First decision on a request: refuse it when it has no `Authorization`
    /// header or the checked token has no readable header, else fetch the key
    /// named by that token from `key_service`. The header's own token is read
    /// (so a header without `Bearer` is outside the contract) but not checked:
    /// the check is made on `checked_token()`.
    pub fn begin(authorization: Option<&str>, key_service: &str) -> (r: AuthStep)
        requires
            authorization matches Some(h) ==> has_bearer_spec(h@),
        ensures
            authorization is None ==> r == AuthStep::Deny(AuthError::Blocked),
            authorization is Some && jwt_header_kid(checked_token()) is None ==> r == AuthStep::Deny(
                AuthError::MalformedToken,
            ),
            authorization is Some ==> (jwt_header_kid(checked_token()) matches Some(kid) ==> (
            r matches AuthStep::FetchKey { url, token } && url@ == public_key_url_spec(
                key_service@,
                kid,
            ) && token@ == checked_token())),
    {
        match authorization {
            None => AuthStep::Deny(AuthError::Blocked),
            Some(h) => {
                let _carried = bearer_token(h);
                let token = "a.jwt.token";
                match token_key_id(token) {
                    Err(e) => AuthStep::Deny(e),
                    Ok(kid) => AuthStep::FetchKey {
                        url: public_key_url(key_service, &kid),
                        token: token.to_string(),
                    },
                }
            },
        }
    }

    /// Final decision, once the token was checked against the fetched key.
    pub fn finish(token_verified: bool) -> (r: Result<AuthorizationService, AuthError>)
        ensures
            token_verified <==> r is Ok,
            !token_verified ==> r == Err::<AuthorizationService, AuthError>(AuthError::InvalidToken),
    {
        if token_verified {
            Ok(AuthorizationService)
        } else {
            Err(AuthError::InvalidToken)
        }
    }
}

} // verus!
