//! Session credentials: a signed, expiring statement of who the bearer is.

use crate::domain::value_objects::id::Id;
use crate::domain::value_objects::timestamp::Timestamp;
use crate::domain::value_objects::timestamp::CLOCK_LIMIT;
use crate::domain::value_objects::timestamp::SECONDS_PER_DAY;
use crate::text::count_char;
use crate::text::has_char;
use crate::text::has_prefix;
use crate::text::strip_prefix;
use crate::text::without_prefix;
use vstd::prelude::*;
use vstd::utf8::decode_utf8;
use vstd::utf8::valid_utf8;

verus! {

/// Whether `jsonwebtoken` accepts `secret` as a base64 HMAC secret.
pub uninterp spec fn base64_key_ok(secret: Seq<char>) -> bool;

/// The HS256 token that `jsonwebtoken` writes for a claim set of two members,
/// the integer `exp` under `exp_name` and the UUID `id` under `id_name`,
/// signed with the key that `secret` encodes.
pub uninterp spec fn jwt_text(
    exp_name: Seq<char>,
    exp: i64,
    id_name: Seq<char>,
    id: u128,
    secret: Seq<char>,
) -> Seq<char>;

/// What `jsonwebtoken` reads out of `token` under the key that `secret`
/// encodes: the integer under `exp_name` and the UUID under `id_name`, or
/// nothing where the key, the signature, the structure or one of the two
/// members is not in order. The clock plays no part in it.
pub uninterp spec fn jwt_claims(
    token: Seq<char>,
    secret: Seq<char>,
    exp_name: Seq<char>,
    id_name: Seq<char>,
) -> Option<(i64, u128)>;

/// Why a presented credential was turned down.
#[derive(Debug, Clone, Copy, PartialEq, Eq, Structural)]
pub enum TokenDataError {
    /// The signature or the structure does not hold.
    InvalidData,
    /// The credential was genuine and its time is over.
    ExpiredToken,
}

/// The claims of a session credential.
#[derive(Debug, Clone, Copy, PartialEq, Eq, Structural)]
pub struct TokenData {
    /// When the credential stops being valid, in seconds since the epoch.
    pub exp: i64,
    /// The user the credential speaks for, as the 128 bits of a UUID.
    pub user_id: u128,
}

/// The scheme label a client may put before the credential.
pub open spec fn bearer_label() -> Seq<char> {
    "Bearer "@
}

/// A secret is usable where it is text that encodes a key.
pub open spec fn secret_usable(secret: Seq<u8>) -> bool {
    valid_utf8(secret) && base64_key_ok(decode_utf8(secret))
}

/// The credential issued for `claims` under `secret`.
pub open spec fn session_token(claims: TokenData, secret: Seq<u8>) -> Seq<char> {
    jwt_text("exp"@, claims.exp, "user_id"@, claims.user_id, decode_utf8(secret))
}

/// The claims that a presented credential carries under `secret`, scheme
/// label taken off, or nothing where it is malformed.
pub open spec fn session_claims(presented: Seq<char>, secret: Seq<u8>) -> Option<(i64, u128)> {
    if valid_utf8(secret) {
        jwt_claims(
            without_prefix(presented, bearer_label()),
            decode_utf8(secret),
            "exp"@,
            "user_id"@,
        )
    } else {
        None
    }
}

/// The verdict on decoded claims at the instant `now`: a credential is good
/// only while the clock reads earlier than its expiry.
pub open spec fn judged(claims: Option<(i64, u128)>, now: Timestamp) -> Result<
    TokenData,
    TokenDataError,
> {
    match claims {
        None => Err(TokenDataError::InvalidData),
        Some((exp, user_id)) => if now.secs < exp {
            Ok(TokenData { exp, user_id })
        } else {
            Err(TokenDataError::ExpiredToken)
        },
    }
}

/// The verdict on a presented credential under `secret` at the instant `now`.
pub open spec fn verified(presented: Seq<char>, secret: Seq<u8>, now: Timestamp) -> Result<
    TokenData,
    TokenDataError,
> {
    judged(session_claims(presented, secret), now)
}

/// Text without a blank does not begin with the scheme label.
pub proof fn lemma_blank_free_has_no_label(s: Seq<char>)
    requires
        !has_char(s, ' '),
    ensures
        without_prefix(s, bearer_label()) == s,
{
    reveal_strlit("Bearer ");
    if has_prefix(s, bearer_label()) {
        assert(s.subrange(0, 7)[6] == ' ');
        assert(s[6] == ' ');
    }
}

/// A credential whose signature and structure hold is never reported as
/// malformed: before its expiry it yields its claims, and from the instant
/// of its expiry on it is reported as expired.
pub proof fn lemma_genuine_credential_expires(
    presented: Seq<char>,
    secret: Seq<u8>,
    exp: i64,
    user_id: u128,
    now: Timestamp,
)
    requires
        session_claims(presented, secret) == Some((exp, user_id)),
    ensures
        verified(presented, secret, now) != Err::<TokenData, TokenDataError>(
            TokenDataError::InvalidData,
        ),
        now.secs >= exp <==> verified(presented, secret, now) == Err::<TokenData, TokenDataError>(
            TokenDataError::ExpiredToken,
        ),
        now.secs < exp <==> verified(presented, secret, now) == Ok::<TokenData, TokenDataError>(
            TokenData { exp, user_id },
        ),
{
}

impl TokenData {
    /// Claims for `id` that expire 24 hours after `now`.
    pub fn issued_at(id: &Id, now: Timestamp) -> (claims: Self)
        requires
            now.secs + SECONDS_PER_DAY <= i64::MAX,
        ensures
            claims.user_id == id@,
            claims.exp == now.secs + SECONDS_PER_DAY,
    {
        TokenData { exp: now.secs + SECONDS_PER_DAY, user_id: id.bits() }
    }

    /// Claims for `id` that expire 24 hours after the present reading of the clock.
    pub fn new(id: &Id) -> (claims: Self)
        ensures
            claims.user_id == id@,
            claims.user_id != 0,
            exists|now: Timestamp|
                now.secs < CLOCK_LIMIT && claims.exp == now.secs + SECONDS_PER_DAY,
    {
        let now = Timestamp::now();
        let claims = TokenData::issued_at(id, now);
        let _ = id.bits();
        assert(now.secs < CLOCK_LIMIT && claims.exp == now.secs + SECONDS_PER_DAY);
        claims
    }

    /// The signed credential for these claims.
    ///
    /// The text is three parts joined by two dots; it holds no blank and so
    /// does not begin with the scheme label. Presented back under the same
    /// secret, with or without the scheme label, it yields these claims at
    /// every instant before `exp` and is reported as expired, not as
    /// malformed, from `exp` on.
    pub fn token(&self, secret: &[u8]) -> (token: String)
        requires
            secret_usable(secret@),
        ensures
            token@ == session_token(*self, secret@),
            count_char(token@, '.') == 2,
            !has_char(token@, ' '),
            without_prefix(token@, bearer_label()) == token@,
            session_claims(token@, secret@) == Some((self.exp, self.user_id)),
            session_claims(bearer_label() + token@, secret@) == Some((self.exp, self.user_id)),
            forall|now: Timestamp| now.secs < self.exp ==> verified(token@, secret@, now) == Ok::<TokenData, TokenDataError>(*self),
            forall|now: Timestamp| now.secs >= self.exp ==> verified(token@, secret@, now) == Err::<TokenData, TokenDataError>(TokenDataError::ExpiredToken),
    {
        let key = utf8_text(secret).unwrap();
        let token = sign_claims("exp", self.exp, "user_id", self.user_id, key).unwrap();
        proof {
            lemma_blank_free_has_no_label(token@);
            let labelled = bearer_label() + token@;
            reveal_strlit("Bearer ");
            assert(labelled.subrange(0, 7) =~= bearer_label());
            assert(labelled.subrange(7, labelled.len() as int) =~= token@);
        }
        token
    }

    /// The signed credential for these claims, or nothing where `secret` is not usable.
    pub fn try_token(&self, secret: &[u8]) -> (token: Option<String>)
        ensures
            token is Some <==> secret_usable(secret@),
            token is Some ==> token->Some_0@ == session_token(*self, secret@),
            token is Some ==> count_char(token->Some_0@, '.') == 2,
            token is Some ==> without_prefix(token->Some_0@, bearer_label()) == token->Some_0@,
            token is Some ==> session_claims(token->Some_0@, secret@) == Some(
                (self.exp, self.user_id),
            ),
    {
        if secret_is_usable(secret) {
            Some(self.token(secret))
        } else {
            None
        }
    }

    /// The verdict on decoded claims at the instant `now`.
    pub fn judge(claims: Option<(i64, u128)>, now: Timestamp) -> (r: Result<Self, TokenDataError>)
        ensures
            r == judged(claims, now),
    {
        match claims {
            None => Err(TokenDataError::InvalidData),
            Some((exp, user_id)) => {
                if now.secs < exp {
                    Ok(TokenData { exp, user_id })
                } else {
                    Err(TokenDataError::ExpiredToken)
                }
            },
        }
    }

    /// The verdict on a presented credential at the instant `now`.
    pub fn from_token_at(token: &str, secret: &[u8], now: Timestamp) -> (r: Result<
        Self,
        TokenDataError,
    >)
        ensures
            r == verified(token@, secret@, now),
    {
        TokenData::judge(decode_token(token, secret), now)
    }

    /// The verdict on a presented credential at the present reading of the clock.
    pub fn from_token(token: &String, secret: &[u8]) -> (r: Result<Self, TokenDataError>)
        ensures
            exists|now: Timestamp| now.secs < CLOCK_LIMIT && r == verified(token@, secret@, now),
            session_claims(token@, secret@) is None ==> r == Err::<Self, TokenDataError>(
                TokenDataError::InvalidData,
            ),
    {
        let now = Timestamp::now();
        let r = TokenData::from_token_at(token.as_str(), secret, now);
        assert(r == verified(token@, secret@, now));
        r
    }
}

/// Whether `secret` is usable for signing and checking credentials.
pub fn secret_is_usable(secret: &[u8]) -> (ok: bool)
    ensures
        ok == secret_usable(secret@),
{
    match utf8_text(secret) {
        Some(key) => key_is_usable(key),
        None => false,
    }
}

/// The claims that a presented credential carries, scheme label taken off.
pub fn decode_token(token: &str, secret: &[u8]) -> (claims: Option<(i64, u128)>)
    ensures
        claims == session_claims(token@, secret@),
{
    let bare = strip_prefix(token, "Bearer ");
    match utf8_text(secret) {
        Some(key) => read_claims(bare, key, "exp", "user_id"),
        None => None,
    }
}

/// Calls `std::str::from_utf8`. Not proved: that it accepts exactly the byte
/// strings that are UTF-8 and hands back the text they encode.
#[verifier::external_body]
fn utf8_text(bytes: &[u8]) -> (text: Option<&str>)
    ensures
        text is Some <==> valid_utf8(bytes@),
        text is Some ==> text->Some_0@ == decode_utf8(bytes@),
{
    std::str::from_utf8(bytes).ok()
}

/// Calls `jsonwebtoken::EncodingKey::from_base64_secret`. Not proved: that it
/// succeeds exactly on the secrets named by `base64_key_ok`.
#[verifier::external_body]
fn key_is_usable(secret: &str) -> (ok: bool)
    ensures
        ok == base64_key_ok(secret@),
{
    jsonwebtoken::EncodingKey::from_base64_secret(secret).is_ok()
}

/// Calls `jsonwebtoken::encode` with the default header (HS256) on a claim
/// set of two members, built with `serde_json`. Not proved:
/// - it succeeds exactly where the secret is accepted as a key, and the token
///   is the one named `jwt_text`;
/// - the token holds two dots and no blank: it is three runs of URL-safe
///   base64, which has neither in its alphabet, joined by dots;
/// - read back under the same secret, a token with the members `exp` and
///   `user_id` gives the same two values (`decode` recomputes the signature
///   over the same bytes with the same key).
#[verifier::external_body]
fn sign_claims(exp_name: &str, exp: i64, id_name: &str, id: u128, secret: &str) -> (token: Option<
    String,
>)
    ensures
        token is Some <==> base64_key_ok(secret@),
        token is Some ==> token->Some_0@ == jwt_text(exp_name@, exp, id_name@, id, secret@),
        token is Some ==> !has_char(token->Some_0@, ' '),
        token is Some ==> count_char(token->Some_0@, '.') == 2,
        token is Some && exp_name@ == "exp"@ && id_name@ == "user_id"@ ==> jwt_claims(
            token->Some_0@,
            secret@,
            exp_name@,
            id_name@,
        ) == Some((exp, id)),
{
    let mut claims = serde_json::Map::new();
    claims.insert(exp_name.to_string(), serde_json::Value::from(exp));
    claims.insert(id_name.to_string(), serde_json::to_value(uuid::Uuid::from_u128(id)).ok()?);
    let key = jsonwebtoken::EncodingKey::from_base64_secret(secret).ok()?;
    jsonwebtoken::encode(&jsonwebtoken::Header::default(), &claims, &key).ok()
}

/// Calls `jsonwebtoken::decode` for HS256 with the expiry check and the list
/// of required claims switched off, then takes the integer under `exp_name`
/// and the UUID under `id_name` out of the claims. Not proved: that the
/// outcome is the one named `jwt_claims`.
#[verifier::external_body]
fn read_claims(token: &str, secret: &str, exp_name: &str, id_name: &str) -> (claims: Option<
    (i64, u128),
>)
    ensures
        claims == jwt_claims(token@, secret@, exp_name@, id_name@),
{
    let key = jsonwebtoken::DecodingKey::from_base64_secret(secret).ok()?;
    let mut rules = jsonwebtoken::Validation::new(jsonwebtoken::Algorithm::HS256);
    rules.validate_exp = false;
    rules.required_spec_claims.clear();
    let found = jsonwebtoken::decode::<serde_json::Value>(token, &key, &rules).ok()?.claims;
    let exp = found.get(exp_name)?.as_i64()?;
    let id = serde_json::from_value::<uuid::Uuid>(found.get(id_name)?.clone()).ok()?;
    Some((exp, id.as_u128()))
}

} // verus!
