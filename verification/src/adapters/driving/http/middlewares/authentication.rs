//! Who may call what: the guard in front of the protected routes.

use crate::adapters::config::Config;
use crate::domain::entities::token_data::verified;
use crate::domain::entities::token_data::TokenData;
use crate::domain::value_objects::timestamp::Timestamp;
use crate::domain::value_objects::timestamp::CLOCK_LIMIT;
use crate::text::has_prefix;
use crate::text::starts_with;
use vstd::prelude::*;

verus! {

/// The paths under this prefix are protected; all others are open.
pub open spec fn protected_prefix() -> Seq<char> {
    "/api/protected/"@
}

/// What a request carries in its `Authorization` header.
pub enum Header {
    /// The request has no such header.
    Missing,
    /// The header holds something that is not text.
    Unreadable,
    /// The header's text.
    Value(String),
}

/// A header as plain values.
pub enum HeaderView {
    Missing,
    Unreadable,
    Value(Seq<char>),
}

impl View for Header {
    type V = HeaderView;

    open spec fn view(&self) -> HeaderView {
        match self {
            Header::Missing => HeaderView::Missing,
            Header::Unreadable => HeaderView::Unreadable,
            Header::Value(text) => HeaderView::Value(text@),
        }
    }
}

/// What the guard does with a request.
#[derive(Debug, Clone, Copy, PartialEq, Eq, Structural)]
pub enum Verdict {
    /// The path is open: the request goes on as it is.
    Bypass,
    /// The credential holds: the request goes on in the name of `user_id`.
    Authorized { user_id: u128 },
    /// The request is answered with status 401.
    Unauthorized,
}

/// The verdict on a request for `path` with `header` at the instant `now`,
/// where the paths under `prefix` are protected and `secret` signs the
/// session credentials.
///
/// An open path passes whatever the header holds. A protected path passes
/// only with a credential that is genuine and not expired.
pub open spec fn decided_under(
    prefix: Seq<char>,
    path: Seq<char>,
    header: HeaderView,
    secret: Seq<u8>,
    now: Timestamp,
) -> Verdict {
    if !has_prefix(path, prefix) {
        Verdict::Bypass
    } else {
        match header {
            HeaderView::Value(text) => match verified(text, secret, now) {
                Ok(claims) => Verdict::Authorized { user_id: claims.user_id },
                Err(_) => Verdict::Unauthorized,
            },
            _ => Verdict::Unauthorized,
        }
    }
}

/// The verdict where the protected paths are those under `protected_prefix`.
pub open spec fn decided(path: Seq<char>, header: HeaderView, secret: Seq<u8>, now: Timestamp) -> Verdict {
    decided_under(protected_prefix(), path, header, secret, now)
}

/// Whether `path` is protected.
pub fn is_protected(path: &str) -> (yes: bool)
    ensures
        yes == has_prefix(path@, protected_prefix()),
{
    starts_with(path, "/api/protected/")
}

/// The credential in a header, or nothing where there is no header or no text in it.
pub fn from_token(header: Header) -> (token: Option<String>)
    ensures
        header@ matches HeaderView::Value(text) ==> token is Some && token->0@ == text,
        !(header@ is Value) ==> token is None,
{
    match header {
        Header::Value(text) => Some(text),
        _ => None,
    }
}

/// The verdict on a request at the instant `now`, where the paths under
/// `prefix` are protected.
pub fn auth_middleware_under(
    config: &Config,
    prefix: &str,
    path: &str,
    header: Header,
    now: Timestamp,
) -> (verdict: Verdict)
    ensures
        verdict == decided_under(prefix@, path@, header@, config.secret@, now),
{
    if !starts_with(path, prefix) {
        return Verdict::Bypass;
    }
    let token = match from_token(header) {
        Some(token) => token,
        None => {
            return Verdict::Unauthorized;
        },
    };
    match TokenData::from_token_at(token.as_str(), config.secret.as_slice(), now) {
        Ok(claims) => Verdict::Authorized { user_id: claims.user_id },
        Err(_) => Verdict::Unauthorized,
    }
}

/// The verdict on a request at the instant `now`.
pub fn auth_middleware_at(config: &Config, path: &str, header: Header, now: Timestamp) -> (verdict: Verdict)
    ensures
        verdict == decided(path@, header@, config.secret@, now),
{
    auth_middleware_under(config, "/api/protected/", path, header, now)
}

/// The verdict on a request at the present reading of the clock.
pub fn auth_middleware(config: &Config, path: &str, header: Header) -> (verdict: Verdict)
    ensures
        exists|now: Timestamp|
            now.secs < CLOCK_LIMIT && verdict == decided(path@, header@, config.secret@, now),
        !has_prefix(path@, protected_prefix()) ==> verdict == Verdict::Bypass,
        has_prefix(path@, protected_prefix()) && !(header@ is Value) ==> verdict
            == Verdict::Unauthorized,
{
    let now = Timestamp::now();
    let verdict = auth_middleware_at(config, path, header, now);
    assert(verdict == decided(path@, header@, config.secret@, now));
    verdict
}

/// The guard fails closed: a request for a protected path goes on only in
/// the name of the user of a credential that is genuine and not expired,
/// and an open path never gets a user's name.
pub proof fn lemma_guard_fails_closed(
    prefix: Seq<char>,
    path: Seq<char>,
    header: HeaderView,
    secret: Seq<u8>,
    now: Timestamp,
)
    ensures
        decided_under(prefix, path, header, secret, now) is Bypass <==> !has_prefix(path, prefix),
        decided_under(prefix, path, header, secret, now) matches Verdict::Authorized { user_id }
            ==> has_prefix(path, prefix) && header is Value && verified(
            header->Value_0,
            secret,
            now,
        ) is Ok && verified(header->Value_0, secret, now)->Ok_0.user_id == user_id,
{
}

} // verus!
