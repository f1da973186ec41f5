use vstd::prelude::*;
use vstd::utf8::{is_char_boundary, encode_utf8};
use vstd::string::StringSliceAdditionalSpecFns;
use crate::datetime::utc_now;
use crate::text::{decimal, decimal_text, same_text};

verus! {

broadcast use vstd::string::group_string_axioms;

/// How long a token stays valid: a year of 365 days, in seconds.
pub const TOKEN_LIFETIME_SECONDS: i64 = 31536000;

/// What a token says of its holder.
pub struct Claims {
    pub id: i32,
    pub nick: String,
    pub registering_time: i64,
    pub exp: usize,
}

/// The claims of a token issued at `now` (seconds since the epoch): it expires a year later.
pub open spec fn claims_issued(id: i32, nick: Seq<char>, registering_time: i64, now: i64, claims: Claims) -> bool {
    &&& claims.id == id
    &&& claims.nick@ == nick
    &&& claims.registering_time == registering_time
    &&& claims.exp == (now + TOKEN_LIFETIME_SECONDS) as usize
}

/// The claims of a token issued at `now`.
pub fn claims_at(id: i32, nick: String, registering_time: i64, now: i64) -> (claims: Claims)
    requires
        now <= i64::MAX - TOKEN_LIFETIME_SECONDS,
    ensures
        claims_issued(id, nick@, registering_time, now, claims),
{
    let expires = now + TOKEN_LIFETIME_SECONDS;
    Claims { id, nick, registering_time, exp: expires as usize }
}

/// The claims of a token issued at some moment that chrono's clock can read: not before
/// the Unix epoch, and below 2 * 10^14 seconds after it.
pub open spec fn issued_at_some_time(id: i32, nick: Seq<char>, registering_time: i64, claims: Claims) -> bool {
    exists|now: i64| 0 <= now < 200_000_000_000_000 && #[trigger] claims_issued(id, nick, registering_time, now, claims)
}

/// The claims of a token issued now: always given, since chrono's clock stays far below
/// the point where the expiry would overflow.
pub fn claims_now(id: i32, nick: String, registering_time: i64) -> (claims: Option<Claims>)
    ensures
        claims is Some,
        issued_at_some_time(id, nick@, registering_time, claims->0),
{
    let now = utc_now();
    let ghost nick_text = nick@;
    if now.seconds <= i64::MAX - TOKEN_LIFETIME_SECONDS {
        let issued = claims_at(id, nick, registering_time, now.seconds);
        assert(claims_issued(id, nick_text, registering_time, now.seconds, issued));
        assert(issued_at_some_time(id, nick_text, registering_time, issued));
        Some(issued)
    } else {
        None
    }
}

/// The paths that answer requests without a token.
pub open spec fn is_open_path(path: Seq<char>) -> bool {
    path == "/tokens"@ || path == "/users/commands/sms-sending"@
}

/// Whether a path answers requests without a token.
pub fn open_path(path: &str) -> (open: bool)
    ensures
        open == is_open_path(path@),
{
    same_text(path, "/tokens") || same_text(path, "/users/commands/sms-sending")
}

/// The token in an `Authorization` value: what follows its first seven bytes (the
/// `Bearer ` prefix, which is not checked). `None` where byte 7 does not start a character.
pub fn bearer_token(authorization: &str) -> (token: Option<&str>)
    ensures
        token is Some <==> is_char_boundary(authorization.spec_bytes(), 7),
        token matches Some(t) ==> t.spec_bytes() == authorization.spec_bytes().subrange(7, authorization.spec_bytes().len() as int),
{
    if authorization.is_char_boundary(7) {
        let (_prefix, rest) = authorization.split_at(7);
        Some(rest)
    } else {
        None
    }
}

/// The headers that a request carries on once its token is accepted: the holder's id,
/// nick and time of registration, as text.
pub struct IdentityHeaders {
    pub id: String,
    pub nick: String,
    pub reg: String,
}

/// What becomes of a request on arrival.
pub enum Admission {
    /// The request goes on as it is.
    Pass,
    /// The request goes on with the identity of the token's holder.
    PassAs(IdentityHeaders),
    /// The token must be decoded first.
    Decode(String),
    /// The request is answered with 401.
    Refuse,
}

/// The first decision on arrival: without a token a request goes on only to an open path;
/// with one, the token is decoded.
pub fn admit_request(authorization: Option<&str>, path: &str) -> (admission: Admission)
    requires
        authorization matches Some(a) ==> is_char_boundary(a.spec_bytes(), 7),
    ensures
        match authorization {
            None => if is_open_path(path@) {
                admission is Pass
            } else {
                admission is Refuse
            },
            Some(a) => admission matches Admission::Decode(t) && encode_utf8(t@) == a.spec_bytes().subrange(7, a.spec_bytes().len() as int),
        },
{
    match authorization {
        None => {
            if open_path(path) {
                Admission::Pass
            } else {
                Admission::Refuse
            }
        },
        Some(a) => {
            let (_prefix, rest) = a.split_at(7);
            Admission::Decode(rest.to_owned())
        },
    }
}

/// The decision once the token is decoded: a valid token lets the request on with its
/// holder's identity; a token that does not decode is refused.
pub fn admit_decoded(claims: Option<Claims>) -> (admission: Admission)
    ensures
        match claims {
            Some(c) => admission matches Admission::PassAs(h) && h.id@ == decimal(c.id as int) && h.nick@ == c.nick@
                && h.reg@ == decimal(c.registering_time as int),
            None => admission is Refuse,
        },
{
    match claims {
        Some(c) => Admission::PassAs(IdentityHeaders {
            id: decimal_text(c.id as i64),
            nick: c.nick,
            reg: decimal_text(c.registering_time),
        }),
        None => Admission::Refuse,
    }
}

} // verus!
