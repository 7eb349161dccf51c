use std::str::FromStr;
use vstd::prelude::*;

verus! {

/// An instant in UTC: whole seconds since the Unix epoch and the nanoseconds
/// past that second.
#[derive(Clone, Copy, Debug, PartialEq, Eq, Structural)]
pub struct UtcTime {
    pub secs: i64,
    pub nanos: u32,
}

impl UtcTime {
    /// The sub-second part is below one second. chrono represents a leap
    /// second with more, so a parsed instant need not be well formed.
    pub open spec fn wf(&self) -> bool {
        self.nanos < 1_000_000_000
    }
}

/// `a` lies strictly before `b`.
pub open spec fn is_before(a: UtcTime, b: UtcTime) -> bool {
    a.secs < b.secs || (a.secs == b.secs && a.nanos < b.nanos)
}

/// For well-formed instants, the field-by-field order agrees with the sign
/// of the distance in nanoseconds.
pub proof fn lemma_order_matches_distance(a: UtcTime, b: UtcTime)
    requires
        a.wf(),
        b.wf(),
    ensures
        is_before(a, b) <==> nanos_between(a, b) > 0,
{
    let ds: int = b.secs - a.secs;
    let dn: int = b.nanos - a.nanos;
    assert(-1_000_000_000 < dn < 1_000_000_000);
    if ds > 0 {
        assert(ds * 1_000_000_000 >= 1_000_000_000) by (nonlinear_arith)
            requires
                ds > 0,
        ;
    } else if ds < 0 {
        assert(ds * 1_000_000_000 <= -1_000_000_000) by (nonlinear_arith)
            requires
                ds < 0,
        ;
    }
}

/// `x` held to the range of `i64`.
pub open spec fn clamp_i64(x: int) -> int {
    if x > i64::MAX {
        i64::MAX as int
    } else if x < i64::MIN {
        i64::MIN as int
    } else {
        x
    }
}

/// The instant `secs` whole seconds after `t` (before it, for a negative
/// `secs`); the second count saturates at the ends of `i64`.
pub open spec fn shifted_by(t: UtcTime, secs: int) -> UtcTime {
    UtcTime { secs: clamp_i64(t.secs + secs) as i64, nanos: t.nanos }
}

/// The signed distance from `from` to `to` in nanoseconds.
pub open spec fn nanos_between(from: UtcTime, to: UtcTime) -> int {
    (to.secs - from.secs) * 1_000_000_000 + (to.nanos - from.nanos)
}

/// Whole seconds in `d` nanoseconds, rounded toward zero.
pub open spec fn whole_seconds(d: int) -> int {
    if d >= 0 {
        d / 1_000_000_000
    } else {
        -((-d) / 1_000_000_000)
    }
}

impl UtcTime {
    /// Whether `self` lies strictly before `other`.
    pub fn before(&self, other: &UtcTime) -> (r: bool)
        ensures
            r == is_before(*self, *other),
    {
        self.secs < other.secs || (self.secs == other.secs && self.nanos < other.nanos)
    }

    /// The instant `secs` seconds later, saturating at the ends of the range.
    pub fn plus_seconds(&self, secs: i64) -> (r: UtcTime)
        ensures
            r == shifted_by(*self, secs as int),
    {
        let s: i64 = if secs > 0 && self.secs > i64::MAX - secs {
            i64::MAX
        } else if secs < 0 && self.secs < i64::MIN - secs {
            i64::MIN
        } else {
            self.secs + secs
        };
        UtcTime { secs: s, nanos: self.nanos }
    }

    /// Whole seconds from `self` to `later`, rounded toward zero and held to
    /// the range of `i64`; negative when `later` lies before `self`.
    pub fn seconds_until(&self, later: &UtcTime) -> (r: i64)
        ensures
            r as int == clamp_i64(whole_seconds(nanos_between(*self, *later))),
    {
        let ds: i128 = later.secs as i128 - self.secs as i128;
        let dn: i128 = later.nanos as i128 - self.nanos as i128;
        assert(-0x1_0000_0000_0000_0000 <= ds <= 0x1_0000_0000_0000_0000);
        assert(-0x1_0000_0000_0000_0000 * 1_000_000_000 <= ds * 1_000_000_000
            <= 0x1_0000_0000_0000_0000 * 1_000_000_000) by (nonlinear_arith)
            requires
                -0x1_0000_0000_0000_0000 <= ds <= 0x1_0000_0000_0000_0000,
        ;
        let d: i128 = ds * 1_000_000_000 + dn;
        let w: i128 = if d >= 0 {
            (d as u128 / 1_000_000_000) as i128
        } else {
            -(((-d) as u128 / 1_000_000_000) as i128)
        };
        if w > i64::MAX as i128 {
            i64::MAX
        } else if w < i64::MIN as i128 {
            i64::MIN
        } else {
            w as i64
        }
    }
}

/// Relies on `chrono::Utc::now`, read as seconds and sub-second nanoseconds
/// through `timestamp` and `timestamp_subsec_nanos`. The clock decides the
/// value; `now` builds it from a `Duration` past the epoch, whose sub-second
/// part is below one second, so the instant is well formed.
#[verifier::external_body]
pub(crate) fn current_time() -> (r: UtcTime)
    ensures
        r.wf(),
{
    let now = chrono::Utc::now();
    UtcTime { secs: now.timestamp(), nanos: now.timestamp_subsec_nanos() }
}

/// The instant that a (relaxed) RFC 3339 text denotes, as seconds and
/// nanoseconds, or `None` where the text is not one.
pub uninterp spec fn rfc3339_instant(s: Seq<char>) -> Option<(i64, u32)>;

/// Relies on chrono's `FromStr` for `DateTime<Utc>`: it parses a relaxed
/// form of RFC 3339 (a space may stand for the `T`) with an offset and
/// converts it to UTC. A leap second parses to a sub-second part of one
/// second or more.
#[verifier::external_body]
pub(crate) fn parse_utc_time(s: &str) -> (r: Option<UtcTime>)
    ensures
        match rfc3339_instant(s@) {
            Some(p) => r == Some(UtcTime { secs: p.0, nanos: p.1 }),
            None => r is None,
        },
{
    match chrono::DateTime::<chrono::Utc>::from_str(s) {
        Ok(d) => Some(UtcTime { secs: d.timestamp(), nanos: d.timestamp_subsec_nanos() }),
        Err(_) => None,
    }
}

/// The RFC 3339 text of the instant of `secs` seconds and `nanos`
/// nanoseconds, or `None` where chrono cannot represent it.
pub uninterp spec fn rfc3339_text(secs: i64, nanos: u32) -> Option<Seq<char>>;

/// Relies on `chrono::DateTime::from_timestamp`, which refuses an instant out
/// of its range, and on `DateTime::to_rfc3339` for the text.
#[verifier::external_body]
pub(crate) fn format_utc_time(t: &UtcTime) -> (r: Option<String>)
    ensures
        match rfc3339_text(t.secs, t.nanos) {
            Some(s) => r is Some && r->0@ == s,
            None => r is None,
        },
{
    match chrono::DateTime::from_timestamp(t.secs, t.nanos) {
        Some(d) => Some(d.to_rfc3339()),
        None => None,
    }
}

/// Whole seconds from `now` to the instant of `p` (seconds, nanoseconds),
/// rounded toward zero and held to the range of `i64`.
pub open spec fn seconds_left(now: UtcTime, p: (i64, u32)) -> int {
    clamp_i64(whole_seconds(nanos_between(now, UtcTime { secs: p.0, nanos: p.1 })))
}

/// Seconds that a token whose expiry is written `datetime_str` (RFC 3339)
/// stays valid after the instant `now`: negative once it has expired, and
/// `None` where the text is no RFC 3339 instant.
pub fn validity_secs_at(datetime_str: &str, now: &UtcTime) -> (r: Option<i64>)
    ensures
        match rfc3339_instant(datetime_str@) {
            Some(p) => r == Some(seconds_left(*now, p) as i64),
            None => r is None,
        },
{
    match parse_utc_time(datetime_str) {
        Some(saved) => Some(now.seconds_until(&saved)),
        None => None,
    }
}

/// Seconds that a token whose expiry is written `datetime_str` (RFC 3339)
/// stays valid from now on: negative once it has expired.
pub fn get_validity_token_secs(datetime_str: &str) -> (r: i64)
    requires
        rfc3339_instant(datetime_str@) is Some,
    ensures
        exists|now: UtcTime| now.wf() && r as int == #[trigger] seconds_left(now, rfc3339_instant(datetime_str@)->0),
{
    let now = current_time();
    match validity_secs_at(datetime_str, &now) {
        Some(s) => s,
        None => 0,
    }
}

/// Seconds that a token whose expiry is written `datetime_str` (RFC 3339)
/// stays valid from now on, or `None` where the text is no RFC 3339 instant.
pub fn try_validity_token_secs(datetime_str: &str) -> (r: Option<i64>)
    ensures
        r is Some <==> rfc3339_instant(datetime_str@) is Some,
        r is Some ==> exists|now: UtcTime| now.wf()
            && r->0 as int == #[trigger] seconds_left(now, rfc3339_instant(datetime_str@)->0),
{
    match parse_utc_time(datetime_str) {
        Some(_) => Some(get_validity_token_secs(datetime_str)),
        None => None,
    }
}

/// The token endpoint's answer, as it comes off the wire.
#[derive(Clone, Debug, Default)]
pub struct AccessToken {
    pub token_type: String,
    pub access_token: String,
    /// Seconds that the access token stays valid after it was issued.
    pub expires_in: i64,
    pub refresh_token: String,
    pub refresh_token_expires_in: i64,
    pub scope: String,
}

/// The live token state: the access token, the instant it expires, and the
/// refresh token that obtains the next one.
#[derive(Clone, Debug)]
pub struct ClientTokenData {
    pub access_token: String,
    pub expires_on: UtcTime,
    pub refresh_token: String,
}

impl ClientTokenData {
    /// The token data of `token` issued at `issued`: its expiry is computed
    /// once here, `expires_in` seconds after `issued`.
    pub fn from_token_at(token: AccessToken, issued: UtcTime) -> (r: ClientTokenData)
        ensures
            r.access_token@ == token.access_token@,
            r.refresh_token@ == token.refresh_token@,
            r.expires_on == shifted_by(issued, token.expires_in as int),
    {
        let expires_on = issued.plus_seconds(token.expires_in);
        ClientTokenData {
            access_token: token.access_token,
            expires_on,
            refresh_token: token.refresh_token,
        }
    }

    /// The token data of `token` issued now.
    pub fn from_token(token: AccessToken) -> (r: ClientTokenData)
        ensures
            r.access_token@ == token.access_token@,
            r.refresh_token@ == token.refresh_token@,
            exists|now: UtcTime| now.wf() && r.expires_on == #[trigger] shifted_by(now, token.expires_in as int),
    {
        let now = current_time();
        ClientTokenData::from_token_at(token, now)
    }
}

/// Converting a token issued at a fixed instant puts its expiry exactly
/// `expires_in` seconds after that instant, with the same sub-second part,
/// wherever the sum fits in the range of instants.
pub proof fn lemma_expiry_is_exact(token: AccessToken, issued: UtcTime, data: ClientTokenData)
    requires
        i64::MIN <= issued.secs + token.expires_in <= i64::MAX,
        data.expires_on == shifted_by(issued, token.expires_in as int),
    ensures
        data.expires_on.secs == issued.secs + token.expires_in,
        data.expires_on.nanos == issued.nanos,
{
}

/// The application's registration with the provider, and the refresh token
/// that seeds the token manager.
#[derive(Clone, Debug, Default)]
pub struct ClientCredentials {
    pub client_id: String,
    pub client_secret: String,
    pub redirect_uri: String,
    pub refresh_token: String,
}

} // verus!
