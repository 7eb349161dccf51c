use vstd::prelude::*;

use crate::oauth::{form_view, is_success_status, AuthError};
use crate::token::UtcTime;

verus! {

/// The HTTP verbs that the request builders issue.
#[derive(Clone, Copy, Debug, PartialEq, Eq, Structural)]
pub enum HttpMethod {
    Get,
    Post,
    Patch,
    Delete,
}

/// `ps` without the entries whose name is `k`, in their order.
pub open spec fn without_key(ps: Seq<(Seq<char>, Seq<char>)>, k: Seq<char>) -> Seq<(Seq<char>, Seq<char>)>
    decreases ps.len(),
{
    if ps.len() == 0 {
        ps
    } else {
        let rest = without_key(ps.drop_last(), k);
        if ps.last().0 == k {
            rest
        } else {
            rest.push(ps.last())
        }
    }
}

/// `ps` with the entry `k = v`, replacing any earlier entry named `k`.
pub open spec fn with_param(ps: Seq<(Seq<char>, Seq<char>)>, k: Seq<char>, v: Seq<char>) -> Seq<(Seq<char>, Seq<char>)> {
    without_key(ps, k).push((k, v))
}

/// The value of the last entry named `k`, if any.
pub open spec fn param_value(ps: Seq<(Seq<char>, Seq<char>)>, k: Seq<char>) -> Option<Seq<char>>
    decreases ps.len(),
{
    if ps.len() == 0 {
        None
    } else if ps.last().0 == k {
        Some(ps.last().1)
    } else {
        param_value(ps.drop_last(), k)
    }
}

/// Setting a parameter makes it read back as the value set, and leaves every
/// other parameter as it was.
pub proof fn lemma_with_param_lookup(ps: Seq<(Seq<char>, Seq<char>)>, k: Seq<char>, v: Seq<char>, other: Seq<char>)
    ensures
        param_value(with_param(ps, k, v), k) == Some(v),
        other != k ==> param_value(with_param(ps, k, v), other) == param_value(ps, other),
{
    let w = with_param(ps, k, v);
    assert(w.drop_last() =~= without_key(ps, k));
    if other != k {
        lemma_without_key_lookup(ps, k, other);
    }
}

proof fn lemma_without_key_lookup(ps: Seq<(Seq<char>, Seq<char>)>, k: Seq<char>, other: Seq<char>)
    requires
        other != k,
    ensures
        param_value(without_key(ps, k), other) == param_value(ps, other),
    decreases ps.len(),
{
    if ps.len() > 0 {
        lemma_without_key_lookup(ps.drop_last(), k, other);
        let rest = without_key(ps.drop_last(), k);
        if ps.last().0 != k {
            assert(rest.push(ps.last()).drop_last() =~= rest);
        }
    }
}

/// The decimal digits of `n`.
pub open spec fn digits(n: nat) -> Seq<char>
    decreases n,
{
    if n < 10 {
        seq![digit_char(n)]
    } else {
        digits(n / 10) + seq![digit_char(n % 10)]
    }
}

/// The character of a decimal digit.
pub open spec fn digit_char(d: nat) -> char {
    if d == 0 { '0' } else if d == 1 { '1' } else if d == 2 { '2' } else if d == 3 { '3' }
    else if d == 4 { '4' } else if d == 5 { '5' } else if d == 6 { '6' } else if d == 7 { '7' }
    else if d == 8 { '8' } else { '9' }
}

/// The decimal text of `n`, with a leading `-` when negative.
pub open spec fn decimal(n: int) -> Seq<char> {
    if n < 0 {
        seq!['-'] + digits((-n) as nat)
    } else {
        digits(n as nat)
    }
}

/// The text of a boolean.
pub open spec fn bool_text(b: bool) -> Seq<char> {
    if b {
        "true"@
    } else {
        "false"@
    }
}

fn digit_str(d: u64) -> (r: &'static str)
    requires
        d < 10,
    ensures
        r@ == seq![digit_char(d as nat)],
{
    proof {
        reveal_strlit("0");
        reveal_strlit("1");
        reveal_strlit("2");
        reveal_strlit("3");
        reveal_strlit("4");
        reveal_strlit("5");
        reveal_strlit("6");
        reveal_strlit("7");
        reveal_strlit("8");
        reveal_strlit("9");
    }
    if d == 0 { "0" } else if d == 1 { "1" } else if d == 2 { "2" } else if d == 3 { "3" }
    else if d == 4 { "4" } else if d == 5 { "5" } else if d == 6 { "6" } else if d == 7 { "7" }
    else if d == 8 { "8" } else { "9" }
}

fn append_digits(out: &mut String, n: u64)
    ensures
        final(out)@ == old(out)@ + digits(n as nat),
    decreases n,
{
    if n >= 10 {
        append_digits(out, n / 10);
    }
    out.append(digit_str(n % 10));
    assert(final(out)@ =~= old(out)@ + digits(n as nat));
}

/// The decimal text of `n`.
pub fn decimal_text(n: i64) -> (r: String)
    ensures
        r@ == decimal(n as int),
{
    let mut out = String::new();
    if n < 0 {
        proof {
            reveal_strlit("-");
        }
        out.append("-");
        let m: u64 = (-(n as i128)) as u64;
        append_digits(&mut out, m);
    } else {
        append_digits(&mut out, n as u64);
    }
    assert(out@ =~= decimal(n as int));
    out
}

/// The text of a boolean.
pub fn bool_to_text(b: bool) -> (r: String)
    ensures
        r@ == bool_text(b),
{
    if b {
        String::from_str("true")
    } else {
        String::from_str("false")
    }
}

/// An API request under construction: where it goes, with which verb, its
/// query parameters and its body.
#[derive(Clone, Debug)]
pub struct Request {
    pub url: String,
    pub method: HttpMethod,
    pub params: Vec<(String, String)>,
    pub body: Option<String>,
}

impl Request {
    /// The parameters as pairs of texts.
    pub open spec fn params_view(&self) -> Seq<(Seq<char>, Seq<char>)> {
        form_view(self.params@)
    }

    /// `r` is `self` with the parameter `k = v` set, all else kept.
    pub open spec fn sets(&self, r: Request, k: Seq<char>, v: Seq<char>) -> bool {
        &&& r.url == self.url
        &&& r.method == self.method
        &&& r.body == self.body
        &&& r.params_view() == with_param(self.params_view(), k, v)
    }

    /// An empty GET request with no address yet.
    pub fn new() -> (r: Request)
        ensures
            r.url@ == Seq::<char>::empty(),
            r.method == HttpMethod::Get,
            r.params@.len() == 0,
            r.body is None,
    {
        Request { url: String::new(), method: HttpMethod::Get, params: Vec::new(), body: None }
    }

    /// Sets the query parameter `key` to `value`, replacing an earlier value.
    pub fn insert_param(&mut self, key: String, value: String)
        ensures
            old(self).sets(*final(self), key@, value@),
    {
        let ghost ps = self.params_view();
        let n = self.params.len();
        let mut kept: Vec<(String, String)> = Vec::new();
        let mut i: usize = 0;
        while i < n
            invariant
                n == self.params@.len(),
                ps == self.params_view(),
                i <= n,
                form_view(kept@) == without_key(ps.subrange(0, i as int), key@),
            decreases n - i,
        {
            let ghost sub = ps.subrange(0, i + 1);
            assert(sub.drop_last() =~= ps.subrange(0, i as int));
            let p = &self.params[i];
            if !(p.0 == key) {
                kept.push((p.0.clone(), p.1.clone()));
                assert(form_view(kept@) =~= without_key(sub, key@));
            } else {
                assert(form_view(kept@) =~= without_key(sub, key@));
            }
            i = i + 1;
        }
        assert(ps.subrange(0, n as int) =~= ps);
        let ghost kv = key@;
        let ghost vv = value@;
        kept.push((key, value));
        assert(form_view(kept@) =~= with_param(ps, kv, vv));
        self.params = kept;
    }

    /// The value of the query parameter `key`, if set.
    pub fn param(&self, key: &str) -> (r: Option<String>)
        ensures
            match param_value(self.params_view(), key@) {
                Some(v) => r is Some && r->0@ == v,
                None => r is None,
            },
    {
        let ghost ps = self.params_view();
        let k = String::from_str(key);
        let mut i: usize = self.params.len();
        assert(ps.subrange(0, i as int) =~= ps);
        while i > 0
            invariant
                i <= self.params@.len(),
                ps == self.params_view(),
                param_value(ps, key@) == param_value(ps.subrange(0, i as int), key@),
                k@ == key@,
            decreases i,
        {
            let ghost sub = ps.subrange(0, i as int);
            assert(sub.drop_last() =~= ps.subrange(0, i - 1));
            if self.params[i - 1].0 == k {
                return Some(self.params[i - 1].1.clone());
            }
            i = i - 1;
        }
        None
    }
}

/// Why an API call on a resource failed.
#[derive(Clone, Debug)]
pub enum ApiError {
    /// Refreshing the access token before the call failed.
    Auth(AuthError),
    /// The API answered with this non-success status.
    HttpStatus(u16),
    /// The request did not complete; the cause's text.
    Transport(String),
    /// A success answer whose body could not be read; the cause's text.
    Decode(String),
    /// The builder holds a verb that its operation does not send.
    UnsupportedMethod,
    /// A payload setter was called on a builder that holds no payload.
    BuilderNotInitialized,
}

/// The outcome of an API call from its status: success statuses pass, any
/// other status is reported as an error that carries it.
pub fn check_api_status(status: u16) -> (r: Result<(), ApiError>)
    ensures
        is_success_status(status) ==> r is Ok,
        !is_success_status(status) ==> r == Err::<(), ApiError>(ApiError::HttpStatus(status)),
{
    if 200 <= status && status <= 299 {
        Ok(())
    } else {
        Err(ApiError::HttpStatus(status))
    }
}

/// A request that can be filtered by a time window.
pub trait TimeRequestTrait: Sized {
    fn time_min(self, time_min: UtcTime) -> Self;

    fn time_max(self, time_max: UtcTime) -> Self;
}

/// The settings that list requests share.
pub trait DefaultRequestBuilder: Sized {
    fn max_results(self, max: i64) -> Self;

    fn page_token(self, token: &str) -> Self;

    fn time_min(self, time_min: UtcTime) -> Self;

    fn time_max(self, time_max: UtcTime) -> Self;
}

/// A request that can be paged through.
pub trait PaginationRequestTrait: Sized {
    fn max_results(self, max: i64) -> Self;

    fn page_token(self, token: &str) -> Self;
}

} // verus!
