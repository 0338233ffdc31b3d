//! Request URLs: what the client reads from them, and which of them stay on this machine.

use crate::text::{chars_of, same_chars, same_text};
use vstd::prelude::*;
use vstd::utf8::*;

verus! {

/// The parts of a parsed URL that decide how a request is routed.
#[derive(Clone, Debug, PartialEq, Eq)]
pub struct RequestUrl {
    /// The scheme, as `Url::scheme` gives it.
    pub scheme: String,
    /// The host, as `Url::host_str` gives it: an IPv6 address stands in square brackets, in
    /// its shortest form.
    pub host: Option<String>,
    /// The port, or the scheme's default port.
    pub port: Option<u16>,
}

impl View for RequestUrl {
    type V = (Seq<char>, Option<Seq<char>>, Option<u16>);

    open spec fn view(&self) -> Self::V {
        (
            self.scheme@,
            match self.host {
                Some(host) => Some(host@),
                None => None,
            },
            self.port,
        )
    }
}

/// What `reqwest::Url::parse` makes of a text: the scheme, the host and the port of the URL,
/// or the text of the parse error.
pub uninterp spec fn parsed_url(text: Seq<char>) -> Result<
    (Seq<char>, Option<Seq<char>>, Option<u16>),
    Seq<char>,
>;

/// Calls `reqwest::Url::parse` and reads `scheme`, `host_str` and `port_or_known_default` of
/// the URL, or the display text of the error. The contract claims only that the outcome is a
/// function of the text.
#[verifier::external_body]
pub(crate) fn parse_url(text: &str) -> (parsed: Result<RequestUrl, String>)
    ensures
        match parsed {
            Ok(url) => parsed_url(text@) == Ok::<_, Seq<char>>(url@),
            Err(message) => parsed_url(text@) == Err::<
                (Seq<char>, Option<Seq<char>>, Option<u16>),
                _,
            >(message@),
        },
{
    match reqwest::Url::parse(text) {
        Ok(url) => Ok(RequestUrl {
            scheme: url.scheme().to_string(),
            host: url.host_str().map(str::to_string),
            port: url.port_or_known_default(),
        }),
        Err(error) => Err(error.to_string()),
    }
}

/// Whether `c` is a decimal digit.
pub open spec fn is_digit(c: char) -> bool {
    '0' <= c && c <= '9'
}

/// The number that a run of decimal digits writes.
pub open spec fn digits_value(digits: Seq<char>) -> int
    decreases digits.len(),
{
    if digits.len() == 0 {
        0
    } else {
        digits_value(digits.drop_last()) * 10 + (digits.last() as int - '0' as int)
    }
}

/// One part of a dotted IPv4 address: a number up to 255, without leading zeros.
pub open spec fn is_octet(part: Seq<char>) -> bool {
    &&& 1 <= part.len() <= 3
    &&& forall|i: int| 0 <= i < part.len() ==> is_digit(#[trigger] part[i])
    &&& part.len() > 1 ==> part[0] != '0'
    &&& digits_value(part) <= 255
}

/// The parts of `text` between its dots.
pub open spec fn dot_parts(text: Seq<char>) -> Seq<Seq<char>>
    decreases text.len(),
{
    if text.len() == 0 {
        seq![Seq::empty()]
    } else {
        let before = dot_parts(text.drop_last());
        if text.last() == '.' {
            before.push(Seq::empty())
        } else {
            before.update(before.len() - 1, before.last().push(text.last()))
        }
    }
}

/// A dotted IPv4 address in the loopback block `127.0.0.0/8`.
pub open spec fn is_loopback_v4(text: Seq<char>) -> bool {
    let parts = dot_parts(text);
    &&& parts.len() == 4
    &&& forall|i: int| 0 <= i < 4 ==> is_octet(#[trigger] parts[i])
    &&& parts[0] == "127"@
}

/// `c` with an ASCII capital letter turned into the small one.
pub open spec fn ascii_lower(c: char) -> char {
    if 'A' <= c && c <= 'Z' {
        ((c as u32) + 32) as char
    } else {
        c
    }
}

/// `text` with its ASCII capital letters turned into small ones.
pub open spec fn lowered(text: Seq<char>) -> Seq<char> {
    text.map_values(|c: char| ascii_lower(c))
}

/// The host without the square brackets around an IPv6 address.
pub open spec fn bare_host(host: Seq<char>) -> Seq<char> {
    if host.len() >= 2 && host[0] == '[' && host.last() == ']' {
        host.subrange(1, host.len() - 1)
    } else {
        host
    }
}

/// A host that names this machine: `localhost` in any case, an IPv4 address in `127.0.0.0/8`,
/// or the IPv6 address `::1`.
pub open spec fn is_loopback_host(host: Seq<char>) -> bool {
    let bare = bare_host(host);
    ||| lowered(bare) == "localhost"@
    ||| is_loopback_v4(bare)
    ||| bare == "::1"@
}

fn octet_check(part: &Vec<char>) -> (valid: bool)
    ensures
        valid == is_octet(part@),
{
    if part.len() < 1 || part.len() > 3 {
        return false;
    }
    if part.len() > 1 && part[0] == '0' {
        return false;
    }
    let mut value: u32 = 0;
    let mut i: usize = 0;
    while i < part.len()
        invariant
            i <= part@.len() <= 3,
            forall|j: int| 0 <= j < i ==> is_digit(#[trigger] part@[j]),
            value == digits_value(part@.take(i as int)),
            i == 0 ==> value == 0,
            i == 1 ==> value <= 9,
            i == 2 ==> value <= 99,
            i == 3 ==> value <= 999,
        decreases part@.len() - i,
    {
        let c = part[i];
        if c < '0' || c > '9' {
            assert(!is_digit(part@[i as int]));
            return false;
        }
        assert(part@.take(i + 1).drop_last() == part@.take(i as int));
        value = value * 10 + (c as u32 - '0' as u32);
        i += 1;
    }
    assert(part@.take(i as int) == part@);
    value <= 255
}

fn lower_char(c: char) -> (lower: u32)
    ensures
        lower == ascii_lower(c) as u32,
{
    if 'A' <= c && c <= 'Z' {
        c as u32 + 32
    } else {
        c as u32
    }
}

fn same_ignoring_case(text: &Vec<char>, lower: &str) -> (same: bool)
    ensures
        same == (lowered(text@) == lower@),
{
    let wanted = chars_of(lower);
    if text.len() != wanted.len() {
        assert(lowered(text@).len() != lower@.len());
        return false;
    }
    let mut i: usize = 0;
    while i < text.len()
        invariant
            i <= text@.len() == wanted@.len(),
            wanted@ == lower@,
            forall|j: int| 0 <= j < i ==> lowered(text@)[j] == wanted@[j],
        decreases text@.len() - i,
    {
        if lower_char(text[i]) != wanted[i] as u32 {
            assert(lowered(text@)[i as int] != wanted@[i as int]);
            return false;
        }
        assert(lowered(text@)[i as int] == wanted@[i as int]) by {
            char_u32_cast(ascii_lower(text@[i as int]), wanted@[i as int] as u32);
            char_u32_cast(wanted@[i as int], wanted@[i as int] as u32);
        }
        i += 1;
    }
    assert(lowered(text@) =~= wanted@);
    true
}

fn dot_parts_of(text: &Vec<char>) -> (parts: Vec<Vec<char>>)
    ensures
        parts@.len() == dot_parts(text@).len(),
        forall|i: int| 0 <= i < parts@.len() ==> (#[trigger] parts@[i])@ == dot_parts(text@)[i],
{
    let mut parts: Vec<Vec<char>> = Vec::new();
    let mut part: Vec<char> = Vec::new();
    let mut i: usize = 0;
    while i < text.len()
        invariant
            i <= text@.len(),
            parts@.len() + 1 == dot_parts(text@.take(i as int)).len(),
            forall|j: int|
                0 <= j < parts@.len() ==> (#[trigger] parts@[j])@ == dot_parts(
                    text@.take(i as int),
                )[j],
            part@ == dot_parts(text@.take(i as int)).last(),
        decreases text@.len() - i,
    {
        assert(text@.take(i + 1).drop_last() == text@.take(i as int));
        if text[i] == '.' {
            parts.push(part);
            part = Vec::new();
        } else {
            part.push(text[i]);
        }
        i += 1;
    }
    assert(text@.take(i as int) == text@);
    parts.push(part);
    parts
}

fn loopback_v4_check(text: &Vec<char>) -> (loopback: bool)
    ensures
        loopback == is_loopback_v4(text@),
{
    let parts = dot_parts_of(text);
    if parts.len() != 4 {
        return false;
    }
    assert(forall|i: int| 0 <= i < 4 ==> (#[trigger] dot_parts(text@)[i]) == parts@[i]@);
    if octet_check(&parts[0]) && octet_check(&parts[1]) && octet_check(&parts[2]) && octet_check(
        &parts[3],
    ) {
        same_chars(&parts[0], "127")
    } else {
        false
    }
}

fn bare_host_of(host: &str) -> (bare: Vec<char>)
    ensures
        bare@ == bare_host(host@),
{
    let chars = chars_of(host);
    let count = chars.len();
    if count >= 2 && chars[0] == '[' && chars[count - 1] == ']' {
        let mut bare: Vec<char> = Vec::new();
        let mut i: usize = 1;
        while i < count - 1
            invariant
                1 <= i <= count - 1,
                count == chars@.len(),
                bare@ == chars@.subrange(1, i as int),
            decreases count - i,
        {
            bare.push(chars[i]);
            assert(chars@.subrange(1, i + 1) == chars@.subrange(1, i as int).push(
                chars@[i as int],
            ));
            i += 1;
        }
        bare
    } else {
        chars
    }
}

/// Whether `host` names this machine.
pub fn host_is_loopback(host: &str) -> (loopback: bool)
    ensures
        loopback == is_loopback_host(host@),
{
    let bare = bare_host_of(host);
    same_ignoring_case(&bare, "localhost") || loopback_v4_check(&bare) || same_chars(&bare, "::1")
}

/// Whether a request to `url` stays on this machine. A URL without a host does not.
pub open spec fn is_loopback_url(url: (Seq<char>, Option<Seq<char>>, Option<u16>)) -> bool {
    match url.1 {
        Some(host) => is_loopback_host(host),
        None => false,
    }
}

/// Whether `url` is sent directly, past every configured proxy.
pub fn url_is_loopback(url: &RequestUrl) -> (loopback: bool)
    ensures
        loopback == is_loopback_url(url@),
{
    match &url.host {
        Some(host) => host_is_loopback(host.as_str()),
        None => false,
    }
}

impl RequestUrl {
    /// Parses `text` as an absolute URL; the error is the parser's own text.
    pub fn parse(text: &str) -> (parsed: Result<RequestUrl, String>)
        ensures
            match parsed {
                Ok(url) => parsed_url(text@) == Ok::<_, Seq<char>>(url@),
                Err(message) => parsed_url(text@) == Err::<
                    (Seq<char>, Option<Seq<char>>, Option<u16>),
                    _,
                >(message@),
            },
    {
        parse_url(text)
    }
}

/// A redirect that a direct request to this machine may follow: one that keeps the scheme, the
/// host and the port.
pub open spec fn same_origin(
    start: (Seq<char>, Option<Seq<char>>, Option<u16>),
    next: (Seq<char>, Option<Seq<char>>, Option<u16>),
) -> bool {
    start == next
}

/// Whether a request that started at the loopback URL `start` may be redirected to `next`. Its
/// headers can carry credentials, so only the origin that they were meant for may see them.
pub fn loopback_redirect_allowed(start: &RequestUrl, next: &RequestUrl) -> (allowed: bool)
    ensures
        allowed == same_origin(start@, next@),
{
    if !same_text(start.scheme.as_str(), next.scheme.as_str()) {
        return false;
    }
    let same_host = match (&start.host, &next.host) {
        (Some(a), Some(b)) => same_text(a.as_str(), b.as_str()),
        (None, None) => true,
        _ => false,
    };
    if !same_host {
        return false;
    }
    match (start.port, next.port) {
        (Some(a), Some(b)) => a == b,
        (None, None) => true,
        _ => false,
    }
}

} // verus!
