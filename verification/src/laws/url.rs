//! Which hosts and URLs stay on this machine.

use crate::http_client::request::{route_of, ClientRoute};
use crate::http_client::url::{
    ascii_lower, bare_host, digits_value, dot_parts, is_loopback_host, is_loopback_url,
    is_loopback_v4, is_octet, lowered, same_origin, RequestUrl,
};
use crate::laws::text::read_decimal;
use vstd::prelude::*;

verus! {

/// Lower case changes the capital letters of ASCII, by the distance to the small ones, and nothing
/// else.
pub proof fn lower_case_changes_capital_letters(c: char, text: Seq<char>)
    ensures
        65 <= c as int <= 90 ==> ascii_lower(c) as int == c as int + 32,
        !(65 <= c as int <= 90) ==> ascii_lower(c) == c,
        lowered(text).len() == text.len(),
        forall|i: int| 0 <= i < text.len() ==> #[trigger] lowered(text)[i] == ascii_lower(text[i]),
{
}

/// The text reads `localhost`, each letter small or capital.
pub open spec fn reads_localhost(text: Seq<char>) -> bool {
    &&& text.len() == "localhost"@.len()
    &&& forall|i: int|
        0 <= i < text.len() ==> (#[trigger] text[i] == "localhost"@[i] || text[i] as int
            == "localhost"@[i] as int - 32)
}

proof fn lowered_localhost(text: Seq<char>)
    ensures
        lowered(text) == "localhost"@ <==> reads_localhost(text),
{
    reveal_strlit("localhost");
    let wanted = "localhost"@;
    assert(forall|i: int| 0 <= i < wanted.len() ==> 97 <= (#[trigger] wanted[i]) as int <= 122);
    if lowered(text) == wanted {
        assert forall|i: int| 0 <= i < text.len() implies (#[trigger] text[i] == wanted[i]
            || text[i] as int == wanted[i] as int - 32) by {
            lower_case_changes_capital_letters(text[i], text);
            assert(lowered(text)[i] == wanted[i]);
        }
    }
    if reads_localhost(text) {
        assert forall|i: int| 0 <= i < text.len() implies #[trigger] lowered(text)[i]
            == wanted[i] by {
            lower_case_changes_capital_letters(text[i], text);
            assert(text[i] == wanted[i] || text[i] as int == wanted[i] as int - 32);
            assert(lowered(text)[i] as int == wanted[i] as int);
        }
        assert(lowered(text) =~= wanted);
    }
}

/// A number up to 255 in one to three digits, without a leading zero.
pub open spec fn is_address_part(part: Seq<char>) -> bool {
    &&& 1 <= part.len() <= 3
    &&& forall|i: int| 0 <= i < part.len() ==> 48 <= (#[trigger] part[i]) as int <= 57
    &&& part.len() > 1 ==> part[0] as int != 48
    &&& read_decimal(part) <= 255
}

proof fn digits_read_alike(digits: Seq<char>)
    ensures
        digits_value(digits) == read_decimal(digits),
    decreases digits.len(),
{
    if digits.len() > 0 {
        digits_read_alike(digits.drop_last());
    }
}

proof fn octets_are_address_parts(part: Seq<char>)
    ensures
        is_octet(part) <==> is_address_part(part),
{
    digits_read_alike(part);
}

/// Four texts with dots between them.
pub open spec fn dotted(a: Seq<char>, b: Seq<char>, c: Seq<char>, d: Seq<char>) -> Seq<char> {
    a + seq!['.'] + (b + seq!['.'] + (c + seq!['.'] + d))
}

spec fn has_no_dot(text: Seq<char>) -> bool {
    forall|i: int| 0 <= i < text.len() ==> #[trigger] text[i] != '.'
}

proof fn undotted_text_is_one_part(text: Seq<char>)
    requires
        has_no_dot(text),
    ensures
        dot_parts(text) == seq![text],
    decreases text.len(),
{
    if text.len() > 0 {
        let before = text.drop_last();
        assert(has_no_dot(before)) by {
            assert forall|i: int| 0 <= i < before.len() implies #[trigger] before[i] != '.' by {
                assert(before[i] == text[i]);
            }
        }
        undotted_text_is_one_part(before);
        assert(text.last() == text[text.len() - 1]);
        assert(before.push(text.last()) =~= text);
        assert(dot_parts(text) =~= seq![text]);
    } else {
        assert(text =~= Seq::<char>::empty());
        assert(dot_parts(text) =~= seq![text]);
    }
}

proof fn there_is_a_part(text: Seq<char>)
    ensures
        dot_parts(text).len() > 0,
    decreases text.len(),
{
    if text.len() > 0 {
        there_is_a_part(text.drop_last());
    }
}

proof fn parts_on_both_sides_of_a_dot(before: Seq<char>, after: Seq<char>)
    ensures
        dot_parts(before + seq!['.'] + after) == dot_parts(before) + dot_parts(after),
    decreases after.len(),
{
    let text = before + seq!['.'] + after;
    there_is_a_part(after);
    if after.len() == 0 {
        assert(text.drop_last() =~= before);
        assert(text.last() == '.');
        assert(dot_parts(text) =~= dot_parts(before) + dot_parts(after));
    } else {
        let rest = after.drop_last();
        parts_on_both_sides_of_a_dot(before, rest);
        there_is_a_part(rest);
        assert(text.drop_last() =~= before + seq!['.'] + rest);
        assert(text.last() == after.last());
        assert(dot_parts(text) =~= dot_parts(before) + dot_parts(after));
    }
}

/// The texts with a dot between each two neighbours.
spec fn with_dots(parts: Seq<Seq<char>>) -> Seq<char>
    decreases parts.len(),
{
    if parts.len() == 0 {
        Seq::empty()
    } else if parts.len() == 1 {
        parts[0]
    } else {
        with_dots(parts.drop_last()) + seq!['.'] + parts.last()
    }
}

proof fn parts_make_the_text(text: Seq<char>)
    ensures
        with_dots(dot_parts(text)) == text,
    decreases text.len(),
{
    if text.len() > 0 {
        let rest = text.drop_last();
        let before = dot_parts(rest);
        parts_make_the_text(rest);
        there_is_a_part(rest);
        let parts = dot_parts(text);
        if text.last() == '.' {
            assert(parts.drop_last() =~= before);
            assert(with_dots(parts) =~= text);
        } else {
            assert(parts.drop_last() =~= before.drop_last());
            assert(parts.last() =~= before.last().push(text.last()));
            assert(with_dots(parts) =~= with_dots(before).push(text.last()));
            assert(with_dots(parts) =~= text);
        }
    } else {
        assert(with_dots(dot_parts(text)) =~= text);
    }
}

/// An address is in the loopback block exactly where it is four numbers up to 255 with dots between
/// them, of which the first is 127, whatever the other three are.
pub proof fn loopback_addresses_start_with_127(text: Seq<char>)
    ensures
        is_loopback_v4(text) <==> exists|b: Seq<char>, c: Seq<char>, d: Seq<char>|
            {
                &&& #[trigger] is_address_part(b)
                &&& #[trigger] is_address_part(c)
                &&& #[trigger] is_address_part(d)
                &&& text == dotted("127"@, b, c, d)
            },
{
    reveal_strlit("127");
    let parts = dot_parts(text);
    if is_loopback_v4(text) {
        parts_make_the_text(text);
        octets_are_address_parts(parts[1]);
        octets_are_address_parts(parts[2]);
        octets_are_address_parts(parts[3]);
        assert(is_octet(parts[1]) && is_octet(parts[2]) && is_octet(parts[3]));
        let three = parts.drop_last();
        let two = three.drop_last();
        let one = two.drop_last();
        assert(one =~= seq![parts[0]]);
        assert(with_dots(one) == parts[0]);
        assert(with_dots(two) == with_dots(one) + seq!['.'] + parts[1]);
        assert(with_dots(three) == with_dots(two) + seq!['.'] + parts[2]);
        assert(with_dots(parts) == with_dots(three) + seq!['.'] + parts[3]);
        assert(text =~= dotted("127"@, parts[1], parts[2], parts[3]));
    }
    if exists|b: Seq<char>, c: Seq<char>, d: Seq<char>|
        {
            &&& #[trigger] is_address_part(b)
            &&& #[trigger] is_address_part(c)
            &&& #[trigger] is_address_part(d)
            &&& text == dotted("127"@, b, c, d)
        } {
        let (b, c, d) = choose|b: Seq<char>, c: Seq<char>, d: Seq<char>|
            {
                &&& #[trigger] is_address_part(b)
                &&& #[trigger] is_address_part(c)
                &&& #[trigger] is_address_part(d)
                &&& text == dotted("127"@, b, c, d)
            };
        dotted_text_has_these_parts("127"@, b, c, d);
        octets_are_address_parts(b);
        octets_are_address_parts(c);
        octets_are_address_parts(d);
        assert("127"@.drop_last() =~= seq!['1', '2']);
        assert(seq!['1', '2'].drop_last() =~= seq!['1']);
        assert(seq!['1'].drop_last() =~= Seq::<char>::empty());
        assert(digits_value(Seq::<char>::empty()) == 0);
        assert(digits_value(seq!['1']) == 1);
        assert(digits_value(seq!['1', '2']) == 12);
        assert(digits_value("127"@) == 127);
        assert(is_octet("127"@));
        assert(parts =~= seq!["127"@, b, c, d]);
        assert forall|i: int| 0 <= i < 4 implies is_octet(#[trigger] parts[i]) by {}
    }
}

proof fn dotted_text_has_these_parts(a: Seq<char>, b: Seq<char>, c: Seq<char>, d: Seq<char>)
    requires
        a == "127"@,
        is_address_part(b),
        is_address_part(c),
        is_address_part(d),
    ensures
        dot_parts(dotted(a, b, c, d)) == seq![a, b, c, d],
{
    reveal_strlit("127");
    assert(has_no_dot(a));
    assert(has_no_dot(b));
    assert(has_no_dot(c));
    assert(has_no_dot(d));
    undotted_text_is_one_part(a);
    undotted_text_is_one_part(b);
    undotted_text_is_one_part(c);
    undotted_text_is_one_part(d);
    let last = c + seq!['.'] + d;
    let rest = b + seq!['.'] + last;
    parts_on_both_sides_of_a_dot(c, d);
    parts_on_both_sides_of_a_dot(b, last);
    parts_on_both_sides_of_a_dot(a, rest);
    assert(seq![a] + (seq![b] + (seq![c] + seq![d])) =~= seq![a, b, c, d]);
}

/// A host without brackets is this machine exactly where it reads `localhost`, in any case, is an
/// address in the loopback block, or is `::1`. Square brackets around a host change nothing.
pub proof fn loopback_hosts_are_these(host: Seq<char>)
    requires
        host.len() == 0 || host[0] != '[',
    ensures
        is_loopback_host(host) <==> reads_localhost(host) || is_loopback_v4(host) || host
            == "::1"@,
        is_loopback_host(seq!['['] + host + seq![']']) == is_loopback_host(host),
        bare_host(host) == host,
        bare_host(seq!['['] + host + seq![']']) == host,
{
    let bracketed = seq!['['] + host + seq![']'];
    assert(bracketed.len() == host.len() + 2);
    assert(bracketed[0] == '[');
    assert(bracketed.last() == ']');
    assert(bracketed.subrange(1, bracketed.len() - 1) =~= host);
    lowered_localhost(host);
}

/// A host with an opening bracket and no closing one, or with nothing else, is not this machine.
pub proof fn half_bracketed_hosts_are_elsewhere(host: Seq<char>)
    requires
        host.len() > 0,
        host[0] == '[',
        host.len() == 1 || host.last() != ']',
    ensures
        !is_loopback_host(host),
{
    reveal_strlit("localhost");
    reveal_strlit("::1");
    lowered_localhost(host);
    assert(bare_host(host) == host);
    if reads_localhost(host) {
        assert(host[0] == "localhost"@[0] || host[0] as int == "localhost"@[0] as int - 32);
    }
    if is_loopback_v4(host) {
        loopback_addresses_start_with_127(host);
        reveal_strlit("127");
        let (b, c, d) = choose|b: Seq<char>, c: Seq<char>, d: Seq<char>|
            {
                &&& #[trigger] is_address_part(b)
                &&& #[trigger] is_address_part(c)
                &&& #[trigger] is_address_part(d)
                &&& host == dotted("127"@, b, c, d)
            };
        assert(host[0] == '1');
    }
}

/// Whether a URL stays on this machine depends on its host alone: not on the scheme and not on the
/// port. A URL without a host does not. The route follows, and nothing else decides it.
pub proof fn the_host_decides_the_route(
    url: (Seq<char>, Option<Seq<char>>, Option<u16>),
    other: (Seq<char>, Option<Seq<char>>, Option<u16>),
)
    requires
        url.1 == other.1,
    ensures
        is_loopback_url(url) == is_loopback_url(other),
        route_of(url) == route_of(other),
        url.1 is None ==> !is_loopback_url(url),
        url.1 matches Some(host) ==> is_loopback_url(url) == is_loopback_host(host),
        route_of(url) == ClientRoute::Loopback <==> is_loopback_url(url),
        route_of(url) == ClientRoute::Configured <==> !is_loopback_url(url),
{
}

/// A redirect keeps the origin exactly where scheme, host and port are the same.
pub proof fn origins_are_scheme_host_and_port(start: RequestUrl, next: RequestUrl)
    ensures
        same_origin(start@, next@) <==> {
            &&& start.scheme@ == next.scheme@
            &&& start.port == next.port
            &&& match (start.host, next.host) {
                (Some(a), Some(b)) => a@ == b@,
                (None, None) => true,
                _ => false,
            }
        },
        start@.0 == start.scheme@,
        start.host matches Some(host) ==> start@.1 == Some(host@),
        start.host is None ==> start@.1 is None,
        start@.2 == start.port,
{
}

} // verus!
