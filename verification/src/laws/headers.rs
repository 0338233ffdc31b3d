//! Request and response headers.

use crate::http_client::headers::{
    built_contents, first_header_error, header_contents, header_error, header_room, header_views, is_header_name, is_header_value,
    is_header_value_byte, is_token, is_token_char, is_visible_byte, is_without_room,
    listed_views, may_run_out_of_room, readable_entries, too_many_headers, values_of, visible_text,
    with_value,
};
use crate::http_client::{HttpHeader, JSONRPCErrorError, RpcErrorCode};
use reqwest::header::HeaderMap;
use vstd::prelude::*;

verus! {

/// A token is one or more ASCII letters, digits and these marks. A header name is a token of at
/// most 65535 characters.
pub proof fn tokens_are_letters_digits_and_marks(c: char, text: Seq<char>)
    ensures
        is_token_char(c) <==> (97 <= c as int <= 122) || (65 <= c as int <= 90) || (48 <= c as int
            <= 57) || (exists|i: int|
            0 <= i < "!#$%&'*+-.^_`|~"@.len() && #[trigger] "!#$%&'*+-.^_`|~"@[i] == c),
        is_token(text) <==> text.len() > 0 && forall|i: int|
            0 <= i < text.len() ==> is_token_char(#[trigger] text[i]),
        is_header_name(text) <==> is_token(text) && text.len() <= 65535,
{
    reveal_strlit("!#$%&'*+-.^_`|~");
    let marks = "!#$%&'*+-.^_`|~"@;
    assert(marks[0] == '!' && marks[1] == '#' && marks[2] == '$' && marks[3] == '%');
    assert(marks[4] == '&' && marks[5] == '\'' && marks[6] == '*' && marks[7] == '+');
    assert(marks[8] == '-' && marks[9] == '.' && marks[10] == '^' && marks[11] == '_');
    assert(marks[12] == '`' && marks[13] == '|' && marks[14] == '~');
    assert(marks.len() == 15);
}

/// A header value holds no control character but the tab. It has a text where its bytes are
/// printable ASCII and tabs, and the text has those bytes as its characters.
pub proof fn header_values_hold_no_controls(text: Seq<char>, value: Seq<u8>, b: u8)
    ensures
        is_header_value(text) <==> forall|i: int|
            0 <= i < text.len() ==> ((#[trigger] text[i]) as int == 9 || (text[i] as int >= 32
                && text[i] as int != 127)),
        is_header_value_byte(b) <==> b == 9 || (b >= 32 && b != 127),
        is_visible_byte(b) <==> b == 9 || 32 <= b <= 126,
        visible_text(value) is Some <==> forall|i: int|
            0 <= i < value.len() ==> (#[trigger] value[i] == 9 || 32 <= value[i] <= 126),
        visible_text(value) matches Some(read) ==> read.len() == value.len() && forall|i: int|
            0 <= i < value.len() ==> (#[trigger] read[i]) as int == value[i] as int,
{
    if forall|i: int| 0 <= i < value.len() ==> (#[trigger] value[i] == 9 || 32 <= value[i] <= 126) {
        assert forall|i: int| 0 <= i < value.len() implies is_visible_byte(#[trigger] value[i]) by {}
    }
    if forall|i: int| 0 <= i < value.len() ==> is_visible_byte(#[trigger] value[i]) {
        assert forall|i: int| 0 <= i < value.len() implies (#[trigger] value[i] == 9 || 32
            <= value[i] <= 126) by {
            assert(is_visible_byte(value[i]));
        }
    }
    if forall|i: int|
        0 <= i < text.len() ==> ((#[trigger] text[i]) as int == 9 || (text[i] as int >= 32
            && text[i] as int != 127)) {
        assert(is_header_value(text));
    }
    if is_header_value(text) {
        assert forall|i: int| 0 <= i < text.len() implies ((#[trigger] text[i]) as int == 9 || (
        text[i] as int >= 32 && text[i] as int != 127)) by {}
    }
}

/// A header is refused exactly where its name is no header name, or its value no header value; the
/// name is looked at first, and a refused value is reported under the name as given.
pub proof fn headers_are_refused_for_name_then_value(header: (Seq<char>, Seq<char>))
    ensures
        header_error(header) is None <==> is_header_name(header.0) && is_header_value(header.1),
        !is_header_name(header.0) ==> header_error(header) == Some(
            "http/request header name is invalid: "@ + "invalid HTTP header name"@,
        ),
        is_header_name(header.0) && !is_header_value(header.1) ==> header_error(header) == Some(
            "http/request header value is invalid for "@ + header.0 + ": "@
                + "failed to parse header value"@,
        ),
{
}

/// The header at `i` is refused, and none before it.
pub open spec fn is_first_refused(headers: Seq<(Seq<char>, Seq<char>)>, i: int) -> bool {
    &&& 0 <= i < headers.len()
    &&& header_error(headers[i]) is Some
    &&& forall|j: int| 0 <= j < i ==> header_error(#[trigger] headers[j]) is None
}

/// Headers are acceptable exactly where each of them is, and otherwise the first that is refused is
/// reported.
pub proof fn the_first_refused_header_is_reported(headers: Seq<(Seq<char>, Seq<char>)>)
    ensures
        match first_header_error(headers) {
            None => forall|i: int|
                0 <= i < headers.len() ==> header_error(#[trigger] headers[i]) is None,
            Some(message) => exists|i: int| #[trigger]
                is_first_refused(headers, i) && header_error(headers[i]) == Some(message),
        },
    decreases headers.len(),
{
    if headers.len() > 0 {
        let before = headers.drop_last();
        let n = headers.len() - 1;
        the_first_refused_header_is_reported(before);
        match first_header_error(before) {
            Some(message) => {
                let i = choose|i: int| #[trigger]
                    is_first_refused(before, i) && header_error(before[i]) == Some(message);
                assert forall|j: int| 0 <= j < i implies header_error(
                    #[trigger] headers[j],
                ) is None by {
                    assert(before[j] == headers[j]);
                }
                assert(before[i] == headers[i]);
                assert(is_first_refused(headers, i));
            },
            None => {
                assert forall|j: int| 0 <= j < n implies header_error(
                    #[trigger] headers[j],
                ) is None by {
                    assert(before[j] == headers[j]);
                }
                if header_error(headers[n]) is Some {
                    assert(is_first_refused(headers, n));
                }
            },
        }
    }
}

/// Room runs out only at a header that is acceptable as all before it are, and only where some map
/// of exactly those before it has none, of 6554 different names or more.
pub proof fn room_runs_out_only_in_a_full_map(headers: Seq<(Seq<char>, Seq<char>)>)
    requires
        may_run_out_of_room(headers),
    ensures
        exists|i: int, map: HeaderMap|
            {
                &&& 0 <= i < headers.len()
                &&& first_header_error(#[trigger] headers.take(i + 1)) is None
                &&& header_contents(map) == built_contents(headers.take(i))
                &&& header_contents(map).dom().len() >= 6554
                &&& !(#[trigger] header_room(map))
            },
{
    let i = choose|i: int| #[trigger] is_without_room(headers, i);
    let map = choose|map: HeaderMap| #[trigger]
        header_contents(map) == built_contents(headers.take(i)) && !header_room(map);
    assert(first_header_error(headers.take(i + 1)) is None && !header_room(map));
}

/// Another value for a name comes behind its values, and the other names keep theirs.
pub proof fn appended_values_come_last(
    contents: Map<Seq<char>, Seq<Seq<u8>>>,
    name: Seq<char>,
    value: Seq<u8>,
    other: Seq<char>,
)
    ensures
        values_of(with_value(contents, name, value), name) == values_of(contents, name).push(value),
        other != name ==> values_of(with_value(contents, name, value), other) == values_of(
            contents,
            other,
        ),
        !contents.contains_key(other) ==> values_of(contents, other).len() == 0,
        contents.contains_key(other) ==> values_of(contents, other) == contents[other],
{
}

/// Of a listing the entries with a text are kept, in order, and the others are left out.
pub proof fn entries_without_a_text_are_left_out(
    listed: Seq<(Seq<char>, Option<Seq<char>>)>,
    name: Seq<char>,
    text: Seq<char>,
)
    ensures
        readable_entries(Seq::empty()) == Seq::<(Seq<char>, Seq<char>)>::empty(),
        readable_entries(listed.push((name, None))) == readable_entries(listed),
        readable_entries(listed.push((name, Some(text)))) == readable_entries(listed).push(
            (name, text),
        ),
{
    assert(listed.push((name, None)).drop_last() =~= listed);
    assert(listed.push((name, Some(text))).drop_last() =~= listed);
}

/// Headers, listings and errors show their fields.
pub proof fn headers_show_their_fields(
    headers: Seq<HttpHeader>,
    listed: Seq<(String, Option<String>)>,
    error: JSONRPCErrorError,
)
    ensures
        header_views(headers).len() == headers.len(),
        forall|i: int|
            0 <= i < headers.len() ==> #[trigger] header_views(headers)[i] == (
                headers[i].name@,
                headers[i].value@,
            ),
        listed_views(listed).len() == listed.len(),
        forall|i: int|
            0 <= i < listed.len() ==> {
                let entry = #[trigger] listed_views(listed)[i];
                &&& entry.0 == listed[i].0@
                &&& listed[i].1 is None ==> entry.1 is None
                &&& listed[i].1 matches Some(text) ==> entry.1 == Some(text@)
            },
        error@ == (error.code, error.message@),
        too_many_headers() == (
            RpcErrorCode::InternalError,
            "http/request has too many headers"@,
        ),
{
}

} // verus!
