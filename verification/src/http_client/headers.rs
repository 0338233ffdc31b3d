//! Request and response headers.

use crate::http_client::url::lowered;
use crate::http_client::{internal_error, invalid_params, HttpHeader, JSONRPCErrorError, RpcErrorCode};
use crate::text::optional_text;
use reqwest::header::{HeaderMap, HeaderName, HeaderValue};
use vstd::prelude::*;
use vstd::string::*;
use vstd::utf8::*;

verus! {

/// `reqwest::header::HeaderMap`: a map from lower-case header names to lists of values.
#[verifier::external_type_specification]
#[verifier::external_body]
#[verifier::reject_recursive_types(T)]
pub struct ExHeaderMap<T>(reqwest::header::HeaderMap<T>);

/// `reqwest::header::HeaderValue`, the values of a header map.
#[verifier::external_type_specification]
#[verifier::external_body]
pub struct ExHeaderValue(reqwest::header::HeaderValue);

/// The values that a header map holds, by lower-case name, each name's values in the order in
/// which they were appended.
pub uninterp spec fn header_contents(map: HeaderMap) -> Map<Seq<char>, Seq<Seq<u8>>>;

/// The entries of a header map in the map's own order, each value as its text where it is visible
/// ASCII.
pub uninterp spec fn header_listing(map: HeaderMap) -> Seq<(Seq<char>, Option<Seq<char>>)>;

/// A header map takes another value.
pub uninterp spec fn header_room(map: HeaderMap) -> bool;

/// The characters of an HTTP token.
pub open spec fn is_token_char(c: char) -> bool {
    ||| 'a' <= c && c <= 'z'
    ||| 'A' <= c && c <= 'Z'
    ||| '0' <= c && c <= '9'
    ||| c == '!' || c == '#' || c == '$' || c == '%' || c == '&' || c == '\'' || c == '*'
    ||| c == '+' || c == '-' || c == '.' || c == '^' || c == '_' || c == '`' || c == '|'
    ||| c == '~'
}

/// An HTTP token: one or more token characters.
pub open spec fn is_token(text: Seq<char>) -> bool {
    &&& text.len() > 0
    &&& forall|i: int| 0 <= i < text.len() ==> is_token_char(#[trigger] text[i])
}

/// A header name that `HeaderName::from_bytes` accepts: a token of at most 65535 characters.
pub open spec fn is_header_name(text: Seq<char>) -> bool {
    is_token(text) && text.len() <= 65535
}

/// A character that `HeaderValue::from_str` accepts: every one but the control characters, with
/// the tab as the exception.
pub open spec fn is_header_value_char(c: char) -> bool {
    c == '\t' || (c >= ' ' && c != '\x7f')
}

/// A text that `HeaderValue::from_str` accepts.
pub open spec fn is_header_value(text: Seq<char>) -> bool {
    forall|i: int| 0 <= i < text.len() ==> is_header_value_char(#[trigger] text[i])
}

/// A byte that a header value may hold.
pub open spec fn is_header_value_byte(b: u8) -> bool {
    b == 9 || (b >= 32 && b != 127)
}

/// A byte that `HeaderValue::to_str` lets through: a visible ASCII character, a space or a tab.
pub open spec fn is_visible_byte(b: u8) -> bool {
    b == 9 || (b >= 32 && b < 127)
}

/// A header value as text, where all its bytes are visible ASCII.
pub open spec fn visible_text(value: Seq<u8>) -> Option<Seq<char>> {
    if forall|i: int| 0 <= i < value.len() ==> is_visible_byte(#[trigger] value[i]) {
        Some(value.map_values(|b: u8| b as char))
    } else {
        None
    }
}

/// The contents of an empty header map.
pub open spec fn no_headers() -> Map<Seq<char>, Seq<Seq<u8>>> {
    Map::empty()
}

/// The values of `name`, none where the map does not hold it.
pub open spec fn values_of(contents: Map<Seq<char>, Seq<Seq<u8>>>, name: Seq<char>) -> Seq<
    Seq<u8>,
> {
    if contents.contains_key(name) {
        contents[name]
    } else {
        Seq::empty()
    }
}

/// The contents after one more value for `name`.
pub open spec fn with_value(
    contents: Map<Seq<char>, Seq<Seq<u8>>>,
    name: Seq<char>,
    value: Seq<u8>,
) -> Map<Seq<char>, Seq<Seq<u8>>> {
    contents.insert(name, values_of(contents, name).push(value))
}

/// A header map with fewer names than this takes another value.
pub const HEADER_NAMES_ALWAYS_TAKEN: usize = 6554;

/// Calls `HeaderName::from_bytes` and reads `as_str`, or the display text of the error. The
/// contract claims that the accepted names are the tokens of at most 65535 characters, and that
/// the name comes back in lower case.
#[verifier::external_body]
fn header_name(text: &str) -> (name: Result<String, String>)
    ensures
        match name {
            Ok(name) => is_header_name(text@) && name@ == lowered(text@),
            Err(message) => !is_header_name(text@) && message@ == "invalid HTTP header name"@,
        },
{
    match HeaderName::from_bytes(text.as_bytes()) {
        Ok(name) => Ok(name.as_str().to_string()),
        Err(error) => Err(error.to_string()),
    }
}

/// Calls `HeaderValue::from_str` and reads `as_bytes`, or the display text of the error. The
/// contract claims that the accepted texts are those without control characters other than the
/// tab, and that the value holds the text's UTF-8 bytes, none of which is a control byte other
/// than the tab.
#[verifier::external_body]
fn header_value(text: &str) -> (value: Result<Vec<u8>, String>)
    ensures
        match value {
            Ok(value) => {
                &&& is_header_value(text@)
                &&& value@ == encode_utf8(text@)
                &&& forall|i: int| 0 <= i < value@.len() ==> is_header_value_byte(value@[i])
            },
            Err(message) => !is_header_value(text@) && message@
                == "failed to parse header value"@,
        },
{
    match HeaderValue::from_str(text) {
        Ok(value) => Ok(value.as_bytes().to_vec()),
        Err(error) => Err(error.to_string()),
    }
}

/// Calls `HeaderMap::new`. The contract claims that the map is empty.
#[verifier::external_body]
fn new_header_map() -> (map: HeaderMap)
    ensures
        header_contents(map) == no_headers(),
{
    HeaderMap::new()
}

/// Calls `HeaderMap::try_append` and reads whether it succeeded. The contract claims that the map
/// itself decides whether it has room, whatever is appended; that the value is then added behind
/// the name's other values; and that a map without room keeps its contents and holds
/// `HEADER_NAMES_ALWAYS_TAKEN` names or more. Which maps of that size have room is left unsaid: it
/// depends on how the names hash, which differs between machines.
#[verifier::external_body]
fn append_header(map: &mut HeaderMap, name: &str, value: &Vec<u8>) -> (taken: bool)
    requires
        is_header_name(name@),
        lowered(name@) == name@,
        forall|i: int| 0 <= i < value@.len() ==> is_header_value_byte(#[trigger] value@[i]),
    ensures
        taken == header_room(*old(map)),
        taken ==> header_contents(*final(map)) == with_value(
            header_contents(*old(map)),
            name@,
            value@,
        ),
        !taken ==> header_contents(*final(map)) == header_contents(*old(map)),
        !taken ==> header_contents(*old(map)).dom().len() >= HEADER_NAMES_ALWAYS_TAKEN,
{
    let name = HeaderName::from_bytes(name.as_bytes()).unwrap();
    let value = HeaderValue::from_bytes(value).unwrap();
    map.try_append(name, value).is_ok()
}

/// What is wrong with one request header: its name, or else its value.
pub open spec fn header_error(header: (Seq<char>, Seq<char>)) -> Option<Seq<char>> {
    if !is_header_name(header.0) {
        Some("http/request header name is invalid: "@ + "invalid HTTP header name"@)
    } else if !is_header_value(header.1) {
        Some(
            "http/request header value is invalid for "@ + header.0 + ": "@
                + "failed to parse header value"@,
        )
    } else {
        None
    }
}

/// What is wrong with the first of the headers that is not acceptable.
pub open spec fn first_header_error(headers: Seq<(Seq<char>, Seq<char>)>) -> Option<Seq<char>>
    decreases headers.len(),
{
    if headers.len() == 0 {
        None
    } else {
        match first_header_error(headers.drop_last()) {
            Some(message) => Some(message),
            None => header_error(headers.last()),
        }
    }
}

/// The contents of the header map that acceptable headers make.
pub open spec fn built_contents(headers: Seq<(Seq<char>, Seq<char>)>) -> Map<
    Seq<char>,
    Seq<Seq<u8>>,
>
    decreases headers.len(),
{
    if headers.len() == 0 {
        no_headers()
    } else {
        with_value(
            built_contents(headers.drop_last()),
            lowered(headers.last().0),
            encode_utf8(headers.last().1),
        )
    }
}

/// The headers as pairs of texts.
pub open spec fn header_views(headers: Seq<HttpHeader>) -> Seq<(Seq<char>, Seq<char>)> {
    headers.map_values(|header: HttpHeader| header@)
}

/// The error for more headers than a header map holds.
pub open spec fn too_many_headers() -> (RpcErrorCode, Seq<char>) {
    (RpcErrorCode::InternalError, "http/request has too many headers"@)
}

/// A header map can run out of room for these headers: at one of them, which is acceptable as all
/// before it are, a map of those before it, with `HEADER_NAMES_ALWAYS_TAKEN` different names or
/// more, has no room.
pub open spec fn may_run_out_of_room(headers: Seq<(Seq<char>, Seq<char>)>) -> bool {
    exists|i: int| #[trigger] is_without_room(headers, i)
}

/// The header at `i` comes, behind acceptable ones, to a map that can be full.
pub open spec fn is_without_room(headers: Seq<(Seq<char>, Seq<char>)>, i: int) -> bool {
    &&& HEADER_NAMES_ALWAYS_TAKEN <= i < headers.len()
    &&& first_header_error(headers.take(i + 1)) is None
    &&& built_contents(headers.take(i)).dom().len() >= HEADER_NAMES_ALWAYS_TAKEN
    &&& exists|map: HeaderMap| #[trigger]
        header_contents(map) == built_contents(headers.take(i)) && !header_room(map)
}

proof fn lowered_name_is_name(text: Seq<char>)
    requires
        is_header_name(text),
    ensures
        is_header_name(lowered(text)),
        lowered(lowered(text)) == lowered(text),
{
    assert forall|i: int| 0 <= i < text.len() implies is_token_char(
        #[trigger] lowered(text)[i],
    ) by {
        assert(is_token_char(text[i]));
    }
    assert(lowered(lowered(text)) =~= lowered(text));
}

proof fn later_headers_keep_error(headers: Seq<(Seq<char>, Seq<char>)>, count: int)
    requires
        0 <= count <= headers.len(),
        first_header_error(headers.take(count)) is Some,
    ensures
        first_header_error(headers) == first_header_error(headers.take(count)),
    decreases headers.len() - count,
{
    if count < headers.len() {
        assert(headers.take(count + 1).drop_last() == headers.take(count));
        later_headers_keep_error(headers, count + 1);
    } else {
        assert(headers.take(count) == headers);
    }
}

/// Turns request headers into a header map, in order. The first header that is not acceptable
/// is reported. A header map always has room for `HEADER_NAMES_ALWAYS_TAKEN` different names,
/// with any number of values; beyond that the names decide, and running out of room is an error.
pub fn build_headers(headers: Vec<HttpHeader>) -> (built: Result<HeaderMap, JSONRPCErrorError>)
    ensures
        match built {
            Ok(map) => {
                &&& first_header_error(header_views(headers@)) is None
                &&& header_contents(map) == built_contents(header_views(headers@))
            },
            Err(error) => {
                ||| error@.0 == RpcErrorCode::InvalidParams && first_header_error(
                    header_views(headers@),
                ) == Some(error@.1)
                ||| error@ == too_many_headers() && may_run_out_of_room(header_views(headers@))
            },
        },
{
    let ghost all = header_views(headers@);
    let mut map = new_header_map();
    let mut i: usize = 0;
    while i < headers.len()
        invariant
            i <= headers@.len(),
            all == header_views(headers@),
            first_header_error(all.take(i as int)) is None,
            header_contents(map) == built_contents(all.take(i as int)),
            header_contents(map).dom().finite(),
            header_contents(map).dom().len() <= i,
        decreases headers@.len() - i,
    {
        let ghost done = all.take(i as int);
        let ghost next = all.take(i + 1);
        assert(next.drop_last() == done);
        assert(next.last() == headers@[i as int]@);
        let name = match header_name(headers[i].name.as_str()) {
            Ok(name) => name,
            Err(reason) => {
                let mut message = "http/request header name is invalid: ".to_string();
                message.append(reason.as_str());
                proof {
                    later_headers_keep_error(all, i + 1);
                }
                return Err(invalid_params(message));
            },
        };
        let value = match header_value(headers[i].value.as_str()) {
            Ok(value) => value,
            Err(reason) => {
                let mut message = "http/request header value is invalid for ".to_string();
                message.append(headers[i].name.as_str());
                message.append(": ");
                message.append(reason.as_str());
                proof {
                    later_headers_keep_error(all, i + 1);
                }
                return Err(invalid_params(message));
            },
        };
        proof {
            lowered_name_is_name(headers@[i as int].name@);
        }
        let ghost full = map;
        if !append_header(&mut map, name.as_str(), &value) {
            assert(header_contents(full) == built_contents(done));
            assert(is_without_room(all, i as int));
            return Err(internal_error("http/request has too many headers".to_string()));
        }
        i += 1;
    }
    assert(all.take(i as int) == all);
    Ok(map)
}

/// The entries of a listing, as texts.
pub open spec fn listed_views(listed: Seq<(String, Option<String>)>) -> Seq<
    (Seq<char>, Option<Seq<char>>),
> {
    listed.map_values(
        |entry: (String, Option<String>)|
            (
                entry.0@,
                optional_text(entry.1),
            ),
    )
}

/// What a listing gives for `name`, in the listing's order.
pub open spec fn listed_for(listed: Seq<(Seq<char>, Option<Seq<char>>)>, name: Seq<char>) -> Seq<
    Option<Seq<char>>,
>
    decreases listed.len(),
{
    if listed.len() == 0 {
        Seq::empty()
    } else {
        let before = listed_for(listed.drop_last(), name);
        if listed.last().0 == name {
            before.push(listed.last().1)
        } else {
            before
        }
    }
}

/// A listing of a header map: for each name the map's values in order, each as its text where
/// it is visible ASCII. How the names follow each other is left open.
pub open spec fn lists_contents(
    listed: Seq<(Seq<char>, Option<Seq<char>>)>,
    contents: Map<Seq<char>, Seq<Seq<u8>>>,
) -> bool {
    forall|name: Seq<char>| #[trigger]
        listed_for(listed, name) == values_of(contents, name).map_values(
            |value: Seq<u8>| visible_text(value),
        )
}

/// Calls `HeaderMap::iter`, and `HeaderName::as_str` and `HeaderValue::to_str` on each item. The
/// contract claims that the map gives its entries in an order of its own, each name with its values
/// in the order in which they were appended, and that a value has a text exactly where its bytes
/// are visible ASCII.
#[verifier::external_body]
fn list_headers(map: &HeaderMap) -> (listed: Vec<(String, Option<String>)>)
    ensures
        listed_views(listed@) == header_listing(*map),
        lists_contents(listed_views(listed@), header_contents(*map)),
{
    map.iter()
        .map(|(name, value)| (name.as_str().to_string(), value.to_str().ok().map(str::to_string)))
        .collect()
}

/// The entries of a listing that have a text.
pub open spec fn readable_entries(listed: Seq<(Seq<char>, Option<Seq<char>>)>) -> Seq<
    (Seq<char>, Seq<char>),
>
    decreases listed.len(),
{
    if listed.len() == 0 {
        Seq::empty()
    } else {
        let before = readable_entries(listed.drop_last());
        match listed.last().1 {
            Some(text) => before.push((listed.last().0, text)),
            None => before,
        }
    }
}

/// The values of the headers called `name`, in order.
pub open spec fn texts_for(headers: Seq<(Seq<char>, Seq<char>)>, name: Seq<char>) -> Seq<Seq<char>>
    decreases headers.len(),
{
    if headers.len() == 0 {
        Seq::empty()
    } else {
        let before = texts_for(headers.drop_last(), name);
        if headers.last().0 == name {
            before.push(headers.last().1)
        } else {
            before
        }
    }
}

/// The texts of those values that are visible ASCII.
pub open spec fn readable_texts(values: Seq<Option<Seq<char>>>) -> Seq<Seq<char>>
    decreases values.len(),
{
    if values.len() == 0 {
        Seq::empty()
    } else {
        let before = readable_texts(values.drop_last());
        match values.last() {
            Some(text) => before.push(text),
            None => before,
        }
    }
}

proof fn readable_entries_of_name(listed: Seq<(Seq<char>, Option<Seq<char>>)>, name: Seq<char>)
    ensures
        texts_for(readable_entries(listed), name) == readable_texts(listed_for(listed, name)),
    decreases listed.len(),
{
    if listed.len() > 0 {
        let before = listed.drop_last();
        readable_entries_of_name(before, name);
        if let Some(text) = listed.last().1 {
            let entries = readable_entries(before);
            assert(entries.push((listed.last().0, text)).drop_last() == entries);
        }
        if listed.last().0 == name {
            let values = listed_for(before, name);
            assert(values.push(listed.last().1).drop_last() == values);
        }
    }
}

/// Keeps the listed headers that have a text.
pub fn readable_headers(listed: Vec<(String, Option<String>)>) -> (headers: Vec<HttpHeader>)
    ensures
        header_views(headers@) == readable_entries(listed_views(listed@)),
{
    let ghost all = listed_views(listed@);
    let mut headers: Vec<HttpHeader> = Vec::new();
    let mut i: usize = 0;
    while i < listed.len()
        invariant
            i <= listed@.len(),
            all == listed_views(listed@),
            header_views(headers@) == readable_entries(all.take(i as int)),
        decreases listed@.len() - i,
    {
        assert(all.take(i + 1).drop_last() == all.take(i as int));
        if let Some(value) = &listed[i].1 {
            let ghost before = headers@;
            headers.push(HttpHeader { name: listed[i].0.clone(), value: value.clone() });
            assert(header_views(headers@) == header_views(before).push(headers@.last()@));
        }
        i += 1;
    }
    assert(all.take(i as int) == all);
    headers
}

/// `headers` are the response headers of `contents`: under each name the visible ASCII values,
/// in order. How the names follow each other is left open.
pub open spec fn answers_contents(
    headers: Seq<HttpHeader>,
    contents: Map<Seq<char>, Seq<Seq<u8>>>,
) -> bool {
    forall|name: Seq<char>| #[trigger]
        texts_for(header_views(headers), name) == readable_texts(
            values_of(contents, name).map_values(|value: Seq<u8>| visible_text(value)),
        )
}

/// The response headers whose values are text, in the map's order.
pub fn response_headers(map: &HeaderMap) -> (headers: Vec<HttpHeader>)
    ensures
        header_views(headers@) == readable_entries(header_listing(*map)),
        answers_contents(headers@, header_contents(*map)),
{
    let listed = list_headers(map);
    let ghost views = listed_views(listed@);
    let headers = readable_headers(listed);
    proof {
        assert forall|name: Seq<char>| #[trigger]
            texts_for(header_views(headers@), name) == readable_texts(
                values_of(header_contents(*map), name).map_values(
                    |value: Seq<u8>| visible_text(value),
                ),
            ) by {
            readable_entries_of_name(views, name);
        }
    }
    headers
}

proof fn built_names_grow(headers: Seq<(Seq<char>, Seq<char>)>, count: int)
    requires
        0 <= count <= headers.len(),
    ensures
        built_contents(headers).dom().finite(),
        built_contents(headers.take(count)).dom().subset_of(built_contents(headers).dom()),
    decreases headers.len(),
{
    if headers.len() > 0 {
        let before = headers.drop_last();
        if count < headers.len() {
            built_names_grow(before, count);
            assert(headers.take(count) == before.take(count));
        } else {
            built_names_grow(before, before.len() as int);
            assert(headers.take(count) == headers);
        }
    }
}

/// Headers of fewer than `HEADER_NAMES_ALWAYS_TAKEN` different names always find room, however
/// many they are.
pub proof fn few_names_always_find_room(headers: Seq<(Seq<char>, Seq<char>)>)
    requires
        built_contents(headers).dom().len() < HEADER_NAMES_ALWAYS_TAKEN,
    ensures
        !may_run_out_of_room(headers),
{
    if may_run_out_of_room(headers) {
        let i = choose|i: int| #[trigger] is_without_room(headers, i);
        built_names_grow(headers, i);
        vstd::set_lib::lemma_len_subset(
            built_contents(headers.take(i)).dom(),
            built_contents(headers).dom(),
        );
    }
}

/// The values of the headers called `name` in lower case, in order.
pub open spec fn values_for(headers: Seq<(Seq<char>, Seq<char>)>, name: Seq<char>) -> Seq<Seq<u8>>
    decreases headers.len(),
{
    if headers.len() == 0 {
        Seq::empty()
    } else {
        let before = values_for(headers.drop_last(), name);
        if lowered(headers.last().0) == name {
            before.push(encode_utf8(headers.last().1))
        } else {
            before
        }
    }
}

/// A header map holds each header that it was built from: under each name, in lower case, the
/// values of that name's headers, in their order, and nothing else.
pub proof fn built_headers_hold_every_header(
    headers: Seq<(Seq<char>, Seq<char>)>,
    name: Seq<char>,
)
    ensures
        values_of(built_contents(headers), name) == values_for(headers, name),
    decreases headers.len(),
{
    if headers.len() > 0 {
        built_headers_hold_every_header(headers.drop_last(), name);
    }
}

/// The text is visible ASCII, with spaces and tabs.
pub open spec fn is_visible_text(text: Seq<char>) -> bool {
    forall|i: int|
        0 <= i < text.len() ==> (#[trigger] text[i] == '\t' || (' ' <= text[i] && text[i]
            < '\x7f'))
}

/// The headers with their names in lower case.
pub open spec fn lowered_headers(headers: Seq<(Seq<char>, Seq<char>)>) -> Seq<
    (Seq<char>, Seq<char>),
> {
    headers.map_values(|header: (Seq<char>, Seq<char>)| (lowered(header.0), header.1))
}

proof fn visible_text_is_read_back(text: Seq<char>)
    requires
        is_visible_text(text),
    ensures
        visible_text(encode_utf8(text)) == Some(text),
{
    let bytes = encode_utf8(text);
    assert(is_ascii_chars(text)) by {
        assert forall|i: int| 0 <= i < text.len() implies '\0' <= #[trigger] text[i]
            && text[i] <= '\u{7f}' by {}
    }
    is_ascii_chars_encode_utf8(text);
    assert forall|i: int| 0 <= i < bytes.len() implies is_visible_byte(#[trigger] bytes[i])
        && bytes[i] as char == text[i] by {
        assert(text[i] as u8 == bytes[i]);
    }
    assert(bytes.map_values(|b: u8| b as char) =~= text);
}

proof fn values_of_name_are_read_back(headers: Seq<(Seq<char>, Seq<char>)>, name: Seq<char>)
    requires
        forall|i: int| 0 <= i < headers.len() ==> is_visible_text((#[trigger] headers[i]).1),
    ensures
        readable_texts(
            values_for(headers, name).map_values(|value: Seq<u8>| visible_text(value)),
        ) == texts_for(lowered_headers(headers), name),
    decreases headers.len(),
{
    let read = |value: Seq<u8>| visible_text(value);
    if headers.len() > 0 {
        let before = headers.drop_last();
        assert forall|i: int| 0 <= i < before.len() implies is_visible_text(
            (#[trigger] before[i]).1,
        ) by {
            assert(before[i] == headers[i]);
        }
        values_of_name_are_read_back(before, name);
        assert(lowered_headers(headers).drop_last() =~= lowered_headers(before));
        assert(lowered_headers(headers).last() == (
            lowered(headers.last().0),
            headers.last().1,
        ));
        if lowered(headers.last().0) == name {
            let values = values_for(before, name);
            let bytes = encode_utf8(headers.last().1);
            visible_text_is_read_back(headers.last().1);
            let texts = values.push(bytes).map_values(read);
            assert(texts.drop_last() =~= values.map_values(read));
            assert(texts.last() == Some(headers.last().1));
        }
    } else {
        assert(values_for(headers, name).map_values(read) =~= Seq::<Option<Seq<char>>>::empty());
        assert(lowered_headers(headers) =~= Seq::<(Seq<char>, Seq<char>)>::empty());
    }
}

proof fn headers_are_counted_by_name(
    headers: Seq<(Seq<char>, Seq<char>)>,
    name: Seq<char>,
    value: Seq<char>,
)
    ensures
        headers.to_multiset().count((name, value)) == texts_for(headers, name).to_multiset().count(
            value,
        ),
    decreases headers.len(),
{
    broadcast use vstd::seq_lib::group_to_multiset_ensures;

    if headers.len() > 0 {
        let before = headers.drop_last();
        headers_are_counted_by_name(before, name, value);
        assert(before.push(headers.last()) =~= headers);
        assert(headers.to_multiset() =~= before.to_multiset().insert(headers.last()));
        let texts = texts_for(before, name);
        assert(texts.push(headers.last().1).to_multiset() =~= texts.to_multiset().insert(
            headers.last().1,
        ));
    }
}

/// Headers come back from a map that was built from them: where their values are visible ASCII,
/// the map answers with the same headers, their names in lower case, in some order that keeps the
/// order of each name's values.
pub proof fn built_headers_are_read_back(
    headers: Seq<(Seq<char>, Seq<char>)>,
    answered: Seq<HttpHeader>,
)
    requires
        forall|i: int| 0 <= i < headers.len() ==> is_visible_text((#[trigger] headers[i]).1),
        answers_contents(answered, built_contents(headers)),
    ensures
        forall|name: Seq<char>| #[trigger]
            texts_for(header_views(answered), name) == texts_for(lowered_headers(headers), name),
        header_views(answered).to_multiset() == lowered_headers(headers).to_multiset(),
{
    let out = header_views(answered);
    let wanted = lowered_headers(headers);
    assert forall|name: Seq<char>| #[trigger] texts_for(out, name) == texts_for(wanted, name) by {
        built_headers_hold_every_header(headers, name);
        values_of_name_are_read_back(headers, name);
    }
    assert forall|header: (Seq<char>, Seq<char>)|
        out.to_multiset().count(header) == #[trigger] wanted.to_multiset().count(header) by {
        headers_are_counted_by_name(out, header.0, header.1);
        headers_are_counted_by_name(wanted, header.0, header.1);
    }
    assert(out.to_multiset() =~= wanted.to_multiset());
}

} // verus!
