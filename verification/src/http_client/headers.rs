use vstd::prelude::*;

verus! {

#[verifier::external_type_specification]
#[verifier::external_body]
pub struct ExHeaderName(http::HeaderName);

#[verifier::external_type_specification]
#[verifier::external_body]
pub struct ExHeaderValue(http::HeaderValue);

#[verifier::external_type_specification]
#[verifier::external_body]
pub struct ExInvalidHeaderName(http::header::InvalidHeaderName);

#[verifier::external_type_specification]
#[verifier::external_body]
#[verifier::reject_recursive_types(T)]
pub struct ExHeaderMap<T>(http::HeaderMap<T>);

/// The most header values this library puts into one map. A `HeaderMap` grows its table of
/// 32768 slots no further, and panics where it must: when it holds three quarters of that
/// in names, or, once its hashing has turned defensive, a fifth of it (6554). A map made
/// with at most this capacity, and holding fewer values than this, stays below both.
pub const MAX_COMPOSED_HEADERS: usize = 6553;

/// The characters of an HTTP token, which make up a header name.
pub open spec fn is_token_char(c: char) -> bool {
    ||| ('a' <= c && c <= 'z')
    ||| ('A' <= c && c <= 'Z')
    ||| ('0' <= c && c <= '9')
    ||| c == '!' || c == '#' || c == '$' || c == '%' || c == '&' || c == '\''
    ||| c == '*' || c == '+' || c == '-' || c == '.' || c == '^' || c == '_'
    ||| c == '`' || c == '|' || c == '~'
}

/// The texts `HeaderName::from_str` accepts: from 1 to 65535 token characters.
pub open spec fn is_header_name_text(s: Seq<char>) -> bool {
    &&& 1 <= s.len() <= 65535
    &&& forall|i: int| 0 <= i < s.len() ==> #[trigger] is_token_char(s[i])
}

/// The characters whose bytes `HeaderValue::from_str` accepts: a tab, or any character from
/// the space on but DEL (a character past ASCII is made of bytes of 128 and more).
pub open spec fn is_header_value_char(c: char) -> bool {
    c == '\t' || (' ' <= c && c != '\x7f')
}

/// The texts `HeaderValue::from_str` accepts.
pub open spec fn is_header_value_text(s: Seq<char>) -> bool {
    forall|i: int| 0 <= i < s.len() ==> #[trigger] is_header_value_char(s[i])
}

/// A configured header that can be sent: both its name and its value are accepted.
pub open spec fn is_sendable_header(pair: (String, String)) -> bool {
    is_header_name_text(pair.0@) && is_header_value_text(pair.1@)
}

/// A name as `HeaderName` stores it: upper-case letters made lower-case.
pub open spec fn header_key(name: Seq<char>) -> Seq<char> {
    name.map_values(|c: char| lower_char(c))
}

/// A character as `HeaderName` stores it: an upper-case letter becomes lower-case.
pub open spec fn lower_char(c: char) -> char {
    if 'A' <= c && c <= 'Z' {
        ((c as u32) + 32) as char
    } else {
        c
    }
}

/// What a `HeaderMap` holds: each name, as stored, with the texts of its values in order.
pub uninterp spec fn header_map_entries(m: http::HeaderMap<http::HeaderValue>) -> Map<Seq<char>, Seq<Seq<char>>>;

/// The number of values a `HeaderMap` holds, as `HeaderMap::len` gives it.
pub uninterp spec fn header_map_len(m: http::HeaderMap<http::HeaderValue>) -> nat;

/// `HeaderName::from_str`: it accepts a name of 1 to 65535 bytes, each an HTTP token
/// character (upper-case letters are made lower-case), and refuses every other text.
#[verifier::external_body]
pub(crate) fn header_name_from_str(text: &str) -> (r: Result<http::HeaderName, http::header::InvalidHeaderName>)
    ensures
        r is Ok <==> is_header_name_text(text@),
{
    <http::HeaderName as std::str::FromStr>::from_str(text)
}

/// The text of a header value: its bytes, as `HeaderValue::to_str` reads them where they are
/// visible ASCII, and as the text they were made from otherwise.
pub uninterp spec fn header_value_text(v: http::HeaderValue) -> Seq<char>;

/// `HeaderValue::from_str`: it accepts a text whose every byte is a tab, or is 32 or more
/// and not 127, and refuses every other text; the value keeps the bytes of the text.
#[verifier::external_body]
pub(crate) fn header_value_from_str(text: &str) -> (r: Result<http::HeaderValue, http::header::InvalidHeaderValue>)
    ensures
        r is Ok <==> is_header_value_text(text@),
        r is Ok ==> header_value_text(r->Ok_0) == text@,
{
    http::HeaderValue::from_str(text)
}

/// `HeaderMap::with_capacity`: an empty map. It panics only for a capacity whose table
/// would pass `MAX_SIZE`, far above the bound required here.
#[verifier::external_body]
fn header_map_with_capacity(capacity: usize) -> (m: http::HeaderMap<http::HeaderValue>)
    requires
        capacity <= MAX_COMPOSED_HEADERS,
    ensures
        header_map_entries(m).dom() == Set::<Seq<char>>::empty(),
        header_map_len(m) == 0,
{
    http::HeaderMap::with_capacity(capacity)
}

/// `HeaderMap::insert` of the name and the value that the texts parse to (`HeaderName` and
/// `HeaderValue` from `from_str`, which the `requires` says accept them): the name, made
/// lower-case, gets this one value in place of those it had. It panics only when its
/// table would grow past `MAX_SIZE`, which does not happen while the map holds fewer values
/// than the bound required here.
#[verifier::external_body]
fn header_map_insert(m: &mut http::HeaderMap<http::HeaderValue>, name: &str, value: &str)
    requires
        is_header_name_text(name@),
        is_header_value_text(value@),
        header_map_len(*old(m)) < MAX_COMPOSED_HEADERS,
    ensures
        header_map_entries(*final(m)) == header_map_entries(*old(m)).insert(header_key(name@), seq![value@]),
        header_map_len(*final(m)) == header_map_len(*old(m)) + 1 - (if header_map_entries(*old(m)).dom().contains(
            header_key(name@),
        ) {
            header_map_entries(*old(m))[header_key(name@)].len()
        } else {
            0
        }),
{
    let name = <http::HeaderName as std::str::FromStr>::from_str(name).unwrap();
    let value = http::HeaderValue::from_str(value).unwrap();
    m.insert(name, value);
}

/// `HeaderMap::get` of `PROXY_AUTHORIZATION`, cloned: the first value of the name when the
/// map has it, none when it has not.
#[verifier::external_body]
pub(crate) fn header_map_proxy_authorization(m: &http::HeaderMap<http::HeaderValue>) -> (r: Option<http::HeaderValue>)
    ensures
        r is Some <==> header_map_entries(*m).dom().contains("proxy-authorization"@),
        r matches Some(v) ==> header_value_text(v) == header_map_entries(*m)["proxy-authorization"@][0],
{
    m.get(http::header::PROXY_AUTHORIZATION).cloned()
}

/// The headers the configured ones compose: each header whose name and value can be sent
/// sets its name, made lower-case, to its value, in order, so that a later one replaces an
/// earlier one of the same name; the others are left out.
pub open spec fn composed_headers(pairs: Seq<(String, String)>) -> Map<Seq<char>, Seq<Seq<char>>>
    decreases pairs.len(),
{
    if pairs.len() == 0 {
        Map::empty()
    } else {
        let earlier = composed_headers(pairs.drop_last());
        let last = pairs.last();
        if is_sendable_header(last) {
            earlier.insert(header_key(last.0@), seq![last.1@])
        } else {
            earlier
        }
    }
}

/// Every pair whose name and value parse reaches the composed headers, unless a later pair
/// of the same name comes after it: its name, made lower-case, carries its value alone.
pub proof fn lemma_parsed_header_is_kept(pairs: Seq<(String, String)>, i: int)
    requires
        0 <= i < pairs.len(),
        is_header_name_text(pairs[i].0@),
        is_header_value_text(pairs[i].1@),
        forall|j: int| i < j < pairs.len() ==> header_key(#[trigger] pairs[j].0@) != header_key(pairs[i].0@),
    ensures
        composed_headers(pairs).dom().contains(header_key(pairs[i].0@)),
        composed_headers(pairs)[header_key(pairs[i].0@)] == seq![pairs[i].1@],
    decreases pairs.len(),
{
    let key = header_key(pairs[i].0@);
    if i < pairs.len() - 1 {
        let rest = pairs.drop_last();
        assert forall|j: int| i < j < rest.len() implies header_key(#[trigger] rest[j].0@) != header_key(rest[i].0@) by {
            assert(rest[j] == pairs[j]);
        }
        lemma_parsed_header_is_kept(rest, i);
        assert(header_key(pairs.last().0@) != key) by {
            assert(pairs.last() == pairs[pairs.len() - 1]);
        }
    }
}

/// A name is in the composed headers only if some pair of that name, whose name and value
/// both parse, put it there with its value.
pub proof fn lemma_composed_header_comes_from_a_parsed_pair(pairs: Seq<(String, String)>, key: Seq<char>)
    requires
        composed_headers(pairs).dom().contains(key),
    ensures
        exists|i: int|
            0 <= i < pairs.len() && is_header_name_text(#[trigger] pairs[i].0@) && is_header_value_text(pairs[i].1@)
                && header_key(pairs[i].0@) == key && composed_headers(pairs)[key] == seq![pairs[i].1@],
    decreases pairs.len(),
{
    let rest = pairs.drop_last();
    let last = pairs.last();
    if is_sendable_header(last) && header_key(last.0@) == key {
        assert(pairs[pairs.len() - 1] == last);
    } else {
        lemma_composed_header_comes_from_a_parsed_pair(rest, key);
        let i = choose|i: int|
            0 <= i < rest.len() && is_header_name_text(#[trigger] rest[i].0@) && is_header_value_text(rest[i].1@)
                && header_key(rest[i].0@) == key && composed_headers(rest)[key] == seq![rest[i].1@];
        assert(pairs[i] == rest[i]);
    }
}

/// The configured headers as a header map: see `composed_headers`.
pub fn compose_headers(pairs: &Vec<(String, String)>) -> (m: http::HeaderMap<http::HeaderValue>)
    requires
        pairs@.len() <= MAX_COMPOSED_HEADERS,
    ensures
        header_map_entries(m) == composed_headers(pairs@),
        composed_headers(pairs@).dom().finite(),
        header_map_len(m) == composed_headers(pairs@).dom().len(),
        header_map_len(m) <= pairs@.len(),
{
    let mut headers = header_map_with_capacity(pairs.len());
    let n = pairs.len();
    let mut i: usize = 0;
    proof {
        assert(pairs@.take(0) =~= Seq::<(String, String)>::empty());
        assert(header_map_entries(headers) =~= composed_headers(pairs@.take(0)));
    }
    while i < n
        invariant
            n == pairs@.len(),
            i <= n,
            n <= MAX_COMPOSED_HEADERS,
            header_map_entries(headers) == composed_headers(pairs@.take(i as int)),
            header_map_entries(headers).dom().finite(),
            header_map_len(headers) == header_map_entries(headers).dom().len(),
            header_map_len(headers) <= i,
            forall|k: Seq<char>| #[trigger] header_map_entries(headers).dom().contains(k) ==> header_map_entries(headers)[k].len() == 1,
        decreases n - i,
    {
        let name = pairs[i].0.as_str();
        let value = pairs[i].1.as_str();
        let name_ok = header_name_from_str(name).is_ok();
        let value_ok = header_value_from_str(value).is_ok();
        proof {
            assert(pairs@.take(i + 1).drop_last() =~= pairs@.take(i as int));
            assert(pairs@.take(i + 1).last() == pairs@[i as int]);
        }
        if name_ok && value_ok {
            let ghost before = header_map_entries(headers);
            header_map_insert(&mut headers, name, value);
            proof {
                let key = header_key(name@);
                if before.dom().contains(key) {
                    assert(before.dom().insert(key) =~= before.dom());
                } else {
                    assert(before.dom().insert(key).len() == before.dom().len() + 1);
                }
                assert(header_map_entries(headers).dom() =~= before.dom().insert(key));
            }
        }
        i = i + 1;
    }
    proof {
        assert(pairs@.take(n as int) =~= pairs@);
    }
    headers
}

} // verus!
