use vstd::prelude::*;

use crate::http_client::headers::{
    header_key, is_header_name_text, is_header_value_text, lower_char, MAX_COMPOSED_HEADERS,
};

verus! {

#[verifier::external_type_specification]
#[verifier::external_body]
#[verifier::reject_recursive_types(T)]
pub struct ExRequest<T>(tonic::Request<T>);

#[verifier::external_type_specification]
#[verifier::external_body]
pub struct ExStatus(tonic::Status);

#[verifier::external_type_specification]
#[verifier::external_body]
pub struct ExInvalidMetadataKey(tonic::metadata::errors::InvalidMetadataKey);

#[verifier::external_type_specification]
#[verifier::external_body]
pub struct ExInvalidMetadataValue(tonic::metadata::errors::InvalidMetadataValue);


/// The texts `AsciiMetadataKey` is parsed from: header names that, made lower-case, do not
/// end with `-bin`, the suffix of binary keys.
pub open spec fn is_ascii_metadata_key_text(s: Seq<char>) -> bool {
    &&& is_header_name_text(s)
    &&& !(s.len() >= 4 && s.subrange(s.len() - 4, s.len() as int).map_values(|c: char| lower_char(c))
        == seq!['-', 'b', 'i', 'n'])
}

/// A configured metadata entry that can be sent: both its key and its value are accepted.
pub open spec fn is_sendable_metadata(pair: (String, String)) -> bool {
    is_ascii_metadata_key_text(pair.0@) && is_header_value_text(pair.1@)
}

/// What the metadata of a request holds: each key, as stored (lower-case), with the texts of
/// its values in order.
pub uninterp spec fn request_metadata_entries(r: tonic::Request<()>) -> Map<Seq<char>, Seq<Seq<char>>>;

/// The number of values in the metadata of a request, as `MetadataMap::len` gives it.
pub uninterp spec fn request_metadata_len(r: tonic::Request<()>) -> nat;

/// `AsciiMetadataKey::from_str`, with the key it makes set aside (the key type is generic
/// over an encoding trait that tonic does not export, so it cannot be declared here): a
/// key is accepted when `HeaderName` accepts it and its lower-case form does not end with
/// `-bin`; every other text is refused.
#[verifier::external_body]
fn ascii_metadata_key_check(text: &str) -> (r: Result<(), tonic::metadata::errors::InvalidMetadataKey>)
    ensures
        r is Ok <==> is_ascii_metadata_key_text(text@),
{
    <tonic::metadata::AsciiMetadataKey as std::str::FromStr>::from_str(text).map(|_| ())
}

/// `AsciiMetadataValue::from_str`, which is `HeaderValue::from_str`, with the value it makes
/// set aside (for the reason given above): the same texts are accepted.
#[verifier::external_body]
fn ascii_metadata_value_check(text: &str) -> (r: Result<(), tonic::metadata::errors::InvalidMetadataValue>)
    ensures
        r is Ok <==> is_header_value_text(text@),
{
    <tonic::metadata::AsciiMetadataValue as std::str::FromStr>::from_str(text).map(|_| ())
}

/// A set of keys that is finite and has this many.
pub open spec fn counts_keys(keys: Set<Seq<char>>, n: nat) -> bool {
    keys.finite() && keys.len() == n
}

/// `MetadataMap::keys_len` of the request's metadata: how many keys it has.
#[verifier::external_body]
pub(crate) fn request_metadata_key_count(r: &tonic::Request<()>) -> (n: usize)
    ensures
        counts_keys(request_metadata_entries(*r).dom(), n as nat),
{
    r.metadata().keys_len()
}

/// `MetadataMap::contains_key` of the request's metadata, for a text: whether the text is a
/// header name and the metadata has it, made lower-case, as a key (of either encoding).
#[verifier::external_body]
fn request_metadata_contains(r: &tonic::Request<()>, key: &str) -> (b: bool)
    ensures
        b == (is_header_name_text(key@) && request_metadata_entries(*r).dom().contains(header_key(key@))),
{
    r.metadata().contains_key(key)
}

/// `MetadataMap::insert` into the request's metadata, of the key and value parsed from the
/// texts (which the `requires` says parse): the key, made lower-case, gets this one value
/// in place of those it had, so the map holds one value more, less those it had under the
/// key. It is the `insert` of a `HeaderMap`, which does not panic while the map holds
/// fewer keys than the bound required here.
#[verifier::external_body]
fn request_metadata_insert(r: &mut tonic::Request<()>, key: &str, value: &str)
    requires
        is_ascii_metadata_key_text(key@),
        is_header_value_text(value@),
        request_metadata_entries(*old(r)).dom().finite(),
        request_metadata_entries(*old(r)).dom().len() < MAX_COMPOSED_HEADERS,
    ensures
        request_metadata_entries(*final(r)) == request_metadata_entries(*old(r)).insert(header_key(key@), seq![value@]),
        request_metadata_len(*final(r)) == request_metadata_len(*old(r)) + 1 - (if request_metadata_entries(
            *old(r),
        ).dom().contains(header_key(key@)) {
            request_metadata_entries(*old(r))[header_key(key@)].len()
        } else {
            0
        }),
{
    let key = <tonic::metadata::AsciiMetadataKey as std::str::FromStr>::from_str(key).unwrap();
    let value = <tonic::metadata::AsciiMetadataValue as std::str::FromStr>::from_str(value).unwrap();
    r.metadata_mut().insert(key, value);
}

/// The text of `InvalidMetadataKey`'s `Display`, which is always the same.
#[verifier::external_body]
fn invalid_key_text(e: &tonic::metadata::errors::InvalidMetadataKey) -> (r: String)
    ensures
        r@ == "invalid gRPC metadata key name"@,
{
    e.to_string()
}

/// The text of `InvalidMetadataValue`'s `Display`, which is always the same.
#[verifier::external_body]
fn invalid_value_text(e: &tonic::metadata::errors::InvalidMetadataValue) -> (r: String)
    ensures
        r@ == "failed to parse metadata value"@,
{
    e.to_string()
}

/// The number of the code of a status, as `Status::code` gives it and `Code` numbers it.
pub uninterp spec fn status_code(s: tonic::Status) -> i32;

/// The number `Code::Internal` stands for.
pub const STATUS_CODE_INTERNAL: i32 = 13;

/// The message of a status, as `Status::message` gives it.
pub uninterp spec fn status_message(s: tonic::Status) -> Seq<char>;

/// `Status::internal`: a status of code `Internal` with this message. The rest of it is not
/// modelled.
#[verifier::external_body]
fn status_internal(message: String) -> (s: tonic::Status)
    ensures
        status_code(s) == STATUS_CODE_INTERNAL,
        status_message(s) == message@,
{
    tonic::Status::internal(message)
}

/// What adding the entries, in order, to metadata that holds `entries` gives: an entry whose
/// key the metadata has is passed over; another is inserted when its key and value can be
/// sent, and stops it all (`None`) when they cannot.
pub open spec fn metadata_added(entries: Map<Seq<char>, Seq<Seq<char>>>, pairs: Seq<(String, String)>) -> Option<
    Map<Seq<char>, Seq<Seq<char>>>,
>
    decreases pairs.len(),
{
    if pairs.len() == 0 {
        Some(entries)
    } else {
        let first = pairs[0];
        if is_header_name_text(first.0@) && entries.dom().contains(header_key(first.0@)) {
            metadata_added(entries, pairs.drop_first())
        } else if is_sendable_metadata(first) {
            metadata_added(entries.insert(header_key(first.0@), seq![first.1@]), pairs.drop_first())
        } else {
            None
        }
    }
}

/// Why adding the entries, as `metadata_added` does, stops, where it does: the text of the
/// error of the first entry that cannot be sent, of its key where that is refused, else of
/// its value.
pub open spec fn metadata_refusal(entries: Map<Seq<char>, Seq<Seq<char>>>, pairs: Seq<(String, String)>) -> Option<
    Seq<char>,
>
    decreases pairs.len(),
{
    if pairs.len() == 0 {
        None
    } else {
        let first = pairs[0];
        if is_header_name_text(first.0@) && entries.dom().contains(header_key(first.0@)) {
            metadata_refusal(entries, pairs.drop_first())
        } else if !is_ascii_metadata_key_text(first.0@) {
            Some("invalid gRPC metadata key name"@)
        } else if !is_header_value_text(first.1@) {
            Some("failed to parse metadata value"@)
        } else {
            metadata_refusal(entries.insert(header_key(first.0@), seq![first.1@]), pairs.drop_first())
        }
    }
}

/// How many values adding the entries, as `metadata_added` does, puts into the metadata: one
/// for each entry whose key it does not have yet when the entry comes.
pub open spec fn metadata_added_count(entries: Map<Seq<char>, Seq<Seq<char>>>, pairs: Seq<(String, String)>) -> nat
    decreases pairs.len(),
{
    if pairs.len() == 0 {
        0
    } else {
        let first = pairs[0];
        if is_header_name_text(first.0@) && entries.dom().contains(header_key(first.0@)) {
            metadata_added_count(entries, pairs.drop_first())
        } else {
            1 + metadata_added_count(entries.insert(header_key(first.0@), seq![first.1@]), pairs.drop_first())
        }
    }
}

/// Metadata already on a request is never changed: each key it had keeps its values, and
/// the added entries only bring new keys.
pub proof fn lemma_present_metadata_unchanged(
    entries: Map<Seq<char>, Seq<Seq<char>>>,
    pairs: Seq<(String, String)>,
    key: Seq<char>,
)
    requires
        entries.dom().contains(key),
        metadata_added(entries, pairs) is Some,
    ensures
        metadata_added(entries, pairs)->Some_0.dom().contains(key),
        metadata_added(entries, pairs)->Some_0[key] == entries[key],
    decreases pairs.len(),
{
    if pairs.len() > 0 {
        let first = pairs[0];
        if is_header_name_text(first.0@) && entries.dom().contains(header_key(first.0@)) {
            lemma_present_metadata_unchanged(entries, pairs.drop_first(), key);
        } else {
            let next = entries.insert(header_key(first.0@), seq![first.1@]);
            assert(header_key(first.0@) != key) by {
                if header_key(first.0@) == key {
                    assert(is_sendable_metadata(first));
                }
            }
            lemma_present_metadata_unchanged(next, pairs.drop_first(), key);
        }
    }
}

/// Every entry that can be sent, whose key is neither on the request nor the key of an
/// earlier entry, is on the request afterwards with its value alone, when adding succeeds.
pub proof fn lemma_new_metadata_is_added(entries: Map<Seq<char>, Seq<Seq<char>>>, pairs: Seq<(String, String)>, i: int)
    requires
        0 <= i < pairs.len(),
        is_ascii_metadata_key_text(pairs[i].0@),
        is_header_value_text(pairs[i].1@),
        !entries.dom().contains(header_key(pairs[i].0@)),
        forall|j: int| 0 <= j < i ==> header_key(#[trigger] pairs[j].0@) != header_key(pairs[i].0@),
        metadata_added(entries, pairs) is Some,
    ensures
        metadata_added(entries, pairs)->Some_0.dom().contains(header_key(pairs[i].0@)),
        metadata_added(entries, pairs)->Some_0[header_key(pairs[i].0@)] == seq![pairs[i].1@],
    decreases pairs.len(),
{
    let first = pairs[0];
    let rest = pairs.drop_first();
    let key = header_key(pairs[i].0@);
    if i == 0 {
        let next = entries.insert(key, seq![first.1@]);
        lemma_present_metadata_unchanged(next, rest, key);
    } else {
        assert(header_key(first.0@) != key);
        assert forall|j: int| 0 <= j < i - 1 implies header_key(#[trigger] rest[j].0@) != header_key(rest[i - 1].0@) by {
            assert(rest[j] == pairs[j + 1]);
        }
        assert(rest[i - 1] == pairs[i]);
        if is_header_name_text(first.0@) && entries.dom().contains(header_key(first.0@)) {
            lemma_new_metadata_is_added(entries, rest, i - 1);
        } else {
            lemma_new_metadata_is_added(entries.insert(header_key(first.0@), seq![first.1@]), rest, i - 1);
        }
    }
}

/// Adding entries puts exactly `metadata_added_count` new keys on the request: each one it
/// counts is a key the request did not have.
pub proof fn lemma_added_count_is_new_keys(entries: Map<Seq<char>, Seq<Seq<char>>>, pairs: Seq<(String, String)>)
    requires
        entries.dom().finite(),
        metadata_added(entries, pairs) is Some,
    ensures
        metadata_added(entries, pairs)->Some_0.dom().finite(),
        metadata_added(entries, pairs)->Some_0.dom().len() == entries.dom().len() + metadata_added_count(entries, pairs),
    decreases pairs.len(),
{
    if pairs.len() > 0 {
        let first = pairs[0];
        if is_header_name_text(first.0@) && entries.dom().contains(header_key(first.0@)) {
            lemma_added_count_is_new_keys(entries, pairs.drop_first());
        } else {
            let next = entries.insert(header_key(first.0@), seq![first.1@]);
            assert(!entries.dom().contains(header_key(first.0@)));
            assert(next.dom() =~= entries.dom().insert(header_key(first.0@)));
            lemma_added_count_is_new_keys(next, pairs.drop_first());
        }
    }
}

/// Entries that can all be sent are always added: the request is never refused.
pub proof fn lemma_sendable_metadata_is_added(entries: Map<Seq<char>, Seq<Seq<char>>>, pairs: Seq<(String, String)>)
    requires
        forall|i: int| 0 <= i < pairs.len() ==> #[trigger] is_sendable_metadata(pairs[i]),
    ensures
        metadata_added(entries, pairs) is Some,
    decreases pairs.len(),
{
    if pairs.len() > 0 {
        assert(is_sendable_metadata(pairs[0]));
        assert forall|i: int| 0 <= i < pairs.drop_first().len() implies #[trigger] is_sendable_metadata(
            pairs.drop_first()[i],
        ) by {
            assert(pairs.drop_first()[i] == pairs[i + 1]);
        }
        let first = pairs[0];
        if is_header_name_text(first.0@) && entries.dom().contains(header_key(first.0@)) {
            lemma_sendable_metadata_is_added(entries, pairs.drop_first());
        } else {
            lemma_sendable_metadata_is_added(entries.insert(header_key(first.0@), seq![first.1@]), pairs.drop_first());
        }
    }
}

/// Entries whose keys the metadata already has leave it as it is, whatever their values.
pub proof fn lemma_present_metadata_is_kept(entries: Map<Seq<char>, Seq<Seq<char>>>, pairs: Seq<(String, String)>)
    requires
        forall|i: int| 0 <= i < pairs.len() ==> is_header_name_text((#[trigger] pairs[i]).0@) && entries.dom().contains(
            header_key(pairs[i].0@),
        ),
    ensures
        metadata_added(entries, pairs) == Some(entries),
    decreases pairs.len(),
{
    if pairs.len() > 0 {
        assert(is_header_name_text(pairs[0].0@));
        assert forall|i: int| 0 <= i < pairs.drop_first().len() implies is_header_name_text(
            (#[trigger] pairs.drop_first()[i]).0@,
        ) && entries.dom().contains(header_key(pairs.drop_first()[i].0@)) by {
            assert(pairs.drop_first()[i] == pairs[i + 1]);
        }
        lemma_present_metadata_is_kept(entries, pairs.drop_first());
    }
}

/// The metadata that every request of a channel carries, named texts in the order the
/// configuration gave them.
#[derive(Clone, Debug)]
pub struct Metadata(pub Option<Vec<(String, String)>>);

impl Metadata {
    /// Adds the metadata to a request: each entry whose key the request does not have yet
    /// is parsed and inserted, in order (see `metadata_added`). A key or a value that cannot
    /// be parsed stops it with an `Internal` status. Without entries the request goes on
    /// unchanged.
    pub fn call(&mut self, request: tonic::Request<()>) -> (r: Result<tonic::Request<()>, tonic::Status>)
        requires
            old(self).0 is Some ==> request_metadata_entries(request).dom().finite() && request_metadata_entries(
                request,
            ).dom().len() + old(self).0->Some_0@.len() < MAX_COMPOSED_HEADERS,
        ensures
            final(self).0 == old(self).0,
            old(self).0 is None ==> r == Ok::<tonic::Request<()>, tonic::Status>(request),
            old(self).0 is Some && old(self).0->Some_0@.len() == 0 ==> r == Ok::<tonic::Request<()>, tonic::Status>(request),
            old(self).0 is Some ==> (r is Ok <==> metadata_added(request_metadata_entries(request), old(self).0->Some_0@) is Some),
            old(self).0 is Some && r is Ok ==> request_metadata_entries(r->Ok_0) == metadata_added(
                request_metadata_entries(request),
                old(self).0->Some_0@,
            )->Some_0,
            old(self).0 is Some && r is Ok ==> request_metadata_len(r->Ok_0) == request_metadata_len(request)
                + metadata_added_count(request_metadata_entries(request), old(self).0->Some_0@),
            r is Err ==> status_code(r->Err_0) == STATUS_CODE_INTERNAL,
            old(self).0 is Some && r is Err ==> metadata_refusal(request_metadata_entries(request), old(self).0->Some_0@)
                == Some(status_message(r->Err_0)),
    {
        match &self.0 {
            None => Ok(request),
            Some(metadata) => {
                let n = metadata.len();
                if n == 0 {
                    return Ok(request);
                }
                let mut new_request = request;
                let mut i: usize = 0;
                proof {
                    assert(metadata@.skip(0) =~= metadata@);
                }
                while i < n
                    invariant
                        n == metadata@.len(),
                        n > 0,
                        old(self).0 is Some,
                        old(self).0->Some_0@ == metadata@,
                        i <= n,
                        request_metadata_entries(new_request).dom().finite(),
                        request_metadata_entries(new_request).dom().len() <= request_metadata_entries(request).dom().len()
                            + i,
                        request_metadata_entries(request).dom().len() + n < MAX_COMPOSED_HEADERS,
                        metadata_added(request_metadata_entries(request), metadata@) == metadata_added(
                            request_metadata_entries(new_request),
                            metadata@.skip(i as int),
                        ),
                        metadata_refusal(request_metadata_entries(request), metadata@) == metadata_refusal(
                            request_metadata_entries(new_request),
                            metadata@.skip(i as int),
                        ),
                        request_metadata_len(request) + metadata_added_count(request_metadata_entries(request), metadata@)
                            == request_metadata_len(new_request) + metadata_added_count(
                            request_metadata_entries(new_request),
                            metadata@.skip(i as int),
                        ),
                    decreases n - i,
                {
                    let key = metadata[i].0.as_str();
                    let value = metadata[i].1.as_str();
                    proof {
                        assert(metadata@.skip(i as int)[0] == metadata@[i as int]);
                        assert(metadata@.skip(i as int).drop_first() =~= metadata@.skip(i + 1));
                    }
                    if !request_metadata_contains(&new_request, key) {
                        match ascii_metadata_key_check(key) {
                            Ok(()) => {},
                            Err(e) => {
                                return Err(status_internal(invalid_key_text(&e)));
                            },
                        };
                        match ascii_metadata_value_check(value) {
                            Ok(()) => {},
                            Err(e) => {
                                return Err(status_internal(invalid_value_text(&e)));
                            },
                        };
                        request_metadata_insert(&mut new_request, key, value);
                    }
                    i = i + 1;
                }
                proof {
                    assert(metadata@.skip(n as int).len() == 0);
                    assert(metadata@.skip(0) =~= metadata@);
                }
                Ok(new_request)
            },
        }
    }

    /// `call`, on any request: where the request's metadata keys and the entries to add could
    /// pass the size at which a metadata map panics, it gives `None` and adds nothing;
    /// elsewhere it gives what `call` gives.
    pub fn try_call(&mut self, request: tonic::Request<()>) -> (r: Option<Result<tonic::Request<()>, tonic::Status>>)
        ensures
            final(self).0 == old(self).0,
            r is None <==> (old(self).0 is Some && request_metadata_entries(request).dom().len() + old(
                self,
            ).0->Some_0@.len() >= MAX_COMPOSED_HEADERS),
            old(self).0 is None ==> r == Some(Ok::<tonic::Request<()>, tonic::Status>(request)),
            old(self).0 is Some && r is Some ==> (r->Some_0 is Ok <==> metadata_added(
                request_metadata_entries(request),
                old(self).0->Some_0@,
            ) is Some),
            old(self).0 is Some && r is Some && r->Some_0 is Ok ==> request_metadata_entries(r->Some_0->Ok_0)
                == metadata_added(request_metadata_entries(request), old(self).0->Some_0@)->Some_0
                && request_metadata_len(r->Some_0->Ok_0) == request_metadata_len(request) + metadata_added_count(
                request_metadata_entries(request),
                old(self).0->Some_0@,
            ),
            r matches Some(Err(s)) ==> status_code(s) == STATUS_CODE_INTERNAL,
    {
        let count = request_metadata_key_count(&request);
        let fits = match &self.0 {
            None => true,
            Some(metadata) => metadata.len() < MAX_COMPOSED_HEADERS && count < MAX_COMPOSED_HEADERS - metadata.len(),
        };
        if fits {
            Some(self.call(request))
        } else {
            None
        }
    }
}

} // verus!
