//! The metadata of a call: which entries are handed on to the next hop, and
//! the request id among them.

use vstd::prelude::*;
use vstd::string::*;
use tonic::metadata::{Ascii, MetadataMap, MetadataValue};
use crate::trans::{is_tracing_key, TRACING_KEYS};

verus! {

/// tonic's `MetadataMap`: the custom metadata of a call.
#[verifier::external_type_specification]
#[verifier::external_body]
pub struct ExMetadataMap(tonic::metadata::MetadataMap);

/// What `MetadataMap::get` finds in a map: under each name that has a text
/// value, the bytes of the first value under that name.
pub uninterp spec fn ascii_entries(m: MetadataMap) -> Map<Seq<char>, Seq<u8>>;

/// The number of names in a map: what `MetadataMap::keys_len` returns.
pub uninterp spec fn key_count(m: MetadataMap) -> nat;

/// Whether the bytes can stand in a text value: from 32 on without 127, or a
/// tab.
pub open spec fn is_value_bytes(bytes: Seq<u8>) -> bool {
    forall|i: int| 0 <= i < bytes.len() ==> ((#[trigger] bytes[i]) >= 32 && bytes[i] != 127)
        || bytes[i] == 9
}

/// Whether `key` is a name that this library looks up: a tracing header, or
/// `request-id`.
pub open spec fn is_request_key(key: Seq<char>) -> bool {
    is_tracing_key(key) || key == "request-id"@
}

/// The entries of a map that holds nothing.
pub open spec fn no_entries() -> Map<Seq<char>, Seq<u8>> {
    Map::empty()
}

/// `MetadataMap::new` makes a map that holds nothing.
pub assume_specification[ tonic::metadata::MetadataMap::new ]() -> (fresh: MetadataMap)
    ensures
        ascii_entries(fresh) == no_entries(),
        key_count(fresh) == 0,
;

/// The bytes of the first value under `key`: `MetadataMap::get` with a `&str`
/// key, which finds nothing where the name is absent, and `MetadataValue::as_bytes`
/// on what it finds. A value that a map holds is made of bytes that can stand
/// in a value.
#[verifier::external_body]
pub(crate) fn first_value(m: &MetadataMap, key: &str) -> (r: Option<Vec<u8>>)
    requires
        is_request_key(key@),
    ensures
        match r {
            Some(v) => ascii_entries(*m).contains_key(key@) && ascii_entries(*m)[key@] == v@
                && is_value_bytes(v@),
            None => !ascii_entries(*m).contains_key(key@),
        },
{
    m.get(key).map(|v| v.as_bytes().to_vec())
}

/// Puts `value` under `key` in place of every value that stood there:
/// `MetadataMap::insert` with a `&'static str` key, on the value that
/// `MetadataValue::try_from` makes of the bytes. Bytes that cannot stand in a
/// value are refused and the map stays as it was. The names asked for are
/// valid lower-case header names that do not end in `-bin`, and the map is far
/// from the size at which `insert` gives up.
#[verifier::external_body]
fn put_value(m: &mut MetadataMap, key: &'static str, value: &Vec<u8>) -> (stored: bool)
    requires
        is_request_key(key@),
        key_count(*old(m)) < 1024,
    ensures
        stored ==> ascii_entries(*final(m)) == ascii_entries(*old(m)).insert(key@, value@),
        !stored ==> ascii_entries(*final(m)) == ascii_entries(*old(m)),
        stored == is_value_bytes(value@),
        key_count(*final(m)) <= key_count(*old(m)) + 1,
{
    match MetadataValue::<Ascii>::try_from(value.as_slice()) {
        Ok(v) => {
            m.insert(key, v);
            true
        },
        Err(_) => false,
    }
}

/// The entries of `entries` under the tracing headers, and nothing else.
pub open spec fn carried(entries: Map<Seq<char>, Seq<u8>>) -> Map<Seq<char>, Seq<u8>> {
    entries.restrict(Set::new(|key: Seq<char>| is_tracing_key(key)))
}

/// Handing on what was handed on changes nothing.
pub proof fn lemma_carried_is_idempotent(entries: Map<Seq<char>, Seq<u8>>)
    ensures
        carried(carried(entries)) == carried(entries),
{
    assert(carried(carried(entries)) =~= carried(entries));
}

/// Propagating what was propagated gives the same entries once more: where
/// `once` is what `propagate_headers` makes of `inbound`, and `twice` what it
/// makes of `once`, the two hold the same.
pub proof fn lemma_propagation_is_idempotent(
    inbound: MetadataMap,
    once: MetadataMap,
    twice: MetadataMap,
)
    requires
        ascii_entries(once) == carried(ascii_entries(inbound)),
        ascii_entries(twice) == carried(ascii_entries(once)),
    ensures
        ascii_entries(twice) == ascii_entries(once),
{
    lemma_carried_is_idempotent(ascii_entries(inbound));
}

/// What is handed on holds tracing headers only.
pub proof fn lemma_carried_keys(entries: Map<Seq<char>, Seq<u8>>, key: Seq<char>)
    requires
        carried(entries).contains_key(key),
    ensures
        is_tracing_key(key),
        entries.contains_key(key),
        carried(entries)[key] == entries[key],
{
}

spec fn among_first(n: int) -> Set<Seq<char>> {
    Set::new(|key: Seq<char>| exists|j: int| 0 <= j < n && (#[trigger] TRACING_KEYS[j])@ == key)
}

/// The metadata for the call to the next hop: a fresh map with the entries of
/// `inbound` under the tracing headers, each with the first value it has.
pub fn propagate_headers(inbound: &MetadataMap) -> (outbound: MetadataMap)
    ensures
        ascii_entries(outbound) == carried(ascii_entries(*inbound)),
        key_count(outbound) <= 7,
{
    let mut outbound = MetadataMap::new();
    let mut i: usize = 0;
    assert(ascii_entries(outbound) =~= ascii_entries(*inbound).restrict(among_first(0)));
    while i < 7
        invariant
            i <= 7,
            key_count(outbound) <= i,
            ascii_entries(outbound) == ascii_entries(*inbound).restrict(among_first(i as int)),
        decreases 7 - i,
    {
        let key: &'static str = TRACING_KEYS[i];
        assert(is_tracing_key(key@));
        let ghost before = ascii_entries(outbound);
        let ghost source = ascii_entries(*inbound);
        match first_value(inbound, key) {
            Some(value) => {
                let stored = put_value(&mut outbound, key, &value);
                assert(stored);
                assert(ascii_entries(outbound) =~= source.restrict(among_first(i + 1))) by {
                    assert forall|k: Seq<char>| among_first(i + 1).contains(k) <==> (
                    among_first(i as int).contains(k) || k == key@) by {
                        if among_first(i + 1).contains(k) {
                            let j = choose|j: int|
                                0 <= j < i + 1 && (#[trigger] TRACING_KEYS[j])@ == k;
                            if j < i {
                                assert(among_first(i as int).contains(k));
                            }
                        }
                        if among_first(i as int).contains(k) {
                            let j = choose|j: int| 0 <= j < i && (#[trigger] TRACING_KEYS[j])@ == k;
                            assert(0 <= j < i + 1 && TRACING_KEYS[j]@ == k);
                        }
                        if k == key@ {
                            assert(TRACING_KEYS[i as int]@ == k);
                        }
                    }
                }
            },
            None => {
                assert(ascii_entries(outbound) =~= source.restrict(among_first(i + 1))) by {
                    assert forall|k: Seq<char>|
                        source.contains_key(k) implies (among_first(i + 1).contains(k)
                        <==> among_first(i as int).contains(k)) by {
                        if among_first(i + 1).contains(k) {
                            let j = choose|j: int|
                                0 <= j < i + 1 && (#[trigger] TRACING_KEYS[j])@ == k;
                            if j < i {
                                assert(among_first(i as int).contains(k));
                            }
                        }
                        if among_first(i as int).contains(k) {
                            let j = choose|j: int| 0 <= j < i && (#[trigger] TRACING_KEYS[j])@ == k;
                            assert(0 <= j < i + 1 && TRACING_KEYS[j]@ == k);
                        }
                    }
                }
            },
        }
        i += 1;
    }
    assert(among_first(7) =~= Set::new(|key: Seq<char>| is_tracing_key(key)));
    outbound
}

} // verus!
