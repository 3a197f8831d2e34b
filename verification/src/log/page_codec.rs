//! Decoding of pages, and its agreement with their encoding.

use vstd::prelude::*;
use crate::log::decoding;
use crate::log::decoding::{
    decode_digest, decode_identity_id, decode_safe_uint, decode_unsigned,
};
use crate::log::error::IdentityLogPageError;
use crate::log::inverse;
use crate::log::page;
use crate::log::page::{
    IdentityLogPageV1, Page, IDENTITY_LOG_PAGE_WIRE_MAJOR, IDENTITY_LOG_PAGE_WIRE_MINOR,
    MAX_IDENTITY_LOG_PAGE_BYTES, MAX_IDENTITY_LOG_PAGE_EVENT_BYTES,
};
use crate::wire::bytes::to_vec;
use crate::wire::cbor;
use crate::wire::cbor_lemmas;
use crate::wire::codec::decode_deterministic_cbor;
use crate::wire::digest::Sha256Digest;
use crate::wire::id;
use crate::wire::id::IdentityId;
use crate::wire::number::SafeUint;
use crate::wire::record;
use crate::wire::record::exact_fields;
use crate::wire::value;
use crate::wire::value::{CanonicalValue, Value};

verus! {

/// `value` is the page wire marker.
pub open spec fn is_page_wire(value: Value) -> bool {
    &&& record::is_record(value, 2)
    &&& record::field_of(value, 1) == Value::Unsigned(IDENTITY_LOG_PAGE_WIRE_MAJOR)
    &&& record::field_of(value, 2) == Value::Unsigned(IDENTITY_LOG_PAGE_WIRE_MINOR)
}

/// Checks the items from `i` on in order: each is the bytes of one event.
pub open spec fn check_blobs(items: Seq<Value>, i: int) -> Result<(), IdentityLogPageError>
    decreases items.len() - i,
{
    if i >= items.len() {
        Ok(())
    } else if !(items[i] is Bytes) {
        Err(IdentityLogPageError::InvalidCanonical)
    } else if !page::is_event_size(items[i]->Bytes_0) {
        Err(IdentityLogPageError::PageTooLarge)
    } else {
        check_blobs(items, i + 1)
    }
}

/// The byte strings of an array.
pub open spec fn blobs_of(items: Seq<Value>) -> Seq<Seq<u8>> {
    Seq::new(items.len(), |i: int| items[i]->Bytes_0)
}

/// The verified page that `value` holds.
pub open spec fn read_page(value: Value) -> Result<Page, IdentityLogPageError> {
    if !(record::is_record(value, 8) && is_page_wire(record::field_of(value, 1))
        && decoding::is_identity(record::field_of(value, 2)) && decoding::is_safe_uint(
        record::field_of(value, 3),
    ) && decoding::is_bytes(record::field_of(value, 4), 32) && decoding::is_safe_uint(
        record::field_of(value, 5),
    ) && record::field_of(value, 6) is Array) {
        Err(IdentityLogPageError::InvalidCanonical)
    } else {
        let items = record::field_of(value, 6)->Array_0;
        match check_blobs(items, 0) {
            Err(error) => Err(error),
            Ok(_) => {
                if !(decoding::is_safe_uint(record::field_of(value, 7)) && record::field_of(
                    value,
                    8,
                ) is Bool) {
                    Err(IdentityLogPageError::InvalidCanonical)
                } else {
                    let page = Page {
                        identity_id: decoding::identity_of(record::field_of(value, 2)),
                        advertised_head_sequence: record::field_of(value, 3)->Unsigned_0,
                        advertised_head_hash: record::field_of(value, 4)->Bytes_0,
                        requested_after_sequence: record::field_of(value, 5)->Unsigned_0,
                        exact_events: blobs_of(items),
                        next_after_sequence: record::field_of(value, 7)->Unsigned_0,
                        has_more: record::field_of(value, 8)->Bool_0,
                    };
                    match page::page_check(page) {
                        Err(error) => Err(error),
                        Ok(_) => Ok(page),
                    }
                }
            },
        }
    }
}

/// The verified page with the given byte form.
pub open spec fn decode_page(bytes: Seq<u8>) -> Result<Page, IdentityLogPageError> {
    if bytes.len() == 0 || bytes.len() > MAX_IDENTITY_LOG_PAGE_BYTES {
        Err(IdentityLogPageError::PageTooLarge)
    } else if cbor::is_encoded(bytes) {
        read_page(cbor::decoded(bytes))
    } else {
        Err(IdentityLogPageError::InvalidCanonical)
    }
}

/// Accepted items are byte strings of the size of an event.
pub proof fn lemma_blobs_checked(items: Seq<Value>, i: int)
    requires
        0 <= i,
        check_blobs(items, i) is Ok,
    ensures
        forall|j: int|
            i <= j < items.len() ==> (#[trigger] items[j]) is Bytes && page::is_event_size(
                items[j]->Bytes_0,
            ),
    decreases items.len() - i,
{
    if i < items.len() {
        lemma_blobs_checked(items, i + 1);
    }
}

/// Byte strings of the size of an event are accepted.
pub proof fn lemma_blobs_accepted(items: Seq<Value>, i: int)
    requires
        0 <= i,
        forall|j: int|
            i <= j < items.len() ==> (#[trigger] items[j]) is Bytes && page::is_event_size(
                items[j]->Bytes_0,
            ),
    ensures
        check_blobs(items, i) is Ok,
    decreases items.len() - i,
{
    if i < items.len() {
        lemma_blobs_accepted(items, i + 1);
    }
}

/// The events of a checked page have the size of an event.
pub proof fn lemma_checked_event_sizes(page: Page, i: int, previous: Option<Seq<u8>>)
    requires
        0 <= i,
        page::check_events(page, i, previous) is Ok,
    ensures
        forall|j: int|
            i <= j < page.exact_events.len() ==> page::is_event_size(
                #[trigger] page.exact_events[j],
            ),
    decreases page.exact_events.len() - i,
{
    if i < page.exact_events.len() {
        let hash = page::check_event(page, i, previous)->Ok_0;
        lemma_checked_event_sizes(page, i + 1, Some(hash));
    }
}

/// A page's canonical value is that of the page it reads as.
pub proof fn lemma_page_value(value: Value)
    requires
        read_page(value) is Ok,
    ensures
        value == page::page_model(read_page(value)->Ok_0),
        page::is_page(read_page(value)->Ok_0),
        page::page_check(read_page(value)->Ok_0) is Ok,
{
    let read = read_page(value)->Ok_0;
    let marker = record::field_of(value, 1);
    record::lemma_record_of_fields(marker, 2);
    assert(record::fields_of(marker) =~= seq![
        Value::Unsigned(IDENTITY_LOG_PAGE_WIRE_MAJOR),
        Value::Unsigned(IDENTITY_LOG_PAGE_WIRE_MINOR),
    ]);
    inverse::lemma_identity_value(record::field_of(value, 2));
    let items = record::field_of(value, 6)->Array_0;
    lemma_blobs_checked(items, 0);
    assert(page::blobs_model(blobs_of(items))->Array_0 =~= items);
    record::lemma_record_of_fields(value, 8);
    let fields = record::fields_of(value);
    assert(fields[0] == record::field_of(value, 1));
    assert(fields[1] == record::field_of(value, 2));
    assert(fields[2] == record::field_of(value, 3));
    assert(fields[3] == record::field_of(value, 4));
    assert(fields[4] == record::field_of(value, 5));
    assert(fields[5] == record::field_of(value, 6));
    assert(fields[6] == record::field_of(value, 7));
    assert(fields[7] == record::field_of(value, 8));
    assert(fields =~= page::page_fields(read));
}

/// A checked page reads back from its value.
pub proof fn lemma_page_read(page: Page)
    requires
        page::is_page(page),
        page::page_check(page) is Ok,
    ensures
        read_page(page::page_model(page)) == Ok::<Page, IdentityLogPageError>(page),
{
    let fields = page::page_fields(page);
    let value = record::record(fields);
    let marker = seq![
        Value::Unsigned(IDENTITY_LOG_PAGE_WIRE_MAJOR),
        Value::Unsigned(IDENTITY_LOG_PAGE_WIRE_MINOR),
    ];
    record::lemma_record_fields(fields);
    record::lemma_record_fields(marker);
    assert(record::field_of(value, 1) == fields[0]);
    assert(record::field_of(value, 2) == fields[1]);
    assert(record::field_of(value, 3) == fields[2]);
    assert(record::field_of(value, 4) == fields[3]);
    assert(record::field_of(value, 5) == fields[4]);
    assert(record::field_of(value, 6) == fields[5]);
    assert(record::field_of(value, 7) == fields[6]);
    assert(record::field_of(value, 8) == fields[7]);
    assert(record::field_of(record::record(marker), 1) == marker[0]);
    assert(record::field_of(record::record(marker), 2) == marker[1]);
    id::lemma_identity_text(page.identity_id);
    lemma_checked_event_sizes(page, 0, None);
    let items = page::blobs_model(page.exact_events)->Array_0;
    assert forall|j: int| 0 <= j < items.len() implies (#[trigger] items[j]) is Bytes
        && page::is_event_size(items[j]->Bytes_0) by {
        assert(page::is_event_size(page.exact_events[j]));
    }
    lemma_blobs_accepted(items, 0);
    assert(blobs_of(items) =~= page.exact_events);
}

/// Reads the page wire marker.
fn decode_page_wire(value: &CanonicalValue) -> (valid: bool)
    ensures
        valid == is_page_wire(value@),
{
    let fields = match exact_fields(value, 2) {
        Some(fields) => fields,
        None => {
            return false;
        },
    };
    assert(fields@[0].1@ == record::field_of(value@, 1));
    assert(fields@[1].1@ == record::field_of(value@, 2));
    match (decode_unsigned(&fields[0].1), decode_unsigned(&fields[1].1)) {
        (Some(major), Some(minor)) => major == IDENTITY_LOG_PAGE_WIRE_MAJOR && minor
            == IDENTITY_LOG_PAGE_WIRE_MINOR,
        _ => false,
    }
}

/// Reads the bytes of each event.
fn decode_event_blobs(items: &Vec<CanonicalValue>) -> (blobs: Result<
    Vec<Vec<u8>>,
    IdentityLogPageError,
>)
    ensures
        match blobs {
            Ok(blobs) => {
                &&& check_blobs(value::items_view(items@), 0) is Ok
                &&& page::blobs_view(blobs@) == blobs_of(value::items_view(items@))
            },
            Err(error) => check_blobs(value::items_view(items@), 0) == Err::<
                (),
                IdentityLogPageError,
            >(error),
        },
{
    let ghost models = value::items_view(items@);
    let mut blobs: Vec<Vec<u8>> = Vec::new();
    for i in 0..items.len()
        invariant
            models == value::items_view(items@),
            check_blobs(models, 0) == check_blobs(models, i as int),
            blobs@.len() == i,
            forall|j: int|
                0 <= j < i ==> (#[trigger] models[j]) is Bytes && models[j]->Bytes_0 == blobs@[j]@,
    {
        assert(models[i as int] == items@[i as int]@);
        match &items[i] {
            CanonicalValue::Bytes(content) => {
                if content.len() == 0 || content.len() > MAX_IDENTITY_LOG_PAGE_EVENT_BYTES {
                    return Err(IdentityLogPageError::PageTooLarge);
                }
                blobs.push(to_vec(content.as_slice()));
            },
            _ => {
                return Err(IdentityLogPageError::InvalidCanonical);
            },
        }
    }
    assert(page::blobs_view(blobs@) =~= blobs_of(models));
    Ok(blobs)
}

/// Reads and verifies a page.
fn decode_page_value(value: &CanonicalValue) -> (page: Result<
    IdentityLogPageV1,
    IdentityLogPageError,
>)
    ensures
        match page {
            Ok(page) => read_page(value@) == Ok::<Page, IdentityLogPageError>(page@),
            Err(error) => read_page(value@) == Err::<Page, IdentityLogPageError>(error),
        },
{
    let fields = match exact_fields(value, 8) {
        Some(fields) => fields,
        None => {
            return Err(IdentityLogPageError::InvalidCanonical);
        },
    };
    assert(fields@[0].1@ == record::field_of(value@, 1));
    assert(fields@[1].1@ == record::field_of(value@, 2));
    assert(fields@[2].1@ == record::field_of(value@, 3));
    assert(fields@[3].1@ == record::field_of(value@, 4));
    assert(fields@[4].1@ == record::field_of(value@, 5));
    assert(fields@[5].1@ == record::field_of(value@, 6));
    assert(fields@[6].1@ == record::field_of(value@, 7));
    assert(fields@[7].1@ == record::field_of(value@, 8));
    if !decode_page_wire(&fields[0].1) {
        return Err(IdentityLogPageError::InvalidCanonical);
    }
    let identity_id: IdentityId = match decode_identity_id(&fields[1].1) {
        Some(identity_id) => identity_id,
        None => {
            return Err(IdentityLogPageError::InvalidCanonical);
        },
    };
    let head_sequence: SafeUint = match decode_safe_uint(&fields[2].1) {
        Some(head_sequence) => head_sequence,
        None => {
            return Err(IdentityLogPageError::InvalidCanonical);
        },
    };
    let head_hash: Sha256Digest = match decode_digest(&fields[3].1) {
        Some(head_hash) => head_hash,
        None => {
            return Err(IdentityLogPageError::InvalidCanonical);
        },
    };
    let requested: SafeUint = match decode_safe_uint(&fields[4].1) {
        Some(requested) => requested,
        None => {
            return Err(IdentityLogPageError::InvalidCanonical);
        },
    };
    let exact_events: Vec<Vec<u8>> = match &fields[5].1 {
        CanonicalValue::Array(items) => {
            proof {
                value::lemma_array_view(*items);
            }
            match decode_event_blobs(items) {
                Ok(blobs) => blobs,
                Err(error) => {
                    return Err(error);
                },
            }
        },
        _ => {
            return Err(IdentityLogPageError::InvalidCanonical);
        },
    };
    let next: SafeUint = match decode_safe_uint(&fields[6].1) {
        Some(next) => next,
        None => {
            return Err(IdentityLogPageError::InvalidCanonical);
        },
    };
    let has_more: bool = match &fields[7].1 {
        CanonicalValue::Bool(flag) => *flag,
        _ => {
            return Err(IdentityLogPageError::InvalidCanonical);
        },
    };
    IdentityLogPageV1::new(
        identity_id,
        head_sequence,
        head_hash,
        requested.get(),
        exact_events,
        next.get(),
        has_more,
    )
}

impl IdentityLogPageV1 {
    /// Decodes a deterministic-CBOR page and revalidates every exact event.
    ///
    /// The bytes of an accepted page are exactly its encoding, so decoding and
    /// encoding again changes nothing.
    pub fn decode_and_verify(bytes: &[u8]) -> (decoded: Result<Self, IdentityLogPageError>)
        ensures
            match decoded {
                Ok(page) => {
                    &&& decode_page(bytes@) == Ok::<Page, IdentityLogPageError>(page@)
                    &&& page::is_page(page@)
                    &&& page::page_check(page@) is Ok
                    &&& bytes@ == cbor::encoding(page::page_model(page@))
                },
                Err(error) => decode_page(bytes@) == Err::<Page, IdentityLogPageError>(error),
            },
    {
        if bytes.len() == 0 || bytes.len() > MAX_IDENTITY_LOG_PAGE_BYTES {
            return Err(IdentityLogPageError::PageTooLarge);
        }
        let value = match decode_deterministic_cbor(bytes) {
            Ok(value) => value,
            Err(_) => {
                return Err(IdentityLogPageError::InvalidCanonical);
            },
        };
        proof {
            cbor_lemmas::lemma_decoded(value@);
        }
        match decode_page_value(&value) {
            Ok(page) => {
                proof {
                    lemma_page_value(value@);
                }
                Ok(page)
            },
            Err(error) => Err(error),
        }
    }
}

} // verus!
