//! Bounded read-only pages of exact signed events.

use vstd::prelude::*;
use crate::log::authority;
use crate::log::error::IdentityLogPageError;
use crate::log::event;
use crate::log::event::IdentityLogEventV1;
use crate::log::event_codec;
use crate::log::wire_line::IDENTITY_LOG_WIRE_VERSION;
use crate::wire::bytes::to_vec;
use crate::wire::cbor;
use crate::wire::digest::Sha256Digest;
use crate::wire::id::IdentityId;
use crate::wire::number::{SafeUint, MAX_SAFE_INTEGER};
use crate::wire::record;
use crate::wire::record::{build_record, encode_deterministic_cbor, CanonicalEncode};
use crate::wire::text;
use crate::wire::value;
use crate::wire::value::{CanonicalValue, Value};
use crate::wire::version::wire_equal;

verus! {

/// Exact independent wire marker for read-only identity-log pages.
///
/// Pages use a compact two-integer marker, while each embedded event retains
/// its independently versioned wire marker.
pub const IDENTITY_LOG_PAGE_WIRE_MAJOR: u64 = 1;

/// Exact independent wire marker for read-only identity-log pages.
pub const IDENTITY_LOG_PAGE_WIRE_MINOR: u64 = 1;

/// Maximum number of exact signed events carried by one identity-log page.
pub const MAX_IDENTITY_LOG_PAGE_EVENTS: usize = 64;

/// Maximum deterministic-CBOR identity-log page size.
pub const MAX_IDENTITY_LOG_PAGE_BYTES: usize = 2 * 1024 * 1024;

/// Maximum exact signed event bytes embedded in one identity-log page.
pub const MAX_IDENTITY_LOG_PAGE_EVENT_BYTES: usize = 1024 * 1024;

/// The model of a page.
pub struct Page {
    pub identity_id: Seq<u8>,
    pub advertised_head_sequence: u64,
    pub advertised_head_hash: Seq<u8>,
    pub requested_after_sequence: u64,
    pub exact_events: Seq<Seq<u8>>,
    pub next_after_sequence: u64,
    pub has_more: bool,
}

/// The byte strings of a list of vectors.
pub open spec fn blobs_view(blobs: Seq<Vec<u8>>) -> Seq<Seq<u8>> {
    Seq::new(blobs.len(), |i: int| blobs[i]@)
}

/// The fields of a page have the right form.
pub open spec fn is_page(page: Page) -> bool {
    &&& page.identity_id.len() == 32
    &&& page.advertised_head_sequence <= MAX_SAFE_INTEGER
    &&& page.advertised_head_hash.len() == 32
}

/// The bytes of one event are neither absent nor too many.
pub open spec fn is_event_size(bytes: Seq<u8>) -> bool {
    0 < bytes.len() <= MAX_IDENTITY_LOG_PAGE_EVENT_BYTES
}

/// Checks the event at `i`, given the entry hash of the event before it in the
/// page, and gives its entry hash.
pub open spec fn check_event(page: Page, i: int, previous: Option<Seq<u8>>) -> Result<
    Seq<u8>,
    IdentityLogPageError,
> {
    let expected = page.requested_after_sequence + i + 1;
    if !is_event_size(page.exact_events[i]) {
        Err(IdentityLogPageError::PageTooLarge)
    } else {
        match event_codec::decode_event(page.exact_events[i]) {
            Err(error) => Err(IdentityLogPageError::InvalidEvent(error)),
            Ok(event) => {
                if event.unsigned.identity_id != page.identity_id || event.unsigned.wire
                    != IDENTITY_LOG_WIRE_VERSION {
                    Err(IdentityLogPageError::IdentityMismatch)
                } else if event.unsigned.sequence != expected {
                    Err(IdentityLogPageError::SequenceMismatch)
                } else if previous is Some && event.unsigned.previous_event_hash != previous {
                    Err(IdentityLogPageError::PreviousHashMismatch)
                } else if previous is None && expected == 1
                    && event.unsigned.previous_event_hash is Some {
                    Err(IdentityLogPageError::PreviousHashMismatch)
                } else {
                    Ok(event::entry_hash_of(event))
                }
            },
        }
    }
}

/// Checks the events from `i` on in order, and gives the entry hash of the
/// last event.
pub open spec fn check_events(page: Page, i: int, previous: Option<Seq<u8>>) -> Result<
    Option<Seq<u8>>,
    IdentityLogPageError,
>
    decreases page.exact_events.len() - i,
{
    if i >= page.exact_events.len() {
        Ok(previous)
    } else {
        match check_event(page, i, previous) {
            Err(error) => Err(error),
            Ok(hash) => check_events(page, i + 1, Some(hash)),
        }
    }
}

/// Whether a page is bounded, contiguous, and bound to its advertised head.
pub open spec fn page_check(page: Page) -> Result<(), IdentityLogPageError> {
    let count = page.exact_events.len();
    let terminal = page.next_after_sequence == page.advertised_head_sequence;
    if page.requested_after_sequence > MAX_SAFE_INTEGER || page.next_after_sequence
        > MAX_SAFE_INTEGER || page.advertised_head_sequence == 0 || page.requested_after_sequence
        > page.advertised_head_sequence || page.next_after_sequence
        > page.advertised_head_sequence {
        Err(IdentityLogPageError::InvalidCursor)
    } else if count > MAX_IDENTITY_LOG_PAGE_EVENTS {
        Err(IdentityLogPageError::EventLimitExceeded)
    } else {
        match check_events(page, 0, None) {
            Err(error) => Err(error),
            Ok(last) => {
                if page.next_after_sequence != page.requested_after_sequence + count {
                    Err(IdentityLogPageError::NextCursorMismatch)
                } else if page.has_more == terminal || (page.has_more && count == 0) {
                    Err(IdentityLogPageError::PaginationMismatch)
                } else if terminal && count > 0 && last != Some(page.advertised_head_hash) {
                    Err(IdentityLogPageError::AdvertisedHeadMismatch)
                } else if cbor::encoding(page_model(page)).len() > MAX_IDENTITY_LOG_PAGE_BYTES {
                    Err(IdentityLogPageError::PageTooLarge)
                } else {
                    Ok(())
                }
            },
        }
    }
}

/// The canonical value of a list of byte strings.
pub open spec fn blobs_model(blobs: Seq<Seq<u8>>) -> Value {
    Value::Array(Seq::new(blobs.len(), |i: int| Value::Bytes(blobs[i])))
}

/// The canonical value of the page wire marker.
pub open spec fn page_wire_model() -> Value {
    record::record(
        seq![
            Value::Unsigned(IDENTITY_LOG_PAGE_WIRE_MAJOR),
            Value::Unsigned(IDENTITY_LOG_PAGE_WIRE_MINOR),
        ],
    )
}

/// The canonical fields of a page.
pub open spec fn page_fields(page: Page) -> Seq<Value> {
    seq![
        page_wire_model(),
        Value::Text(text::hex(page.identity_id)),
        Value::Unsigned(page.advertised_head_sequence),
        Value::Bytes(page.advertised_head_hash),
        Value::Unsigned(page.requested_after_sequence),
        blobs_model(page.exact_events),
        Value::Unsigned(page.next_after_sequence),
        Value::Bool(page.has_more),
    ]
}

/// The canonical value of a page.
pub open spec fn page_model(page: Page) -> Value {
    record::record(page_fields(page))
}

/// A page has a deterministic byte form.
pub proof fn lemma_page_canonical(page: Page)
    requires
        is_page(page),
        page.exact_events.len() <= u64::MAX,
        forall|i: int|
            0 <= i < page.exact_events.len() ==> (#[trigger] page.exact_events[i]).len()
                <= u64::MAX,
    ensures
        cbor::canonical(page_model(page)),
{
    let marker = seq![
        Value::Unsigned(IDENTITY_LOG_PAGE_WIRE_MAJOR),
        Value::Unsigned(IDENTITY_LOG_PAGE_WIRE_MINOR),
    ];
    record::lemma_record_canonical(marker, 0);
    text::lemma_hex_ascii(page.identity_id);
    text::lemma_ascii_len(text::hex(page.identity_id));
    let blobs = blobs_model(page.exact_events);
    assert forall|i: int| 0 <= i < blobs->Array_0.len() implies cbor::canonical_within(
        #[trigger] blobs->Array_0[i],
        0,
    ) by {
        assert(page.exact_events[i].len() <= u64::MAX);
    }
    assert(cbor::canonical_within(blobs, 1));
    record::lemma_record_canonical(page_fields(page), 1);
    record::lemma_canonical_deeper(page_model(page), 2, cbor::MAX_CANONICAL_DEPTH as nat);
}

/// One bounded, read-only page of exact signed identity-log events.
///
/// The page is transport metadata, not a second signature layer. Consumers
/// still reduce each embedded event with their locally trusted projection
/// before trusting device keys or relay descriptors. This type proves the
/// page itself is canonical, contiguous, and internally bound to its terminal
/// advertised head when that head is present in the page.
#[derive(Debug, PartialEq, Eq)]
pub struct IdentityLogPageV1 {
    identity_id: IdentityId,
    advertised_head_sequence: SafeUint,
    advertised_head_hash: Sha256Digest,
    requested_after_sequence: u64,
    exact_events: Vec<Vec<u8>>,
    next_after_sequence: u64,
    has_more: bool,
}

/// Checks the events of a page in order, and gives the entry hash of the last
/// one.
fn check_page_events(
    identity_id: IdentityId,
    requested_after_sequence: u64,
    exact_events: &Vec<Vec<u8>>,
    Ghost(page): Ghost<Page>,
) -> (last: Result<Option<Sha256Digest>, IdentityLogPageError>)
    requires
        requested_after_sequence <= MAX_SAFE_INTEGER,
        exact_events@.len() <= MAX_IDENTITY_LOG_PAGE_EVENTS,
        page.identity_id == identity_id@,
        page.requested_after_sequence == requested_after_sequence,
        page.exact_events == blobs_view(exact_events@),
    ensures
        match last {
            Ok(last) => check_events(page, 0, None) == Ok::<
                Option<Seq<u8>>,
                IdentityLogPageError,
            >(authority::digest_view(last)),
            Err(error) => check_events(page, 0, None) == Err::<
                Option<Seq<u8>>,
                IdentityLogPageError,
            >(error),
        },
{
    let mut previous: Option<Sha256Digest> = None;
    for i in 0..exact_events.len()
        invariant
            requested_after_sequence <= MAX_SAFE_INTEGER,
            exact_events@.len() <= MAX_IDENTITY_LOG_PAGE_EVENTS,
            page.identity_id == identity_id@,
            page.requested_after_sequence == requested_after_sequence,
            page.exact_events == blobs_view(exact_events@),
            check_events(page, 0, None) == check_events(
                page,
                i as int,
                authority::digest_view(previous),
            ),
    {
        assert(page.exact_events[i as int] == exact_events@[i as int]@);
        let bytes: &Vec<u8> = &exact_events[i];
        if bytes.len() == 0 || bytes.len() > MAX_IDENTITY_LOG_PAGE_EVENT_BYTES {
            return Err(IdentityLogPageError::PageTooLarge);
        }
        let event = match IdentityLogEventV1::decode_and_verify(bytes.as_slice()) {
            Ok(event) => event,
            Err(error) => {
                return Err(IdentityLogPageError::InvalidEvent(error));
            },
        };
        if event.identity_id() != identity_id || !wire_equal(
            event.wire(),
            IDENTITY_LOG_WIRE_VERSION,
        ) {
            return Err(IdentityLogPageError::IdentityMismatch);
        }
        let expected: u64 = requested_after_sequence + i as u64 + 1;
        if event.sequence().get() != expected {
            return Err(IdentityLogPageError::SequenceMismatch);
        }
        let linked = match (previous, event.previous_event_hash()) {
            (Some(hash), Some(stated)) => hash == stated,
            (Some(_), None) => false,
            (None, stated) => expected != 1 || stated.is_none(),
        };
        if !linked {
            return Err(IdentityLogPageError::PreviousHashMismatch);
        }
        previous =
        match event.entry_hash() {
            Ok(hash) => Some(hash),
            Err(error) => {
                return Err(IdentityLogPageError::InvalidEvent(error));
            },
        };
    }
    Ok(previous)
}

impl Clone for IdentityLogPageV1 {
    fn clone(&self) -> (copy: Self)
        ensures
            copy@ == self@,
    {
        let mut exact_events: Vec<Vec<u8>> = Vec::new();
        for i in 0..self.exact_events.len()
            invariant
                exact_events@.len() == i,
                forall|j: int|
                    0 <= j < i ==> (#[trigger] exact_events@[j])@ == self.exact_events@[j]@,
        {
            exact_events.push(to_vec(self.exact_events[i].as_slice()));
        }
        assert(blobs_view(exact_events@) =~= blobs_view(self.exact_events@));
        IdentityLogPageV1 {
            identity_id: self.identity_id,
            advertised_head_sequence: self.advertised_head_sequence,
            advertised_head_hash: self.advertised_head_hash,
            requested_after_sequence: self.requested_after_sequence,
            exact_events,
            next_after_sequence: self.next_after_sequence,
            has_more: self.has_more,
        }
    }
}

impl IdentityLogPageV1 {
    /// The model of the page.
    pub closed spec fn view(&self) -> Page {
        Page {
            identity_id: self.identity_id@,
            advertised_head_sequence: self.advertised_head_sequence@,
            advertised_head_hash: self.advertised_head_hash@,
            requested_after_sequence: self.requested_after_sequence,
            exact_events: blobs_view(self.exact_events@),
            next_after_sequence: self.next_after_sequence,
            has_more: self.has_more,
        }
    }

    /// Creates a bounded canonical identity-log page from exact signed events.
    pub fn new(
        identity_id: IdentityId,
        advertised_head_sequence: SafeUint,
        advertised_head_hash: Sha256Digest,
        requested_after_sequence: u64,
        exact_events: Vec<Vec<u8>>,
        next_after_sequence: u64,
        has_more: bool,
    ) -> (page: Result<Self, IdentityLogPageError>)
        ensures
            ({
                let model = Page {
                    identity_id: identity_id@,
                    advertised_head_sequence: advertised_head_sequence@,
                    advertised_head_hash: advertised_head_hash@,
                    requested_after_sequence,
                    exact_events: blobs_view(exact_events@),
                    next_after_sequence,
                    has_more,
                };
                match page {
                    Ok(page) => {
                        &&& page@ == model
                        &&& is_page(model)
                        &&& page_check(model) is Ok
                    },
                    Err(error) => page_check(model) == Err::<(), IdentityLogPageError>(error),
                }
            }),
    {
        let head: u64 = advertised_head_sequence.get();
        if requested_after_sequence > MAX_SAFE_INTEGER || next_after_sequence > MAX_SAFE_INTEGER
            || head == 0 || requested_after_sequence > head || next_after_sequence > head {
            return Err(IdentityLogPageError::InvalidCursor);
        }
        if exact_events.len() > MAX_IDENTITY_LOG_PAGE_EVENTS {
            return Err(IdentityLogPageError::EventLimitExceeded);
        }
        let ghost model = Page {
            identity_id: identity_id@,
            advertised_head_sequence: advertised_head_sequence@,
            advertised_head_hash: advertised_head_hash@,
            requested_after_sequence,
            exact_events: blobs_view(exact_events@),
            next_after_sequence,
            has_more,
        };
        let last = match check_page_events(
            identity_id,
            requested_after_sequence,
            &exact_events,
            Ghost(model),
        ) {
            Ok(last) => last,
            Err(error) => {
                return Err(error);
            },
        };
        let count: usize = exact_events.len();
        if next_after_sequence != requested_after_sequence + count as u64 {
            return Err(IdentityLogPageError::NextCursorMismatch);
        }
        let terminal = next_after_sequence == head;
        if has_more == terminal || (has_more && count == 0) {
            return Err(IdentityLogPageError::PaginationMismatch);
        }
        if terminal && count > 0 {
            let bound = match last {
                Some(hash) => hash == advertised_head_hash,
                None => false,
            };
            if !bound {
                return Err(IdentityLogPageError::AdvertisedHeadMismatch);
            }
        }
        proof {
            identity_id.lemma_len();
            advertised_head_hash.lemma_len();
        }
        let page = IdentityLogPageV1 {
            identity_id,
            advertised_head_sequence,
            advertised_head_hash,
            requested_after_sequence,
            exact_events,
            next_after_sequence,
            has_more,
        };
        match page.to_deterministic_cbor() {
            Ok(bytes) => {
                if bytes.len() > MAX_IDENTITY_LOG_PAGE_BYTES {
                    Err(IdentityLogPageError::PageTooLarge)
                } else {
                    Ok(page)
                }
            },
            Err(error) => Err(error),
        }
    }

    /// Encodes the exact deterministic-CBOR page payload.
    pub fn to_deterministic_cbor(&self) -> (encoded: Result<Vec<u8>, IdentityLogPageError>)
        ensures
            encoded is Ok,
            encoded->Ok_0@ == cbor::encoding(page_model(self@)),
    {
        self.advertised_head_sequence.checked();
        proof {
            self.identity_id.lemma_len();
            self.advertised_head_hash.lemma_len();
            assert forall|i: int| 0 <= i < self@.exact_events.len() implies (
            #[trigger] self@.exact_events[i]).len() <= u64::MAX by {
                assert(self.exact_events@[i].len() == self.exact_events@[i]@.len());
            }
            assert(self.exact_events.len() == self.exact_events@.len());
            lemma_page_canonical(self@);
        }
        match encode_deterministic_cbor(self) {
            Ok(bytes) => Ok(bytes),
            Err(_) => Err(IdentityLogPageError::InvalidCanonical),
        }
    }

    /// The self-certifying identity that owns this event stream.
    pub fn identity_id(&self) -> (id: IdentityId)
        ensures
            id@ == self@.identity_id,
    {
        self.identity_id
    }

    /// The source's immutable advertised head sequence.
    pub fn advertised_head_sequence(&self) -> (sequence: SafeUint)
        ensures
            sequence@ == self@.advertised_head_sequence,
    {
        self.advertised_head_sequence
    }

    /// The source's immutable advertised head event hash.
    pub fn advertised_head_hash(&self) -> (hash: Sha256Digest)
        ensures
            hash@ == self@.advertised_head_hash,
    {
        self.advertised_head_hash
    }

    /// The caller's requested last verified sequence.
    pub fn requested_after_sequence(&self) -> (sequence: u64)
        ensures
            sequence == self@.requested_after_sequence,
    {
        self.requested_after_sequence
    }

    /// The exact signed event bytes in response order.
    pub fn exact_events(&self) -> (events: &[Vec<u8>])
        ensures
            blobs_view(events@) == self@.exact_events,
    {
        self.exact_events.as_slice()
    }

    /// The last sequence advanced by bytes in this response.
    pub fn next_after_sequence(&self) -> (sequence: u64)
        ensures
            sequence == self@.next_after_sequence,
    {
        self.next_after_sequence
    }

    /// Whether a contiguous successor page is required to reach head.
    pub fn has_more(&self) -> (more: bool)
        ensures
            more == self@.has_more,
    {
        self.has_more
    }
}

/// Builds the canonical value of a list of byte strings.
fn blobs_value(blobs: &Vec<Vec<u8>>) -> (built: CanonicalValue)
    ensures
        built@ == blobs_model(blobs_view(blobs@)),
{
    let mut items: Vec<CanonicalValue> = Vec::new();
    for i in 0..blobs.len()
        invariant
            items@.len() == i,
            forall|j: int| 0 <= j < i ==> #[trigger] items@[j]@ == Value::Bytes(blobs@[j]@),
    {
        items.push(CanonicalValue::Bytes(to_vec(blobs[i].as_slice())));
    }
    proof {
        value::lemma_array_view(items);
        assert(value::items_view(items@) =~= blobs_model(blobs_view(blobs@))->Array_0);
    }
    CanonicalValue::Array(items)
}

impl CanonicalEncode for IdentityLogPageV1 {
    open spec fn model(&self) -> Value {
        page_model(self@)
    }

    fn to_canonical_value(&self) -> (value: CanonicalValue) {
        let marker = vec![
            CanonicalValue::Unsigned(IDENTITY_LOG_PAGE_WIRE_MAJOR),
            CanonicalValue::Unsigned(IDENTITY_LOG_PAGE_WIRE_MINOR),
        ];
        assert(value::items_view(marker@) =~= seq![
            Value::Unsigned(IDENTITY_LOG_PAGE_WIRE_MAJOR),
            Value::Unsigned(IDENTITY_LOG_PAGE_WIRE_MINOR),
        ]);
        let fields = vec![
            build_record(marker),
            self.identity_id.to_canonical_value(),
            self.advertised_head_sequence.to_canonical_value(),
            self.advertised_head_hash.to_canonical_value(),
            CanonicalValue::Unsigned(self.requested_after_sequence),
            blobs_value(&self.exact_events),
            CanonicalValue::Unsigned(self.next_after_sequence),
            CanonicalValue::Bool(self.has_more),
        ];
        assert(value::items_view(fields@) =~= page_fields(self@));
        build_record(fields)
    }
}

} // verus!
