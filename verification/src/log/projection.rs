//! The in-memory authorization projection of an identity log.

use vstd::prelude::*;
use crate::log::authority::{
    key_rotation_acceptance_input, recovery_rotation_authorization_input, KeyAcceptancePurposeV1,
};
use crate::log::certificate::DeviceCertificateV1;
use crate::log::error::IdentityLogError;
use crate::log::event;
use crate::log::event::{Event, IdentityLogEventV1};
use crate::log::payload;
use crate::log::payload::IdentityLogEventPayloadV1;
use crate::log::proof_input::verify_signature;
use crate::log::relay::{Relay, RelayDescriptorV1};
use crate::log::state;
use crate::log::state::{DeviceRecord, DeviceStatusV1, LogState};
use crate::log::wire_line::{IDENTITY_LOG_V1_0_WIRE_VERSION, IDENTITY_LOG_WIRE_VERSION};
use crate::wire::digest::Sha256Digest;
use crate::wire::id::{DeviceId, IdentityId};
use crate::wire::key::{DeviceEncryptionPublicKey, Ed25519Signature, SigningPublicKey};
use crate::wire::number::{SafeUint, UtcMillis, MAX_SAFE_INTEGER};
use crate::wire::version::{wire_equal, WireVersion};

verus! {

/// An enrolled device.
#[derive(Clone, Copy, Debug)]
struct DeviceRecordV1 {
    certificate: DeviceCertificateV1,
    status: DeviceStatusV1,
}

impl DeviceRecordV1 {
    /// The model of the record.
    spec fn view(&self) -> DeviceRecord {
        DeviceRecord { certificate: self.certificate@, status: self.status }
    }

    /// The device ID of the record.
    spec fn id(&self) -> Seq<u8> {
        self.certificate@.unsigned.device_id
    }
}

/// A record of the device `id` is at `i`.
spec fn holds_at(records: Seq<DeviceRecordV1>, id: Seq<u8>, i: int) -> bool {
    0 <= i < records.len() && records[i].id() == id
}

/// There is a record of the device `id`.
spec fn holds(records: Seq<DeviceRecordV1>, id: Seq<u8>) -> bool {
    exists|i: int| #[trigger] holds_at(records, id, i)
}

/// The records by device ID.
spec fn records_view(records: Seq<DeviceRecordV1>) -> Map<Seq<u8>, DeviceRecord> {
    Map::new(
        |id: Seq<u8>| holds(records, id),
        |id: Seq<u8>| records[choose|i: int| #[trigger] holds_at(records, id, i)]@,
    )
}

/// No two records have the same device ID.
spec fn distinct(records: Seq<DeviceRecordV1>) -> bool {
    forall|i: int, j: int|
        0 <= i < j < records.len() ==> #[trigger] records[i].id() != #[trigger] records[j].id()
}

/// The digests of a list, as a set.
spec fn digests_view(digests: Seq<Sha256Digest>) -> Set<Seq<u8>> {
    Set::new(
        |bytes: Seq<u8>| exists|i: int| 0 <= i < digests.len() && #[trigger] digests[i]@ == bytes,
    )
}

/// With distinct device IDs, the record at `i` is the one of its device.
proof fn lemma_record_at(records: Seq<DeviceRecordV1>, i: int)
    requires
        distinct(records),
        0 <= i < records.len(),
    ensures
        records_view(records).dom().contains(records[i].id()),
        records_view(records)[records[i].id()] == records[i]@,
{
    let id = records[i].id();
    assert(holds_at(records, id, i));
    let found = choose|j: int| #[trigger] holds_at(records, id, j);
    assert(holds_at(records, id, found));
    if found < i {
        assert(records[found].id() != records[i].id());
    } else if i < found {
        assert(records[i].id() != records[found].id());
    }
}

/// Appending a record of a new device inserts it.
proof fn lemma_records_push(records: Seq<DeviceRecordV1>, record: DeviceRecordV1)
    requires
        distinct(records),
        !holds(records, record.id()),
    ensures
        distinct(records.push(record)),
        records_view(records.push(record)) == records_view(records).insert(record.id(), record@),
{
    let longer = records.push(record);
    assert forall|i: int, j: int| 0 <= i < j < longer.len() implies #[trigger] longer[i].id()
        != #[trigger] longer[j].id() by {
        if j == records.len() {
            assert(longer[i] == records[i]);
            if records[i].id() == record.id() {
                assert(holds_at(records, record.id(), i));
            }
        } else {
            assert(longer[i] == records[i] && longer[j] == records[j]);
        }
    }
    let expected = records_view(records).insert(record.id(), record@);
    assert forall|id: Seq<u8>| records_view(longer).dom().contains(id)
        == expected.dom().contains(id) by {
        if holds(longer, id) {
            let i = choose|i: int| #[trigger] holds_at(longer, id, i);
            if i < records.len() {
                assert(longer[i] == records[i]);
                assert(holds_at(records, id, i));
            } else {
                assert(longer[i] == record);
            }
        }
        if holds(records, id) {
            let i = choose|i: int| #[trigger] holds_at(records, id, i);
            assert(longer[i] == records[i]);
            assert(holds_at(longer, id, i));
        }
        if id == record.id() {
            assert(holds_at(longer, id, records.len() as int));
        }
    }
    assert forall|id: Seq<u8>| records_view(longer).dom().contains(id) implies records_view(
        longer,
    )[id] == expected[id] by {
        let i = choose|i: int| #[trigger] holds_at(longer, id, i);
        assert(holds_at(longer, id, i));
        lemma_record_at(longer, i);
        if i < records.len() {
            assert(longer[i] == records[i]);
            lemma_record_at(records, i);
            assert(holds_at(records, id, i));
        } else {
            assert(longer[i] == record);
        }
    }
    assert(records_view(longer) =~= expected);
}

/// Replacing a record by one of the same device inserts it.
proof fn lemma_records_update(records: Seq<DeviceRecordV1>, at: int, record: DeviceRecordV1)
    requires
        distinct(records),
        0 <= at < records.len(),
        record.id() == records[at].id(),
    ensures
        distinct(records.update(at, record)),
        records_view(records.update(at, record)) == records_view(records).insert(
            record.id(),
            record@,
        ),
{
    let changed = records.update(at, record);
    assert forall|i: int, j: int| 0 <= i < j < changed.len() implies #[trigger] changed[i].id()
        != #[trigger] changed[j].id() by {
        assert(records[i].id() != records[j].id());
    }
    let expected = records_view(records).insert(record.id(), record@);
    assert forall|id: Seq<u8>| records_view(changed).dom().contains(id)
        == expected.dom().contains(id) by {
        if holds(changed, id) {
            let i = choose|i: int| #[trigger] holds_at(changed, id, i);
            assert(holds_at(records, id, i));
        }
        if holds(records, id) {
            let i = choose|i: int| #[trigger] holds_at(records, id, i);
            assert(holds_at(changed, id, i));
        }
        if id == record.id() {
            assert(holds_at(changed, id, at));
        }
    }
    assert forall|id: Seq<u8>| records_view(changed).dom().contains(id) implies records_view(
        changed,
    )[id] == expected[id] by {
        let i = choose|i: int| #[trigger] holds_at(changed, id, i);
        assert(holds_at(changed, id, i));
        lemma_record_at(changed, i);
        assert(holds_at(records, id, i));
        lemma_record_at(records, i);
        lemma_record_at(records, at);
    }
    assert(records_view(changed) =~= expected);
}

/// Revoking every record revokes every device.
proof fn lemma_records_revoked(records: Seq<DeviceRecordV1>, revoked: Seq<DeviceRecordV1>)
    requires
        distinct(records),
        revoked.len() == records.len(),
        forall|i: int|
            0 <= i < records.len() ==> (#[trigger] revoked[i]).certificate@
                == records[i].certificate@ && revoked[i].status == DeviceStatusV1::Revoked,
    ensures
        distinct(revoked),
        records_view(revoked) == state::all_revoked(records_view(records)),
{
    assert forall|i: int, j: int| 0 <= i < j < revoked.len() implies #[trigger] revoked[i].id()
        != #[trigger] revoked[j].id() by {
        assert(records[i].id() != records[j].id());
    }
    let expected = state::all_revoked(records_view(records));
    assert forall|id: Seq<u8>| records_view(revoked).dom().contains(id)
        == expected.dom().contains(id) by {
        if holds(revoked, id) {
            let i = choose|i: int| #[trigger] holds_at(revoked, id, i);
            assert(revoked[i].certificate@ == records[i].certificate@);
            assert(holds_at(records, id, i));
        }
        if holds(records, id) {
            let i = choose|i: int| #[trigger] holds_at(records, id, i);
            assert(revoked[i].certificate@ == records[i].certificate@);
            assert(holds_at(revoked, id, i));
        }
    }
    assert forall|id: Seq<u8>| records_view(revoked).dom().contains(id) implies records_view(
        revoked,
    )[id] == expected[id] by {
        let i = choose|i: int| #[trigger] holds_at(revoked, id, i);
        assert(holds_at(revoked, id, i));
        lemma_record_at(revoked, i);
        assert(revoked[i].certificate@ == records[i].certificate@);
        assert(holds_at(records, id, i));
        lemma_record_at(records, i);
    }
    assert(records_view(revoked) =~= expected);
}

/// In-memory writable projection of a verified current identity log.
///
/// Persistence must use a compare-and-swap on `head_sequence` and `head_hash`,
/// a unique entry hash, and exact event bytes.
#[derive(Debug)]
pub struct IdentityLogV1 {
    wire: WireVersion,
    identity_id: IdentityId,
    current_root_key: SigningPublicKey,
    current_recovery_key: SigningPublicKey,
    initial_device_id: Option<DeviceId>,
    devices: Vec<DeviceRecordV1>,
    relay_descriptor: Option<RelayDescriptorV1>,
    head_sequence: SafeUint,
    head_hash: Sha256Digest,
    seen_entry_hashes: Vec<Sha256Digest>,
}

/// The model of an optional device ID.
pub open spec fn device_id_view(id: Option<DeviceId>) -> Option<Seq<u8>> {
    match id {
        Some(id) => Some(id@),
        None => None,
    }
}

/// The model of an optional relay descriptor.
pub open spec fn descriptor_view(descriptor: Option<RelayDescriptorV1>) -> Option<Relay> {
    match descriptor {
        Some(descriptor) => Some(descriptor@),
        None => None,
    }
}

impl IdentityLogV1 {
    /// No device ID is enrolled twice.
    #[verifier::type_invariant]
    spec fn well_formed(&self) -> bool {
        distinct(self.devices@)
    }

    /// The state that the projection holds.
    pub closed spec fn view(&self) -> LogState {
        LogState {
            wire: self.wire,
            identity_id: self.identity_id@,
            current_root_key: self.current_root_key@,
            current_recovery_key: self.current_recovery_key@,
            initial_device_id: device_id_view(self.initial_device_id),
            devices: records_view(self.devices@),
            relay_descriptor: descriptor_view(self.relay_descriptor),
            head_sequence: self.head_sequence@,
            head_hash: self.head_hash@,
            seen_entry_hashes: digests_view(self.seen_entry_hashes@),
        }
    }

    /// Creates the current writable projection from its immutable genesis event.
    pub fn bootstrap(genesis: &IdentityLogEventV1) -> (log: Result<Self, IdentityLogError>)
        ensures
            match log {
                Ok(log) => {
                    &&& genesis@.unsigned.wire == IDENTITY_LOG_WIRE_VERSION
                    &&& state::bootstrap_state(genesis@) == Ok::<LogState, IdentityLogError>(log@)
                },
                Err(error) => {
                    if genesis@.unsigned.wire != IDENTITY_LOG_WIRE_VERSION {
                        error == IdentityLogError::InvalidWireVersion
                    } else {
                        state::bootstrap_state(genesis@) == Err::<LogState, IdentityLogError>(error)
                    }
                },
            },
    {
        if !wire_equal(genesis.wire(), IDENTITY_LOG_WIRE_VERSION) {
            return Err(IdentityLogError::InvalidWireVersion);
        }
        Self::bootstrap_projection(genesis)
    }

    /// Creates a projection on any supported wire version.
    fn bootstrap_projection(genesis: &IdentityLogEventV1) -> (log: Result<Self, IdentityLogError>)
        ensures
            match log {
                Ok(log) => {
                    &&& state::bootstrap_state(genesis@) == Ok::<LogState, IdentityLogError>(log@)
                },
                Err(error) => state::bootstrap_state(genesis@) == Err::<LogState, IdentityLogError>(
                    error,
                ),
            },
    {
        match genesis.verify() {
            Ok(_) => {},
            Err(error) => {
                return Err(error);
            },
        }
        let (root, recovery): (SigningPublicKey, SigningPublicKey) = match genesis.payload() {
            IdentityLogEventPayloadV1::Genesis { root_signing_key, recovery_signing_key, .. } => (
                *root_signing_key,
                *recovery_signing_key,
            ),
            _ => {
                return Err(IdentityLogError::InvalidGenesis);
            },
        };
        let entry_hash = match genesis.entry_hash() {
            Ok(hash) => hash,
            Err(error) => {
                return Err(error);
            },
        };
        let log = IdentityLogV1 {
            wire: genesis.wire(),
            identity_id: genesis.identity_id(),
            current_root_key: root,
            current_recovery_key: recovery,
            initial_device_id: None,
            devices: Vec::new(),
            relay_descriptor: None,
            head_sequence: genesis.sequence(),
            head_hash: entry_hash,
            seen_entry_hashes: vec![entry_hash],
        };
        proof {
            assert(records_view(log.devices@) =~= Map::<Seq<u8>, DeviceRecord>::empty());
            assert(log.seen_entry_hashes@ =~= seq![entry_hash]);
            assert forall|bytes: Seq<u8>| digests_view(log.seen_entry_hashes@).contains(bytes)
                == Set::empty().insert(entry_hash@).contains(bytes) by {
                assert(log.seen_entry_hashes@[0]@ == entry_hash@);
            }
            assert(digests_view(log.seen_entry_hashes@) =~= Set::empty().insert(entry_hash@));
        }
        Ok(log)
    }

    /// Atomically admits the exact next current-wire authorized event, or
    /// leaves the state unchanged.
    pub fn append(&mut self, event: &IdentityLogEventV1) -> (appended: Result<
        (),
        IdentityLogError,
    >)
        ensures
            if old(self)@.wire != IDENTITY_LOG_WIRE_VERSION || event@.unsigned.wire
                != IDENTITY_LOG_WIRE_VERSION {
                &&& appended == Err::<(), IdentityLogError>(IdentityLogError::InvalidWireVersion)
                &&& final(self)@ == old(self)@
            } else {
                match state::append_state(old(self)@, event@) {
                    Ok(next) => appended is Ok && final(self)@ == next,
                    Err(error) => {
                        &&& appended == Err::<(), IdentityLogError>(error)
                        &&& final(self)@ == old(self)@
                    },
                }
            },
    {
        if !wire_equal(self.wire, IDENTITY_LOG_WIRE_VERSION) || !wire_equal(
            event.wire(),
            IDENTITY_LOG_WIRE_VERSION,
        ) {
            return Err(IdentityLogError::InvalidWireVersion);
        }
        self.append_projection(event)
    }

    /// Whether the entry hash was accepted before.
    fn has_seen(&self, entry_hash: Sha256Digest) -> (seen: bool)
        ensures
            seen == self@.seen_entry_hashes.contains(entry_hash@),
    {
        for i in 0..self.seen_entry_hashes.len()
            invariant
                forall|j: int| 0 <= j < i ==> #[trigger] self.seen_entry_hashes@[j]@ != entry_hash@,
        {
            if self.seen_entry_hashes[i] == entry_hash {
                return true;
            }
        }
        false
    }

    /// Admits the exact next event on the wire version of the log.
    fn append_projection(&mut self, event: &IdentityLogEventV1) -> (appended: Result<
        (),
        IdentityLogError,
    >)
        ensures
            match state::append_state(old(self)@, event@) {
                Ok(next) => appended is Ok && final(self)@ == next,
                Err(error) => {
                    &&& appended == Err::<(), IdentityLogError>(error)
                    &&& final(self)@ == old(self)@
                },
            },
    {
        match event.verify() {
            Ok(_) => {},
            Err(error) => {
                return Err(error);
            },
        }
        if event.identity_id() != self.identity_id {
            return Err(IdentityLogError::IdentityMismatch);
        }
        if !wire_equal(event.wire(), self.wire) {
            return Err(IdentityLogError::InvalidWireVersion);
        }
        let entry_hash = match event.entry_hash() {
            Ok(hash) => hash,
            Err(error) => {
                return Err(error);
            },
        };
        if self.has_seen(entry_hash) {
            return Err(IdentityLogError::Replay);
        }
        let head: u64 = self.head_sequence.get();
        if head >= MAX_SAFE_INTEGER || event.sequence().get() != head + 1 {
            return Err(IdentityLogError::SequenceMismatch);
        }
        let linked = match event.previous_event_hash() {
            Some(hash) => hash == self.head_hash,
            None => false,
        };
        if !linked {
            return Err(IdentityLogError::PreviousHashMismatch);
        }
        match self.apply_authorized(event) {
            Ok(_) => {},
            Err(error) => {
                return Err(error);
            },
        }
        let ghost applied = self@;
        let ghost seen = self.seen_entry_hashes@;
        proof {
            use_type_invariant(&*self);
        }
        self.head_sequence = event.sequence();
        self.head_hash = entry_hash;
        let mut seen_entry_hashes: Vec<Sha256Digest> = Vec::new();
        std::mem::swap(&mut seen_entry_hashes, &mut self.seen_entry_hashes);
        seen_entry_hashes.push(entry_hash);
        self.seen_entry_hashes = seen_entry_hashes;
        proof {
            let longer = seen.push(entry_hash);
            assert forall|bytes: Seq<u8>| digests_view(longer).contains(bytes) == digests_view(
                seen,
            ).insert(entry_hash@).contains(bytes) by {
                if digests_view(seen).contains(bytes) {
                    let i = choose|i: int| 0 <= i < seen.len() && #[trigger] seen[i]@ == bytes;
                    assert(longer[i]@ == bytes);
                }
                assert(longer[seen.len() as int]@ == entry_hash@);
                if digests_view(longer).contains(bytes) {
                    let i = choose|i: int| 0 <= i < longer.len() && #[trigger] longer[i]@ == bytes;
                    if i < seen.len() {
                        assert(seen[i]@ == bytes);
                    }
                }
            }
            assert(digests_view(longer) =~= digests_view(seen).insert(entry_hash@));
        }
        Ok(())
    }

    /// The position of the record of a device.
    fn find_device(&self, device_id: DeviceId) -> (position: Option<usize>)
        ensures
            match position {
                Some(i) => {
                    &&& i < self.devices@.len()
                    &&& self.devices@[i as int].id() == device_id@
                    &&& self@.devices.dom().contains(device_id@)
                    &&& self@.devices[device_id@] == self.devices@[i as int]@
                },
                None => !self@.devices.dom().contains(device_id@),
            },
    {
        proof {
            use_type_invariant(self);
        }
        for i in 0..self.devices.len()
            invariant
                self.well_formed(),
                forall|j: int| 0 <= j < i ==> (#[trigger] self.devices@[j]).id() != device_id@,
        {
            if self.devices[i].certificate.device_id() == device_id {
                proof {
                    lemma_record_at(self.devices@, i as int);
                }
                return Some(i);
            }
        }
        proof {
            if holds(self.devices@, device_id@) {
                let i = choose|i: int| #[trigger] holds_at(self.devices@, device_id@, i);
                assert(self.devices@[i].id() != device_id@);
            }
        }
        None
    }

    /// Whether `key` is the signing key of a device that was ever enrolled.
    fn device_signing_key_is_used(&self, key: SigningPublicKey) -> (used: bool)
        ensures
            used == state::is_device_signing_key(self@, key@),
    {
        proof {
            use_type_invariant(self);
        }
        for i in 0..self.devices.len()
            invariant
                self.well_formed(),
                forall|j: int|
                    0 <= j < i ==> (
                        #[trigger] self.devices@[j]
                    )@.certificate.unsigned.device_signing_key
                        != key@,
        {
            if self.devices[i].certificate.device_signing_key() == key {
                proof {
                    lemma_record_at(self.devices@, i as int);
                }
                return true;
            }
        }
        proof {
            if state::is_device_signing_key(self@, key@) {
                let id = choose|id: Seq<u8>| #[trigger]
                    self@.devices.dom().contains(id)
                        && self@.devices[id].certificate.unsigned.device_signing_key == key@;
                let i = choose|i: int| #[trigger] holds_at(self.devices@, id, i);
                lemma_record_at(self.devices@, i);
                assert(self.devices@[i]@.certificate.unsigned.device_signing_key != key@);
            }
        }
        false
    }

    /// Whether `key` is the encryption key of a device that was ever enrolled.
    fn device_encryption_key_is_used(&self, key: DeviceEncryptionPublicKey) -> (used: bool)
        ensures
            used == state::is_device_encryption_key(self@, key@),
    {
        proof {
            use_type_invariant(self);
        }
        for i in 0..self.devices.len()
            invariant
                self.well_formed(),
                forall|j: int|
                    0 <= j < i ==> (
                        #[trigger] self.devices@[j]
                    )@.certificate.unsigned.device_encryption_key
                        != key@,
        {
            if self.devices[i].certificate.device_encryption_key() == key {
                proof {
                    lemma_record_at(self.devices@, i as int);
                }
                return true;
            }
        }
        proof {
            if state::is_device_encryption_key(self@, key@) {
                let id = choose|id: Seq<u8>| #[trigger]
                    self@.devices.dom().contains(id)
                        && self@.devices[id].certificate.unsigned.device_encryption_key == key@;
                let i = choose|i: int| #[trigger] holds_at(self.devices@, id, i);
                lemma_record_at(self.devices@, i);
                assert(self.devices@[i]@.certificate.unsigned.device_encryption_key != key@);
            }
        }
        false
    }

    /// Whether `key` is the signing key of an active device.
    fn is_active_device_key(&self, key: SigningPublicKey) -> (active: bool)
        ensures
            active == state::is_active_device_key(self@, key@),
    {
        proof {
            use_type_invariant(self);
        }
        for i in 0..self.devices.len()
            invariant
                self.well_formed(),
                forall|j: int|
                    0 <= j < i ==> (#[trigger] self.devices@[j])@.status != DeviceStatusV1::Active
                        || self.devices@[j]@.certificate.unsigned.device_signing_key != key@,
        {
            if self.devices[i].status == DeviceStatusV1::Active
                && self.devices[i].certificate.device_signing_key() == key {
                proof {
                    lemma_record_at(self.devices@, i as int);
                }
                return true;
            }
        }
        proof {
            if state::is_active_device_key(self@, key@) {
                let id = choose|id: Seq<u8>| #[trigger]
                    self@.devices.dom().contains(id) && self@.devices[id].status
                        == DeviceStatusV1::Active
                        && self@.devices[id].certificate.unsigned.device_signing_key == key@;
                let i = choose|i: int| #[trigger] holds_at(self.devices@, id, i);
                lemma_record_at(self.devices@, i);
                assert(self.devices@[i]@.status != DeviceStatusV1::Active
                    || self.devices@[i]@.certificate.unsigned.device_signing_key != key@);
            }
        }
        false
    }

    /// Whether `key` may become an authority key.
    fn is_fresh_authority(&self, key: SigningPublicKey) -> (fresh: bool)
        ensures
            fresh == state::is_fresh_authority(self@, key@),
    {
        key != self.current_root_key && key != self.current_recovery_key
            && !self.device_signing_key_is_used(key)
    }

    /// Checks a successor key's proof of possession.
    fn verify_rotation_acceptance(
        &self,
        event: &IdentityLogEventV1,
        purpose: KeyAcceptancePurposeV1,
        successor: SigningPublicKey,
        signature: Ed25519Signature,
    ) -> (accepted: Result<(), IdentityLogError>)
        requires
            event@.unsigned.sequence != 0,
        ensures
            accepted == if state::is_accepted(self@, event@, purpose, successor@, signature@) {
                Ok::<(), IdentityLogError>(())
            } else {
                Err(IdentityLogError::InvalidRotation)
            },
    {
        let input = match key_rotation_acceptance_input(
            self.identity_id,
            event.sequence(),
            event.previous_event_hash(),
            purpose,
            successor,
        ) {
            Ok(input) => input,
            Err(error) => {
                return Err(error);
            },
        };
        match verify_signature(successor, input.as_slice(), signature) {
            Ok(_) => Ok(()),
            Err(_) => Err(IdentityLogError::InvalidRotation),
        }
    }

    /// Applies the transition of a verified event in its place.
    fn apply_authorized(&mut self, event: &IdentityLogEventV1) -> (applied: Result<
        (),
        IdentityLogError,
    >)
        requires
            event::event_check(event@) is Ok,
        ensures
            final(self).seen_entry_hashes == old(self).seen_entry_hashes,
            match state::transition_state(old(self)@, event@) {
                Ok(next) => applied is Ok && final(self)@ == next,
                Err(error) => {
                    &&& applied == Err::<(), IdentityLogError>(error)
                    &&& final(self)@ == old(self)@
                },
            },
    {
        match event.payload() {
            IdentityLogEventPayloadV1::Genesis { .. } => Err(IdentityLogError::InvalidGenesis),
            IdentityLogEventPayloadV1::DeviceAdd { certificate } => self.apply_device_add(
                event,
                certificate,
            ),
            IdentityLogEventPayloadV1::DeviceRevoke { device_id } => self.apply_device_revoke(
                event,
                *device_id,
            ),
            IdentityLogEventPayloadV1::RootRotate { new_root_signing_key, acceptance_signature } =>
            self.apply_root_rotation(event, *new_root_signing_key, *acceptance_signature),
            IdentityLogEventPayloadV1::RecoveryRotate {
                new_recovery_signing_key,
                acceptance_signature,
                recovery_authorization_signature,
            } => self.apply_recovery_rotation(
                event,
                *new_recovery_signing_key,
                *acceptance_signature,
                *recovery_authorization_signature,
            ),
            IdentityLogEventPayloadV1::RecoveryRestore {
                new_root_signing_key,
                new_recovery_signing_key,
                root_acceptance_signature,
                recovery_acceptance_signature,
            } => self.apply_recovery_restore(
                event,
                *new_root_signing_key,
                *new_recovery_signing_key,
                *root_acceptance_signature,
                *recovery_acceptance_signature,
            ),
            IdentityLogEventPayloadV1::RelayDescriptor { descriptor } => {
                if event.signer() != self.current_root_key {
                    return Err(IdentityLogError::UnauthorizedSigner);
                }
                match descriptor.validate_for_event(event.occurred_at()) {
                    Ok(_) => {},
                    Err(error) => {
                        return Err(error);
                    },
                }
                proof {
                    use_type_invariant(&*self);
                }
                self.relay_descriptor = Some(descriptor.clone());
                Ok(())
            },
        }
    }

    /// Enrolls a root-certified device.
    fn apply_device_add(
        &mut self,
        event: &IdentityLogEventV1,
        certificate: &DeviceCertificateV1,
    ) -> (applied: Result<(), IdentityLogError>)
        ensures
            final(self).seen_entry_hashes == old(self).seen_entry_hashes,
            match state::device_add_state(old(self)@, event@, certificate@) {
                Ok(next) => applied is Ok && final(self)@ == next,
                Err(error) => {
                    &&& applied == Err::<(), IdentityLogError>(error)
                    &&& final(self)@ == old(self)@
                },
            },
    {
        if event.signer() != self.current_root_key && !self.is_active_device_key(event.signer()) {
            return Err(IdentityLogError::UnauthorizedSigner);
        }
        match certificate.verify() {
            Ok(_) => {},
            Err(error) => {
                return Err(error);
            },
        }
        if certificate.identity_id() != self.identity_id || certificate.issuer_root_key()
            != self.current_root_key || certificate.issued_at().get() > event.occurred_at().get()
            || certificate.device_signing_key() == self.current_root_key
            || certificate.device_signing_key() == self.current_recovery_key {
            return Err(IdentityLogError::InvalidDeviceCertificate);
        }
        if self.find_device(certificate.device_id()).is_some() || self.device_signing_key_is_used(
            certificate.device_signing_key(),
        ) || self.device_encryption_key_is_used(certificate.device_encryption_key()) {
            return Err(IdentityLogError::DeviceAlreadyExists);
        }
        if self.head_sequence.get() == 1 {
            proof {
                use_type_invariant(&*self);
            }
            self.initial_device_id = Some(certificate.device_id());
        }
        let record = DeviceRecordV1 { certificate: *certificate, status: DeviceStatusV1::Active };
        proof {
            use_type_invariant(&*self);
            lemma_records_push(self.devices@, record);
        }
        let mut devices: Vec<DeviceRecordV1> = Vec::new();
        std::mem::swap(&mut devices, &mut self.devices);
        devices.push(record);
        self.devices = devices;
        Ok(())
    }

    /// Revokes an enrolled device.
    fn apply_device_revoke(&mut self, event: &IdentityLogEventV1, device_id: DeviceId) -> (applied:
        Result<(), IdentityLogError>)
        ensures
            final(self).seen_entry_hashes == old(self).seen_entry_hashes,
            match state::device_revoke_state(old(self)@, event@, device_id@) {
                Ok(next) => applied is Ok && final(self)@ == next,
                Err(error) => {
                    &&& applied == Err::<(), IdentityLogError>(error)
                    &&& final(self)@ == old(self)@
                },
            },
    {
        if event.signer() != self.current_root_key {
            return Err(IdentityLogError::UnauthorizedSigner);
        }
        let position: usize = match self.find_device(device_id) {
            Some(position) => position,
            None => {
                return Err(IdentityLogError::DeviceNotFound);
            },
        };
        let found: DeviceRecordV1 = self.devices[position];
        if found.status == DeviceStatusV1::Revoked {
            return Err(IdentityLogError::DeviceAlreadyRevoked);
        }
        let revoked = DeviceRecordV1 {
            certificate: found.certificate,
            status: DeviceStatusV1::Revoked,
        };
        proof {
            use_type_invariant(&*self);
            lemma_records_update(self.devices@, position as int, revoked);
        }
        let mut devices: Vec<DeviceRecordV1> = Vec::new();
        std::mem::swap(&mut devices, &mut self.devices);
        devices.set(position, revoked);
        self.devices = devices;
        Ok(())
    }

    /// Rotates the root key.
    fn apply_root_rotation(
        &mut self,
        event: &IdentityLogEventV1,
        successor: SigningPublicKey,
        acceptance_signature: Ed25519Signature,
    ) -> (applied: Result<(), IdentityLogError>)
        requires
            event@.unsigned.sequence != 0,
        ensures
            final(self).seen_entry_hashes == old(self).seen_entry_hashes,
            match state::root_rotate_state(
                old(self)@,
                event@,
                successor@,
                acceptance_signature@,
            ) {
                Ok(next) => applied is Ok && final(self)@ == next,
                Err(error) => {
                    &&& applied == Err::<(), IdentityLogError>(error)
                    &&& final(self)@ == old(self)@
                },
            },
    {
        if event.signer() != self.current_root_key {
            return Err(IdentityLogError::UnauthorizedSigner);
        }
        if !self.is_fresh_authority(successor) {
            return Err(IdentityLogError::InvalidRotation);
        }
        match self.verify_rotation_acceptance(
            event,
            KeyAcceptancePurposeV1::RootRotate,
            successor,
            acceptance_signature,
        ) {
            Ok(_) => {},
            Err(error) => {
                return Err(error);
            },
        }
        proof {
            use_type_invariant(&*self);
        }
        self.current_root_key = successor;
        Ok(())
    }

    /// Rotates the recovery key.
    fn apply_recovery_rotation(
        &mut self,
        event: &IdentityLogEventV1,
        successor: SigningPublicKey,
        acceptance_signature: Ed25519Signature,
        recovery_authorization_signature: Option<Ed25519Signature>,
    ) -> (applied: Result<(), IdentityLogError>)
        requires
            event@.unsigned.sequence != 0,
            recovery_authorization_signature is Some ==> event@.unsigned.wire
                == IDENTITY_LOG_WIRE_VERSION,
        ensures
            final(self).seen_entry_hashes == old(self).seen_entry_hashes,
            match state::recovery_rotate_state(
                old(self)@,
                event@,
                successor@,
                acceptance_signature@,
                match recovery_authorization_signature {
                    Some(signature) => Some(signature@),
                    None => None,
                },
            ) {
                Ok(next) => applied is Ok && final(self)@ == next,
                Err(error) => {
                    &&& applied == Err::<(), IdentityLogError>(error)
                    &&& final(self)@ == old(self)@
                },
            },
    {
        if event.signer() != self.current_root_key {
            return Err(IdentityLogError::UnauthorizedSigner);
        }
        if !self.is_fresh_authority(successor) {
            return Err(IdentityLogError::InvalidRotation);
        }
        match self.verify_rotation_acceptance(
            event,
            KeyAcceptancePurposeV1::RecoveryRotate,
            successor,
            acceptance_signature,
        ) {
            Ok(_) => {},
            Err(error) => {
                return Err(error);
            },
        }
        if let Some(signature) = recovery_authorization_signature {
            let input = match recovery_rotation_authorization_input(
                event.wire(),
                self.identity_id,
                event.sequence(),
                event.previous_event_hash(),
                event.occurred_at(),
                event.signer(),
                successor,
                acceptance_signature,
            ) {
                Ok(input) => input,
                Err(error) => {
                    return Err(error);
                },
            };
            match verify_signature(self.current_recovery_key, input.as_slice(), signature) {
                Ok(_) => {},
                Err(_) => {
                    return Err(IdentityLogError::InvalidRotation);
                },
            }
        }
        proof {
            use_type_invariant(&*self);
        }
        self.current_recovery_key = successor;
        Ok(())
    }

    /// Rotates both authority keys and revokes every device.
    fn apply_recovery_restore(
        &mut self,
        event: &IdentityLogEventV1,
        new_root: SigningPublicKey,
        new_recovery: SigningPublicKey,
        root_acceptance_signature: Ed25519Signature,
        recovery_acceptance_signature: Ed25519Signature,
    ) -> (applied: Result<(), IdentityLogError>)
        requires
            event@.unsigned.sequence != 0,
        ensures
            final(self).seen_entry_hashes == old(self).seen_entry_hashes,
            match state::recovery_restore_state(
                old(self)@,
                event@,
                new_root@,
                new_recovery@,
                root_acceptance_signature@,
                recovery_acceptance_signature@,
            ) {
                Ok(next) => applied is Ok && final(self)@ == next,
                Err(error) => {
                    &&& applied == Err::<(), IdentityLogError>(error)
                    &&& final(self)@ == old(self)@
                },
            },
    {
        if event.signer() != self.current_recovery_key {
            return Err(IdentityLogError::UnauthorizedSigner);
        }
        if new_root == new_recovery || !self.is_fresh_authority(new_root)
            || !self.is_fresh_authority(new_recovery) {
            return Err(IdentityLogError::InvalidRotation);
        }
        match self.verify_rotation_acceptance(
            event,
            KeyAcceptancePurposeV1::RecoveryRestoreRoot,
            new_root,
            root_acceptance_signature,
        ) {
            Ok(_) => {},
            Err(error) => {
                return Err(error);
            },
        }
        match self.verify_rotation_acceptance(
            event,
            KeyAcceptancePurposeV1::RecoveryRestoreRecovery,
            new_recovery,
            recovery_acceptance_signature,
        ) {
            Ok(_) => {},
            Err(error) => {
                return Err(error);
            },
        }
        let mut revoked: Vec<DeviceRecordV1> = Vec::new();
        for i in 0..self.devices.len()
            invariant
                revoked@.len() == i,
                forall|j: int|
                    0 <= j < i ==> (#[trigger] revoked@[j]).certificate@
                        == self.devices@[j].certificate@ && revoked@[j].status
                        == DeviceStatusV1::Revoked,
        {
            revoked.push(
                DeviceRecordV1 {
                    certificate: self.devices[i].certificate,
                    status: DeviceStatusV1::Revoked,
                },
            );
        }
        proof {
            use_type_invariant(&*self);
            lemma_records_revoked(self.devices@, revoked@);
        }
        self.current_root_key = new_root;
        self.current_recovery_key = new_recovery;
        self.devices = revoked;
        Ok(())
    }

    /// The permanent public identity ID.
    pub fn identity_id(&self) -> (id: IdentityId)
        ensures
            id@ == self@.identity_id,
    {
        self.identity_id
    }

    /// The immutable wire version established by genesis.
    pub fn wire(&self) -> (wire: WireVersion)
        ensures
            wire == self@.wire,
    {
        self.wire
    }

    /// The current root signing key.
    pub fn current_root_key(&self) -> (key: SigningPublicKey)
        ensures
            key@ == self@.current_root_key,
    {
        self.current_root_key
    }

    /// The current recovery signing key.
    pub fn current_recovery_key(&self) -> (key: SigningPublicKey)
        ensures
            key@ == self@.current_recovery_key,
    {
        self.current_recovery_key
    }

    /// The immutable first device enrolled directly after genesis.
    ///
    /// Later devices cannot acquire bootstrap authority by owning service
    /// resources. A projection without an exact sequence-two device has no
    /// bootstrap device.
    pub fn initial_device_id(&self) -> (id: Option<DeviceId>)
        ensures
            device_id_view(id) == self@.initial_device_id,
    {
        self.initial_device_id
    }

    /// The contiguous log head sequence.
    pub fn head_sequence(&self) -> (sequence: SafeUint)
        ensures
            sequence@ == self@.head_sequence,
    {
        self.head_sequence
    }

    /// The chain hash of the exact current head event bytes.
    pub fn head_hash(&self) -> (hash: Sha256Digest)
        ensures
            hash@ == self@.head_hash,
    {
        self.head_hash
    }

    /// A device's enrollment status, if it was ever enrolled.
    pub fn device_status(&self, device_id: DeviceId) -> (status: Option<DeviceStatusV1>)
        ensures
            status == if self@.devices.dom().contains(device_id@) {
                Some(self@.devices[device_id@].status)
            } else {
                None
            },
    {
        match self.find_device(device_id) {
            Some(position) => Some(self.devices[position].status),
            None => None,
        }
    }

    /// The device certificate retained for audit and verification.
    pub fn device_certificate(&self, device_id: DeviceId) -> (certificate: Option<
        &DeviceCertificateV1,
    >)
        ensures
            match certificate {
                Some(certificate) => {
                    &&& self@.devices.dom().contains(device_id@)
                    &&& certificate@ == self@.devices[device_id@].certificate
                },
                None => !self@.devices.dom().contains(device_id@),
            },
    {
        match self.find_device(device_id) {
            Some(position) => Some(&self.devices[position].certificate),
            None => None,
        }
    }

    /// The latest signed relay descriptor, including expired history.
    pub fn latest_relay_descriptor(&self) -> (descriptor: Option<&RelayDescriptorV1>)
        ensures
            match descriptor {
                Some(descriptor) => self@.relay_descriptor == Some(descriptor@),
                None => self@.relay_descriptor is None,
            },
    {
        match &self.relay_descriptor {
            Some(descriptor) => Some(descriptor),
            None => None,
        }
    }

    /// The latest descriptor only when it is active at trusted `now`.
    ///
    /// Callers must obtain `now` from their trusted clock rather than the event
    /// timestamp, which is signer-provided historical metadata.
    pub fn active_relay_descriptor(&self, now: UtcMillis) -> (descriptor: Option<
        &RelayDescriptorV1,
    >)
        ensures
            match descriptor {
                Some(descriptor) => {
                    &&& self@.relay_descriptor == Some(descriptor@)
                    &&& descriptor@.expires_at > now@
                },
                None => self@.relay_descriptor is None || self@.relay_descriptor->0.expires_at
                    <= now@,
            },
    {
        match &self.relay_descriptor {
            Some(descriptor) => {
                if descriptor.expires_at().get() > now.get() {
                    Some(descriptor)
                } else {
                    None
                }
            },
            None => None,
        }
    }
}

impl Clone for IdentityLogV1 {
    fn clone(&self) -> (copy: Self)
        ensures
            copy@ == self@,
    {
        proof {
            use_type_invariant(self);
        }
        let mut devices: Vec<DeviceRecordV1> = Vec::new();
        for i in 0..self.devices.len()
            invariant
                devices@ == self.devices@.take(i as int),
        {
            devices.push(self.devices[i]);
            assert(devices@ =~= self.devices@.take(i + 1));
        }
        let mut seen_entry_hashes: Vec<Sha256Digest> = Vec::new();
        for i in 0..self.seen_entry_hashes.len()
            invariant
                seen_entry_hashes@ == self.seen_entry_hashes@.take(i as int),
        {
            seen_entry_hashes.push(self.seen_entry_hashes[i]);
            assert(seen_entry_hashes@ =~= self.seen_entry_hashes@.take(i + 1));
        }
        assert(devices@ =~= self.devices@);
        assert(seen_entry_hashes@ =~= self.seen_entry_hashes@);
        IdentityLogV1 {
            wire: self.wire,
            identity_id: self.identity_id,
            current_root_key: self.current_root_key,
            current_recovery_key: self.current_recovery_key,
            initial_device_id: self.initial_device_id,
            devices,
            relay_descriptor: match &self.relay_descriptor {
                Some(descriptor) => Some(descriptor.clone()),
                None => None,
            },
            head_sequence: self.head_sequence,
            head_hash: self.head_hash,
            seen_entry_hashes,
        }
    }
}

/// The models of a list of events.
pub open spec fn events_view(events: Seq<IdentityLogEventV1>) -> Seq<Event> {
    Seq::new(events.len(), |i: int| events[i]@)
}

/// Read-only verified projection of a frozen identity-log `1.0` history.
///
/// This type intentionally exposes no append operation and does not reveal its
/// internal writable projection. Current callers must use [`IdentityLogV1`]
/// for wire `1.1`; this import path exists only to validate and inspect exact
/// historical records.
#[derive(Debug)]
pub struct HistoricalIdentityLogV1 {
    projection: IdentityLogV1,
}

impl HistoricalIdentityLogV1 {
    /// The state at the imported head.
    pub closed spec fn view(&self) -> LogState {
        self.projection@
    }

    /// Verifies and imports one complete frozen wire `1.0` history.
    ///
    /// The first event must be the matching `1.0` genesis, and each remaining
    /// event must be the exact next event in that same historical wire line.
    /// The returned projection is read-only.
    pub fn import_v1_0(events: &[IdentityLogEventV1]) -> (history: Result<Self, IdentityLogError>)
        ensures
            match history {
                Ok(history) => state::import_state(events_view(events@)) == Ok::<
                    LogState,
                    IdentityLogError,
                >(history@),
                Err(error) => state::import_state(events_view(events@)) == Err::<
                    LogState,
                    IdentityLogError,
                >(error),
            },
    {
        let ghost models = events_view(events@);
        if events.len() == 0 {
            return Err(IdentityLogError::InvalidGenesis);
        }
        let genesis: &IdentityLogEventV1 = &events[0];
        assert(models[0] == genesis@);
        if !wire_equal(genesis.wire(), IDENTITY_LOG_V1_0_WIRE_VERSION) {
            return Err(IdentityLogError::InvalidWireVersion);
        }
        let mut projection = match IdentityLogV1::bootstrap_projection(genesis) {
            Ok(projection) => projection,
            Err(error) => {
                return Err(error);
            },
        };
        for i in 1..events.len()
            invariant
                models == events_view(events@),
                state::import_state(models) == state::import_from(projection@, models, i as int),
        {
            let event: &IdentityLogEventV1 = &events[i];
            assert(models[i as int] == event@);
            if !wire_equal(event.wire(), IDENTITY_LOG_V1_0_WIRE_VERSION) {
                return Err(IdentityLogError::InvalidWireVersion);
            }
            match projection.append_projection(event) {
                Ok(_) => {},
                Err(error) => {
                    return Err(error);
                },
            }
        }
        Ok(HistoricalIdentityLogV1 { projection })
    }

    /// The permanent public identity ID.
    pub fn identity_id(&self) -> (id: IdentityId)
        ensures
            id@ == self@.identity_id,
    {
        self.projection.identity_id()
    }

    /// The immutable historical wire version.
    pub fn wire(&self) -> (wire: WireVersion)
        ensures
            wire == self@.wire,
    {
        self.projection.wire()
    }

    /// The historical root signing key at the imported head.
    pub fn current_root_key(&self) -> (key: SigningPublicKey)
        ensures
            key@ == self@.current_root_key,
    {
        self.projection.current_root_key()
    }

    /// The historical recovery signing key at the imported head.
    pub fn current_recovery_key(&self) -> (key: SigningPublicKey)
        ensures
            key@ == self@.current_recovery_key,
    {
        self.projection.current_recovery_key()
    }

    /// The contiguous imported head sequence.
    pub fn head_sequence(&self) -> (sequence: SafeUint)
        ensures
            sequence@ == self@.head_sequence,
    {
        self.projection.head_sequence()
    }

    /// The exact imported head event hash.
    pub fn head_hash(&self) -> (hash: Sha256Digest)
        ensures
            hash@ == self@.head_hash,
    {
        self.projection.head_hash()
    }
}

} // verus!
