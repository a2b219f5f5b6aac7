//! The key registry and the lifecycle rules on it: generation, rotation,
//! revocation, expiry and statistics.
//!
//! The registry holds one record per key, in the order the keys were stored,
//! and for every user the list of identifiers of the keys the user owns. Its
//! state is described by [`RegistryView`]; every operation states the state
//! it leaves as a function on that view.

use crate::generate_mldsa_keypair_at;
use crate::generate_mlkem_keypair_at;
use crate::is_mldsa_keypair;
use crate::is_mlkem_keypair;
use crate::provider::new_key_id;
use crate::provider::secret_expose;
use crate::provider::secret_new;
use crate::provider::str_eq;
use crate::provider::unix_time_secs;
use crate::provider::zeroize_bytes;
use crate::provider::KEY_ID_LENGTH;
use crate::text::decimal;
use crate::text::decimal_string;
use crate::text::optional_text;
use crate::KeyPairView;
use crate::fails_with;
use crate::PQCError;
use crate::PQCErrorView;
use crate::PQCKeyPair;
use crate::PQCResult;
use vstd::prelude::*;

verus! {

/// Seconds from the creation of a key to its expiry: thirty days.
pub const KEY_LIFETIME_SECS: u64 = 2592000;

/// Seconds after which an active key is due for rotation unless configured
/// otherwise: thirty days.
pub const DEFAULT_ROTATION_INTERVAL_SECS: u64 = 2592000;

/// The number of live keys a user may hold unless configured otherwise.
pub const DEFAULT_MAX_KEYS_PER_USER: usize = 10;

/// Where a key stands in its life.
#[derive(Debug, Clone, Copy, PartialEq, Eq, Structural)]
pub enum KeyStatus {
    Active,
    Expired,
    Revoked,
    Pending,
    Rotating,
}

impl KeyStatus {
    /// The name of the status as it appears in messages.
    pub open spec fn name_spec(self) -> Seq<char> {
        match self {
            KeyStatus::Active => "Active"@,
            KeyStatus::Expired => "Expired"@,
            KeyStatus::Revoked => "Revoked"@,
            KeyStatus::Pending => "Pending"@,
            KeyStatus::Rotating => "Rotating"@,
        }
    }

    /// The name of the status as it appears in messages.
    pub fn name(&self) -> (s: &'static str)
        ensures
            s@ == self.name_spec(),
    {
        match self {
            KeyStatus::Active => "Active",
            KeyStatus::Expired => "Expired",
            KeyStatus::Revoked => "Revoked",
            KeyStatus::Pending => "Pending",
            KeyStatus::Rotating => "Rotating",
        }
    }

    /// A key counts against its owner's allowance while it is active or pending.
    pub open spec fn is_live(self) -> bool {
        self == KeyStatus::Active || self == KeyStatus::Pending
    }
}

/// The lifecycle record of one key.
#[derive(Debug, Clone)]
pub struct KeyMetadata {
    pub key_id: String,
    pub user_id: String,
    pub algorithm: String,
    pub created_at: u64,
    pub expires_at: Option<u64>,
    pub status: KeyStatus,
    pub hsm_reference: Option<String>,
    pub rotation_count: u32,
    pub last_used: Option<u64>,
}

/// A lifecycle record as plain values.
pub struct KeyMetadataView {
    pub key_id: Seq<char>,
    pub user_id: Seq<char>,
    pub algorithm: Seq<char>,
    pub created_at: u64,
    pub expires_at: Option<u64>,
    pub status: KeyStatus,
    pub hsm_reference: Option<Seq<char>>,
    pub rotation_count: u32,
    pub last_used: Option<u64>,
}

impl View for KeyMetadata {
    type V = KeyMetadataView;

    open spec fn view(&self) -> KeyMetadataView {
        KeyMetadataView {
            key_id: self.key_id@,
            user_id: self.user_id@,
            algorithm: self.algorithm@,
            created_at: self.created_at,
            expires_at: self.expires_at,
            status: self.status,
            hsm_reference: optional_text(self.hsm_reference),
            rotation_count: self.rotation_count,
            last_used: self.last_used,
        }
    }
}

/// The moment a key created at `created_at` expires; the latest moment
/// there is where the sum does not fit.
pub open spec fn expiry_of(created_at: u64) -> u64 {
    if created_at + KEY_LIFETIME_SECS > u64::MAX {
        u64::MAX
    } else {
        (created_at + KEY_LIFETIME_SECS) as u64
    }
}

impl KeyMetadataView {
    /// The record of a key that has just been created: active, never used,
    /// never rotated, not yet known to a hardware store, and due to expire
    /// one key lifetime after its creation.
    pub open spec fn fresh(key_id: Seq<char>, user_id: Seq<char>, algorithm: Seq<char>, now: u64) -> KeyMetadataView {
        KeyMetadataView {
            key_id,
            user_id,
            algorithm,
            created_at: now,
            expires_at: Some(expiry_of(now)),
            status: KeyStatus::Active,
            hsm_reference: None,
            rotation_count: 0,
            last_used: None,
        }
    }

    /// A key with an expiry time is expired once the clock has passed it.
    pub open spec fn expired_at(self, now: u64) -> bool {
        self.expires_at matches Some(t) && now > t
    }

    /// A key is due for rotation once it is older than the interval.
    pub open spec fn should_rotate_at(self, rotation_interval: u64, now: u64) -> bool {
        now > self.created_at + rotation_interval
    }

    /// A sweep removes the keys marked expired and those whose time has passed.
    pub open spec fn due_for_cleanup(self, now: u64) -> bool {
        self.status == KeyStatus::Expired || self.expired_at(now)
    }

    /// The same record in another status.
    pub open spec fn with_status(self, status: KeyStatus) -> KeyMetadataView {
        KeyMetadataView { status, ..self }
    }
}

impl KeyMetadata {
    /// The record of a key created at `now` under the identifier `key_id`.
    pub fn with_id_at(key_id: String, user_id: String, algorithm: String, now: u64) -> (metadata: Self)
        ensures
            metadata@ == KeyMetadataView::fresh(key_id@, user_id@, algorithm@, now),
    {
        let expires_at: u64 = if now > u64::MAX - KEY_LIFETIME_SECS {
            u64::MAX
        } else {
            now + KEY_LIFETIME_SECS
        };
        KeyMetadata {
            key_id,
            user_id,
            algorithm,
            created_at: now,
            expires_at: Some(expires_at),
            status: KeyStatus::Active,
            hsm_reference: None,
            rotation_count: 0,
            last_used: None,
        }
    }

    /// The record of a key created now under a fresh random identifier. A
    /// clock that cannot be read counts as the epoch.
    pub fn new(user_id: String, algorithm: String) -> (metadata: Self)
        ensures
            metadata@ == KeyMetadataView::fresh(
                metadata@.key_id,
                user_id@,
                algorithm@,
                metadata@.created_at,
            ),
            metadata@.key_id.len() == KEY_ID_LENGTH,
    {
        let now: u64 = current_time();
        KeyMetadata::with_id_at(new_key_id(), user_id, algorithm, now)
    }

    /// Whether the key is expired at `now`.
    pub fn is_expired_at(&self, now: u64) -> (expired: bool)
        ensures
            expired == self@.expired_at(now),
    {
        match self.expires_at {
            Some(t) => now > t,
            None => false,
        }
    }

    /// Whether the key is expired by the current clock. A key without an
    /// expiry time never is.
    pub fn is_expired(&self) -> (expired: bool)
        ensures
            exists|now: u64| expired == self@.expired_at(now),
            self.expires_at is None ==> !expired,
    {
        let now: u64 = current_time();
        self.is_expired_at(now)
    }

    /// Whether the key is older than `rotation_interval` at `now`.
    pub fn should_rotate_at(&self, rotation_interval: u64, now: u64) -> (due: bool)
        ensures
            due == self@.should_rotate_at(rotation_interval, now),
    {
        match self.created_at.checked_add(rotation_interval) {
            Some(limit) => now > limit,
            None => false,
        }
    }

    /// Whether the key is older than `rotation_interval` by the current clock.
    pub fn should_rotate(&self, rotation_interval: u64) -> (due: bool)
        ensures
            exists|now: u64| due == self@.should_rotate_at(rotation_interval, now),
            self.created_at + rotation_interval >= u64::MAX ==> !due,
    {
        let now: u64 = current_time();
        self.should_rotate_at(rotation_interval, now)
    }
}

/// The current time in seconds since the epoch; the epoch itself where the
/// clock cannot be read.
pub fn current_time() -> (now: u64) {
    seconds_or_epoch(unix_time_secs())
}

/// The seconds that a reading of the clock stands for: the reading itself,
/// and the epoch where the clock could not be read.
pub fn seconds_or_epoch(reading: Option<u64>) -> (now: u64)
    ensures
        now == match reading {
            Some(seconds) => seconds,
            None => 0,
        },
{
    match reading {
        Some(seconds) => seconds,
        None => 0,
    }
}

/// How keys are mirrored into a hardware security module.
#[derive(Debug, Clone)]
pub struct HSMConfig {
    pub enabled: bool,
    pub provider: String,
    pub key_slot: Option<u32>,
    pub authentication_method: String,
}

/// A hardware store configuration as plain values.
pub struct HSMConfigView {
    pub enabled: bool,
    pub provider: Seq<char>,
    pub key_slot: Option<u32>,
    pub authentication_method: Seq<char>,
}

impl View for HSMConfig {
    type V = HSMConfigView;

    open spec fn view(&self) -> HSMConfigView {
        HSMConfigView {
            enabled: self.enabled,
            provider: self.provider@,
            key_slot: self.key_slot,
            authentication_method: self.authentication_method@,
        }
    }
}

impl HSMConfigView {
    /// The configuration of a registry without a hardware store.
    pub open spec fn disabled() -> HSMConfigView {
        HSMConfigView {
            enabled: false,
            provider: "SoftHSM"@,
            key_slot: None,
            authentication_method: "PIN"@,
        }
    }

    /// The slot that keys go to: slot zero unless one is configured.
    pub open spec fn slot(self) -> u32 {
        match self.key_slot {
            Some(slot) => slot,
            None => 0,
        }
    }

    /// The reference under which the store keeps the key `key_id`.
    pub open spec fn reference_for(self, key_id: Seq<char>) -> Seq<char> {
        "hsm://"@ + self.provider + ":"@ + decimal(self.slot() as nat) + "/"@ + key_id
    }

    /// The reference recorded for a new key: one where the store is enabled.
    pub open spec fn reference_if_enabled(self, key_id: Seq<char>) -> Option<Seq<char>> {
        if self.enabled {
            Some(self.reference_for(key_id))
        } else {
            None
        }
    }
}

impl Default for HSMConfig {
    fn default() -> (config: Self)
        ensures
            config@ == HSMConfigView::disabled(),
    {
        HSMConfig {
            enabled: false,
            provider: "SoftHSM".to_owned(),
            key_slot: None,
            authentication_method: "PIN".to_owned(),
        }
    }
}

/// Counts over the registry at one moment.
#[derive(Debug, Default)]
pub struct KeyStatistics {
    pub total_keys: usize,
    pub active_keys: usize,
    pub expired_keys: usize,
    pub revoked_keys: usize,
    pub pending_keys: usize,
    pub rotating_keys: usize,
    pub needs_cleanup: usize,
    pub needs_rotation: usize,
    pub unique_users: usize,
}

impl KeyStatistics {
    /// The number of keys counted in a status.
    pub open spec fn count_of(&self, status: KeyStatus) -> usize {
        match status {
            KeyStatus::Active => self.active_keys,
            KeyStatus::Expired => self.expired_keys,
            KeyStatus::Revoked => self.revoked_keys,
            KeyStatus::Pending => self.pending_keys,
            KeyStatus::Rotating => self.rotating_keys,
        }
    }

    /// The number of keys counted in `status`; there is one for every status.
    pub fn get(&self, status: &KeyStatus) -> (count: Option<&usize>)
        ensures
            count == Some(&self.count_of(*status)),
    {
        match status {
            KeyStatus::Active => Some(&self.active_keys),
            KeyStatus::Expired => Some(&self.expired_keys),
            KeyStatus::Revoked => Some(&self.revoked_keys),
            KeyStatus::Pending => Some(&self.pending_keys),
            KeyStatus::Rotating => Some(&self.rotating_keys),
        }
    }
}

/// A key pair together with its lifecycle record.
pub struct KeyEntry {
    pub keypair: PQCKeyPair,
    pub metadata: KeyMetadata,
}

/// A registry entry as plain values.
pub struct KeyRecord {
    pub keypair: KeyPairView,
    pub metadata: KeyMetadataView,
}

impl View for KeyEntry {
    type V = KeyRecord;

    open spec fn view(&self) -> KeyRecord {
        KeyRecord { keypair: self.keypair@, metadata: self.metadata@ }
    }
}

/// The identifiers of the keys of one user, oldest first.
pub struct UserKeys {
    pub user_id: String,
    pub key_ids: Vec<String>,
}

/// A user's key list as plain values.
pub struct UserIndex {
    pub user_id: Seq<char>,
    pub key_ids: Seq<Seq<char>>,
}

impl View for UserKeys {
    type V = UserIndex;

    open spec fn view(&self) -> UserIndex {
        UserIndex { user_id: self.user_id@, key_ids: self.key_ids@.map_values(|id: String| id@) }
    }
}

/// The state of a registry: the key records in the order they were stored,
/// the key lists of the users in the order the users first appeared, and
/// the configuration.
pub struct RegistryView {
    pub keys: Seq<KeyRecord>,
    pub user_keys: Seq<UserIndex>,
    pub rotation_interval: u64,
    pub hsm_config: HSMConfigView,
    pub max_keys_per_user: usize,
}

/// The names under which the two supported schemes can be requested.
pub open spec fn is_kem_algorithm(algorithm: Seq<char>) -> bool {
    algorithm == "Kyber-768"@ || algorithm == "ML-KEM-768"@
}

/// The names under which the signature scheme can be requested.
pub open spec fn is_signature_algorithm(algorithm: Seq<char>) -> bool {
    algorithm == "Dilithium-3"@ || algorithm == "ML-DSA-65"@
}

/// Whether keys can be generated for an algorithm name.
pub open spec fn is_supported_algorithm(algorithm: Seq<char>) -> bool {
    is_kem_algorithm(algorithm) || is_signature_algorithm(algorithm)
}

/// The records that belong to `user_id` and still count against the
/// user's allowance.
pub open spec fn live_for(user_id: Seq<char>) -> spec_fn(KeyRecord) -> bool {
    |r: KeyRecord| r.metadata.user_id == user_id && r.metadata.status.is_live()
}

/// The records that a sweep at `now` leaves in place.
pub open spec fn survives(now: u64) -> spec_fn(KeyRecord) -> bool {
    |r: KeyRecord| !r.metadata.due_for_cleanup(now)
}

/// The records in a given status.
pub open spec fn in_status(status: KeyStatus) -> spec_fn(KeyRecord) -> bool {
    |r: KeyRecord| r.metadata.status == status
}

/// The records that are expired at `now`.
pub open spec fn expired(now: u64) -> spec_fn(KeyRecord) -> bool {
    |r: KeyRecord| r.metadata.expired_at(now)
}

/// The records that are older than the rotation interval at `now`.
pub open spec fn aged(rotation_interval: u64, now: u64) -> spec_fn(KeyRecord) -> bool {
    |r: KeyRecord| r.metadata.should_rotate_at(rotation_interval, now)
}

/// The records that an automatic rotation at `now` picks: active and aged.
pub open spec fn due_for_rotation(rotation_interval: u64, now: u64) -> spec_fn(KeyRecord) -> bool {
    |r: KeyRecord|
        r.metadata.status == KeyStatus::Active && r.metadata.should_rotate_at(
            rotation_interval,
            now,
        )
}

/// The user lists with `key_id` appended to the list of `user_id`; a user
/// seen for the first time gets a list of its own at the end.
pub open spec fn index_with(users: Seq<UserIndex>, user_id: Seq<char>, key_id: Seq<char>) -> Seq<UserIndex> {
    if exists|u: int| 0 <= u < users.len() && (#[trigger] users[u]).user_id == user_id {
        let u = choose|u: int| 0 <= u < users.len() && (#[trigger] users[u]).user_id == user_id;
        users.update(u, UserIndex { user_id, key_ids: users[u].key_ids.push(key_id) })
    } else {
        users.push(UserIndex { user_id, key_ids: seq![key_id] })
    }
}

/// Whether the key pair of a record and its lifecycle record carry the
/// same time of creation.
pub open spec fn stamped_once(record: KeyRecord) -> bool {
    record.keypair.created_at == record.metadata.created_at
}

/// The two failures of a generation that was not refused: the clock could
/// not be read, or the fresh identifier is in use.
pub open spec fn is_generation_failure(error: PQCErrorView) -> bool {
    ||| error == PQCErrorView::KeyGenerationFailed("System time error"@)
    ||| error == PQCErrorView::KeyGenerationFailed("Key identifier already in use"@)
}

/// Key material after secure erasure: every byte is zero, the sizes stay.
pub open spec fn erased(keypair: KeyPairView) -> KeyPairView {
    KeyPairView {
        public_key: Seq::new(keypair.public_key.len(), |i: int| 0u8),
        private_key: Seq::new(keypair.private_key.len(), |i: int| 0u8),
        ..keypair
    }
}

impl RegistryView {
    /// A registry without keys and users, in the default configuration.
    pub open spec fn empty() -> RegistryView {
        RegistryView {
            keys: Seq::empty(),
            user_keys: Seq::empty(),
            rotation_interval: DEFAULT_ROTATION_INTERVAL_SECS,
            hsm_config: HSMConfigView::disabled(),
            max_keys_per_user: DEFAULT_MAX_KEYS_PER_USER,
        }
    }

    /// Whether a key with this identifier is stored.
    pub open spec fn has_key(self, key_id: Seq<char>) -> bool {
        exists|i: int| 0 <= i < self.keys.len() && (#[trigger] self.keys[i]).metadata.key_id == key_id
    }

    /// The position of the key with this identifier.
    pub open spec fn key_index(self, key_id: Seq<char>) -> int {
        choose|i: int| 0 <= i < self.keys.len() && (#[trigger] self.keys[i]).metadata.key_id == key_id
    }

    /// Whether the user has a key list.
    pub open spec fn has_user(self, user_id: Seq<char>) -> bool {
        exists|u: int| 0 <= u < self.user_keys.len() && (#[trigger] self.user_keys[u]).user_id == user_id
    }

    /// The position of the user's key list.
    pub open spec fn user_index(self, user_id: Seq<char>) -> int {
        choose|u: int| 0 <= u < self.user_keys.len() && (#[trigger] self.user_keys[u]).user_id == user_id
    }

    /// The number of keys of `user_id` that count against the allowance.
    pub open spec fn live_count(self, user_id: Seq<char>) -> nat {
        self.keys.filter(live_for(user_id)).len()
    }

    /// Whether the user has used up the allowance of live keys.
    pub open spec fn at_capacity(self, user_id: Seq<char>) -> bool {
        self.live_count(user_id) >= self.max_keys_per_user
    }

    /// Whether some stored key has this identifier and this owner.
    pub open spec fn owns(self, user_id: Seq<char>, key_id: Seq<char>) -> bool {
        exists|i: int|
            0 <= i < self.keys.len() && (#[trigger] self.keys[i]).metadata.key_id == key_id
                && self.keys[i].metadata.user_id == user_id
    }

    /// Whether the key list of `user_id` names `key_id`.
    pub open spec fn lists(self, user_id: Seq<char>, key_id: Seq<char>) -> bool {
        exists|u: int|
            0 <= u < self.user_keys.len() && (#[trigger] self.user_keys[u]).user_id == user_id
                && self.user_keys[u].key_ids.contains(key_id)
    }

    /// No two stored keys share an identifier.
    pub open spec fn distinct_keys(self) -> bool {
        forall|i: int, j: int|
            0 <= i < j < self.keys.len() ==> (#[trigger] self.keys[i]).metadata.key_id != (
            #[trigger] self.keys[j]).metadata.key_id
    }

    /// No two key lists belong to the same user.
    pub open spec fn distinct_users(self) -> bool {
        forall|u: int, v: int|
            0 <= u < v < self.user_keys.len() ==> (#[trigger] self.user_keys[u]).user_id != (
            #[trigger] self.user_keys[v]).user_id
    }

    /// Every identifier in a key list names a stored key of that user.
    pub open spec fn no_dangling(self) -> bool {
        forall|u: int, k: int|
            0 <= u < self.user_keys.len() && 0 <= k < self.user_keys[u].key_ids.len()
                ==> self.owns(self.user_keys[u].user_id, #[trigger] self.user_keys[u].key_ids[k])
    }

    /// Every stored key is named in the key list of its owner.
    pub open spec fn all_listed(self) -> bool {
        forall|i: int|
            0 <= i < self.keys.len() ==> self.lists(
                (#[trigger] self.keys[i]).metadata.user_id,
                self.keys[i].metadata.key_id,
            )
    }

    /// The registry is consistent: identifiers and users are unique, no key
    /// list repeats or dangles, and every key is listed by its owner.
    pub open spec fn wf(self) -> bool {
        &&& self.distinct_keys()
        &&& self.distinct_users()
        &&& forall|u: int|
            0 <= u < self.user_keys.len() ==> (#[trigger] self.user_keys[u]).key_ids.no_duplicates()
        &&& self.no_dangling()
        &&& self.all_listed()
    }

    /// The record stored for a key generated at `now`.
    pub open spec fn new_record(
        self,
        user_id: Seq<char>,
        algorithm: Seq<char>,
        key_id: Seq<char>,
        keypair: KeyPairView,
        now: u64,
    ) -> KeyRecord {
        KeyRecord {
            keypair,
            metadata: KeyMetadataView {
                hsm_reference: self.hsm_config.reference_if_enabled(key_id),
                ..KeyMetadataView::fresh(key_id, user_id, algorithm, now)
            },
        }
    }

    /// Why no key is generated for the user under the algorithm, if so: the
    /// user holds the allowed number of live keys, or else the algorithm is
    /// not supported.
    pub open spec fn generation_refusal(self, user_id: Seq<char>, algorithm: Seq<char>) -> Option<PQCErrorView> {
        if self.at_capacity(user_id) {
            Some(PQCErrorView::KeyGenerationFailed("Maximum keys per user exceeded"@))
        } else if !is_supported_algorithm(algorithm) {
            Some(PQCErrorView::UnsupportedAlgorithm(algorithm))
        } else {
            None
        }
    }

    /// Why no key is stored for the user under this identifier, if so: no
    /// key is generated for the user, or else the identifier is in use.
    pub open spec fn store_refusal(self, user_id: Seq<char>, algorithm: Seq<char>, key_id: Seq<char>) -> Option<
        PQCErrorView,
    > {
        if self.generation_refusal(user_id, algorithm) is Some {
            self.generation_refusal(user_id, algorithm)
        } else if self.has_key(key_id) {
            Some(PQCErrorView::KeyGenerationFailed("Key identifier already in use"@))
        } else {
            None
        }
    }

    /// Whether a new key can be stored for the user under this identifier.
    pub open spec fn can_store(self, user_id: Seq<char>, algorithm: Seq<char>, key_id: Seq<char>) -> bool {
        self.store_refusal(user_id, algorithm, key_id) is None
    }

    /// The registry with one more key: the record is appended, then the
    /// identifier is appended to the owner's key list.
    pub open spec fn with_key(self, record: KeyRecord) -> RegistryView {
        RegistryView {
            keys: self.keys.push(record),
            user_keys: index_with(self.user_keys, record.metadata.user_id, record.metadata.key_id),
            ..self
        }
    }

    /// The registry with the key at position `i` in another status.
    pub open spec fn with_status(self, i: int, status: KeyStatus) -> RegistryView {
        RegistryView {
            keys: self.keys.update(
                i,
                KeyRecord { metadata: self.keys[i].metadata.with_status(status), ..self.keys[i] },
            ),
            ..self
        }
    }
}

/// Storing a key whose identifier is new keeps the registry consistent.
pub proof fn lemma_with_key_wf(registry: RegistryView, record: KeyRecord)
    requires
        registry.wf(),
        !registry.has_key(record.metadata.key_id),
    ensures
        registry.with_key(record).wf(),
{
    let after = registry.with_key(record);
    let user_id = record.metadata.user_id;
    let key_id = record.metadata.key_id;
    let n = registry.keys.len() as int;
    assert forall|i: int| 0 <= i < n implies after.keys[i] == registry.keys[i] by {}
    assert(after.keys[n] == record);
    // The identifier is in no key list yet, since every listed key is stored.
    assert forall|u: int| 0 <= u < registry.user_keys.len() implies !(
    #[trigger] registry.user_keys[u]).key_ids.contains(key_id) by {
        if registry.user_keys[u].key_ids.contains(key_id) {
            let k = choose|k: int|
                0 <= k < registry.user_keys[u].key_ids.len() && registry.user_keys[u].key_ids[k]
                    == key_id;
            assert(registry.owns(registry.user_keys[u].user_id, registry.user_keys[u].key_ids[k]));
        }
    }
    if registry.has_user(user_id) {
        let w = choose|u: int|
            0 <= u < registry.user_keys.len() && (#[trigger] registry.user_keys[u]).user_id
                == user_id;
        assert(after.user_keys == registry.user_keys.update(
            w,
            UserIndex { user_id, key_ids: registry.user_keys[w].key_ids.push(key_id) },
        ));
        assert forall|u: int| 0 <= u < after.user_keys.len() implies (
        #[trigger] after.user_keys[u]).user_id == registry.user_keys[u].user_id by {}
        assert forall|u: int| 0 <= u < after.user_keys.len() implies (
        #[trigger] after.user_keys[u]).key_ids.no_duplicates() by {
            if u == w {
                assert(!registry.user_keys[w].key_ids.contains(key_id));
                let ids = registry.user_keys[w].key_ids;
                assert forall|a: int, b: int|
                    0 <= a < ids.push(key_id).len() && 0 <= b < ids.push(key_id).len() && a
                        != b implies ids.push(key_id)[a] != ids.push(key_id)[b] by {
                    if a < ids.len() && b < ids.len() {
                    } else if a < ids.len() {
                        assert(ids.contains(ids[a]));
                    } else {
                        assert(ids.contains(ids[b]));
                    }
                }
            } else {
                assert(after.user_keys[u] == registry.user_keys[u]);
            }
        }
        assert forall|u: int, k: int|
            0 <= u < after.user_keys.len() && 0 <= k < after.user_keys[u].key_ids.len() implies after.owns(
            after.user_keys[u].user_id,
            #[trigger] after.user_keys[u].key_ids[k],
        ) by {
            if u == w && k == registry.user_keys[w].key_ids.len() {
                assert(after.keys[n].metadata.key_id == key_id);
            } else {
                assert(after.user_keys[u].key_ids[k] == registry.user_keys[u].key_ids[k]);
                assert(registry.owns(
                    registry.user_keys[u].user_id,
                    registry.user_keys[u].key_ids[k],
                ));
                let i = choose|i: int|
                    0 <= i < registry.keys.len() && (#[trigger] registry.keys[i]).metadata.key_id
                        == registry.user_keys[u].key_ids[k] && registry.keys[i].metadata.user_id
                        == registry.user_keys[u].user_id;
                assert(after.keys[i] == registry.keys[i]);
            }
        }
        assert forall|i: int| 0 <= i < after.keys.len() implies after.lists(
            (#[trigger] after.keys[i]).metadata.user_id,
            after.keys[i].metadata.key_id,
        ) by {
            if i == n {
                assert(after.user_keys[w].key_ids[registry.user_keys[w].key_ids.len() as int]
                    == key_id);
                assert(after.user_keys[w].key_ids.contains(key_id));
            } else {
                assert(registry.lists(
                    registry.keys[i].metadata.user_id,
                    registry.keys[i].metadata.key_id,
                ));
                let u = choose|u: int|
                    0 <= u < registry.user_keys.len() && (#[trigger] registry.user_keys[u]).user_id
                        == registry.keys[i].metadata.user_id
                        && registry.user_keys[u].key_ids.contains(registry.keys[i].metadata.key_id);
                let k = choose|k: int|
                    0 <= k < registry.user_keys[u].key_ids.len() && registry.user_keys[u].key_ids[k]
                        == registry.keys[i].metadata.key_id;
                assert(after.user_keys[u].key_ids[k] == registry.keys[i].metadata.key_id);
                assert(after.user_keys[u].key_ids.contains(registry.keys[i].metadata.key_id));
            }
        }
    } else {
        let m = registry.user_keys.len() as int;
        assert(after.user_keys == registry.user_keys.push(
            UserIndex { user_id, key_ids: seq![key_id] },
        ));
        assert forall|u: int| 0 <= u < m implies after.user_keys[u] == registry.user_keys[u] by {}
        assert(after.user_keys[m].key_ids[0] == key_id);
        assert forall|u: int, k: int|
            0 <= u < after.user_keys.len() && 0 <= k < after.user_keys[u].key_ids.len() implies after.owns(
            after.user_keys[u].user_id,
            #[trigger] after.user_keys[u].key_ids[k],
        ) by {
            if u == m {
                assert(after.keys[n].metadata.key_id == key_id);
            } else {
                assert(registry.owns(
                    registry.user_keys[u].user_id,
                    registry.user_keys[u].key_ids[k],
                ));
                let i = choose|i: int|
                    0 <= i < registry.keys.len() && (#[trigger] registry.keys[i]).metadata.key_id
                        == registry.user_keys[u].key_ids[k] && registry.keys[i].metadata.user_id
                        == registry.user_keys[u].user_id;
                assert(after.keys[i] == registry.keys[i]);
            }
        }
        assert forall|i: int| 0 <= i < after.keys.len() implies after.lists(
            (#[trigger] after.keys[i]).metadata.user_id,
            after.keys[i].metadata.key_id,
        ) by {
            if i == n {
                assert(after.user_keys[m].key_ids.contains(key_id));
            } else {
                assert(registry.lists(
                    registry.keys[i].metadata.user_id,
                    registry.keys[i].metadata.key_id,
                ));
                let u = choose|u: int|
                    0 <= u < registry.user_keys.len() && (#[trigger] registry.user_keys[u]).user_id
                        == registry.keys[i].metadata.user_id
                        && registry.user_keys[u].key_ids.contains(registry.keys[i].metadata.key_id);
                assert(after.user_keys[u] == registry.user_keys[u]);
            }
        }
    }
}

/// The key registry with its lifecycle operations.
pub struct SecureKeyManager {
    keys: Vec<KeyEntry>,
    user_keys: Vec<UserKeys>,
    rotation_interval: u64,
    hsm_config: HSMConfig,
    max_keys_per_user: usize,
}

impl View for SecureKeyManager {
    type V = RegistryView;

    closed spec fn view(&self) -> RegistryView {
        RegistryView {
            keys: self.keys@.map_values(|e: KeyEntry| e@),
            user_keys: self.user_keys@.map_values(|u: UserKeys| u@),
            rotation_interval: self.rotation_interval,
            hsm_config: self.hsm_config@,
            max_keys_per_user: self.max_keys_per_user,
        }
    }
}

/// One step of counting or filtering: the records up to and including
/// position `i` are those before it, then the record at `i` if it qualifies.
pub proof fn lemma_filter_step<A>(s: Seq<A>, pred: spec_fn(A) -> bool, i: int)
    requires
        0 <= i < s.len(),
    ensures
        s.take(i + 1).filter(pred) == if pred(s[i]) {
            s.take(i).filter(pred).push(s[i])
        } else {
            s.take(i).filter(pred)
        },
{
    reveal(Seq::filter);
    assert(s.take(i + 1).drop_last() =~= s.take(i));
    assert(s.take(i + 1).last() == s[i]);
}

impl SecureKeyManager {
    /// Whether the registry is consistent.
    pub open spec fn wf(&self) -> bool {
        self@.wf()
    }

    /// An empty registry: keys rotate after thirty days, a user may hold
    /// ten live keys, and no hardware store is attached.
    pub fn new() -> (manager: Self)
        ensures
            manager@ == RegistryView::empty(),
            manager.wf(),
    {
        let manager = SecureKeyManager {
            keys: Vec::new(),
            user_keys: Vec::new(),
            rotation_interval: DEFAULT_ROTATION_INTERVAL_SECS,
            hsm_config: HSMConfig::default(),
            max_keys_per_user: DEFAULT_MAX_KEYS_PER_USER,
        };
        assert(manager@.keys =~= Seq::empty());
        assert(manager@.user_keys =~= Seq::empty());
        manager
    }

    /// The position of the key with this identifier, if it is stored.
    fn find_key(&self, key_id: &str) -> (found: Option<usize>)
        ensures
            match found {
                Some(i) => i < self@.keys.len() && self@.keys[i as int].metadata.key_id == key_id@,
                None => !self@.has_key(key_id@),
            },
    {
        let mut i: usize = 0;
        while i < self.keys.len()
            invariant
                i <= self.keys@.len(),
                self@.keys.len() == self.keys@.len(),
                forall|j: int| 0 <= j < i ==> (#[trigger] self@.keys[j]).metadata.key_id != key_id@,
            decreases self.keys@.len() - i,
        {
            if str_eq(self.keys[i].metadata.key_id.as_str(), key_id) {
                return Some(i);
            }
            i += 1;
        }
        None
    }

    /// The position of the key list of this user, if there is one.
    fn find_user(&self, user_id: &str) -> (found: Option<usize>)
        ensures
            match found {
                Some(u) => u < self@.user_keys.len() && self@.user_keys[u as int].user_id
                    == user_id@,
                None => !self@.has_user(user_id@),
            },
    {
        let mut u: usize = 0;
        while u < self.user_keys.len()
            invariant
                u <= self.user_keys@.len(),
                self@.user_keys.len() == self.user_keys@.len(),
                forall|j: int| 0 <= j < u ==> (#[trigger] self@.user_keys[j]).user_id != user_id@,
            decreases self.user_keys@.len() - u,
        {
            if str_eq(self.user_keys[u].user_id.as_str(), user_id) {
                return Some(u);
            }
            u += 1;
        }
        None
    }

    /// The number of keys of the user that count against the allowance.
    fn live_key_count(&self, user_id: &str) -> (count: usize)
        ensures
            count == self@.live_count(user_id@),
    {
        let mut count: usize = 0;
        let mut i: usize = 0;
        while i < self.keys.len()
            invariant
                i <= self.keys@.len(),
                self@.keys.len() == self.keys@.len(),
                count <= i,
                count == self@.keys.take(i as int).filter(live_for(user_id@)).len(),
            decreases self.keys@.len() - i,
        {
            proof {
                lemma_filter_step(self@.keys, live_for(user_id@), i as int);
            }
            let entry = &self.keys[i];
            assert(entry@ == self@.keys[i as int]);
            let live: bool = entry.metadata.status == KeyStatus::Active || entry.metadata.status
                == KeyStatus::Pending;
            if live && str_eq(entry.metadata.user_id.as_str(), user_id) {
                count += 1;
            }
            i += 1;
        }
        assert(self@.keys.take(i as int) =~= self@.keys);
        count
    }
}

/// Whether keys can be requested under this algorithm name.
pub fn supports_algorithm(algorithm: &str) -> (supported: bool)
    ensures
        supported == is_supported_algorithm(algorithm@),
{
    is_kem_name(algorithm) || is_signature_name(algorithm)
}

/// Whether the name asks for the key encapsulation scheme.
pub fn is_kem_name(algorithm: &str) -> (kem: bool)
    ensures
        kem == is_kem_algorithm(algorithm@),
{
    str_eq(algorithm, "Kyber-768") || str_eq(algorithm, "ML-KEM-768")
}

/// Whether the name asks for the signature scheme.
pub fn is_signature_name(algorithm: &str) -> (signature: bool)
    ensures
        signature == is_signature_algorithm(algorithm@),
{
    str_eq(algorithm, "Dilithium-3") || str_eq(algorithm, "ML-DSA-65")
}

/// Whether a key pair has the shape of a pair generated for the algorithm.
pub open spec fn generated_for(algorithm: Seq<char>, keypair: KeyPairView) -> bool {
    if is_kem_algorithm(algorithm) {
        is_mlkem_keypair(keypair)
    } else {
        is_mldsa_keypair(keypair)
    }
}

/// A vector of `len` zero bytes.
pub fn zero_bytes(len: usize) -> (bytes: Vec<u8>)
    ensures
        bytes@ == Seq::new(len as nat, |i: int| 0u8),
{
    let mut bytes: Vec<u8> = Vec::with_capacity(len);
    let mut i: usize = 0;
    while i < len
        invariant
            i <= len,
            bytes@ == Seq::new(i as nat, |j: int| 0u8),
        decreases len - i,
    {
        bytes.push(0u8);
        i += 1;
        assert(bytes@ =~= Seq::new(i as nat, |j: int| 0u8));
    }
    bytes
}

/// Erases the key material of a pair: the public key is overwritten with
/// zeros in place; the secret buffer is replaced by one of zeros, which
/// wipes the buffer that held the key.
pub fn erase_key_material(keypair: &mut PQCKeyPair)
    ensures
        final(keypair)@ == erased(old(keypair)@),
{
    zeroize_bytes(&mut keypair.public_key);
    let len: usize = secret_expose(&keypair.private_key).len();
    keypair.private_key = secret_new(zero_bytes(len));
    assert(keypair@.public_key =~= erased(old(keypair)@).public_key);
}

impl RegistryView {
    /// Why the key `key_id` is not rotated, before a successor is looked
    /// at: it is not stored, or not active, or its rotation count cannot
    /// grow, or with the old key set aside no key is generated for its owner.
    pub open spec fn rotation_precheck(self, key_id: Seq<char>) -> Option<PQCErrorView> {
        if !self.has_key(key_id) {
            Some(PQCErrorView::KeyNotFound(key_id))
        } else {
            let i = self.key_index(key_id);
            let old = self.keys[i].metadata;
            if old.status != KeyStatus::Active {
                Some(
                    PQCErrorView::InvalidKeyState(
                        "Cannot rotate key in status: "@ + old.status.name_spec(),
                    ),
                )
            } else if old.rotation_count == u32::MAX {
                Some(PQCErrorView::InvalidKeyState("Rotation count exhausted"@))
            } else {
                self.with_status(i, KeyStatus::Rotating).generation_refusal(
                    old.user_id,
                    old.algorithm,
                )
            }
        }
    }

    /// Why the key `key_id` is not rotated into a successor `new_key_id`, if
    /// so: the rotation is refused before a successor is looked at, or else
    /// the identifier of the successor is in use.
    pub open spec fn rotation_refusal(self, key_id: Seq<char>, new_key_id: Seq<char>) -> Option<PQCErrorView> {
        if self.rotation_precheck(key_id) is Some {
            self.rotation_precheck(key_id)
        } else if self.has_key(new_key_id) {
            Some(PQCErrorView::KeyGenerationFailed("Key identifier already in use"@))
        } else {
            None
        }
    }

    /// Whether the key `key_id` can be rotated into a new key `new_key_id`.
    pub open spec fn can_rotate(self, key_id: Seq<char>, new_key_id: Seq<char>) -> bool {
        self.rotation_refusal(key_id, new_key_id) is None
    }

    /// The record of the successor of the key at position `i`.
    pub open spec fn successor(self, i: int, new_key_id: Seq<char>, keypair: KeyPairView, now: u64) -> KeyRecord {
        let old = self.keys[i].metadata;
        let record = self.new_record(old.user_id, old.algorithm, new_key_id, keypair, now);
        KeyRecord {
            metadata: KeyMetadataView {
                rotation_count: (old.rotation_count + 1) as u32,
                ..record.metadata
            },
            ..record
        }
    }

    /// The registry after rotating `key_id`: the old key is set aside as
    /// rotating with its material untouched, and its successor is stored.
    pub open spec fn rotated(
        self,
        key_id: Seq<char>,
        new_key_id: Seq<char>,
        keypair: KeyPairView,
        now: u64,
    ) -> RegistryView {
        let i = self.key_index(key_id);
        self.with_status(i, KeyStatus::Rotating).with_key(
            self.successor(i, new_key_id, keypair, now),
        )
    }

    /// The registry after revoking the key at position `i`: the key is
    /// marked revoked and its material is erased.
    pub open spec fn revoked(self, i: int) -> RegistryView {
        RegistryView {
            keys: self.keys.update(
                i,
                KeyRecord {
                    keypair: erased(self.keys[i].keypair),
                    metadata: self.keys[i].metadata.with_status(KeyStatus::Revoked),
                },
            ),
            ..self
        }
    }

    /// Why the key `key_id` is not expired ahead of its time, if so: it is
    /// not stored, or it is revoked.
    pub open spec fn expiry_refusal(self, key_id: Seq<char>) -> Option<PQCErrorView> {
        if !self.has_key(key_id) {
            Some(PQCErrorView::KeyNotFound(key_id))
        } else if self.keys[self.key_index(key_id)].metadata.status == KeyStatus::Revoked {
            Some(PQCErrorView::InvalidKeyState("Cannot expire key in status: Revoked"@))
        } else {
            None
        }
    }

    /// The registry after the key at position `i` was used at `now`.
    pub open spec fn used(self, i: int, now: u64) -> RegistryView {
        RegistryView {
            keys: self.keys.update(
                i,
                KeyRecord {
                    metadata: KeyMetadataView { last_used: Some(now), ..self.keys[i].metadata },
                    ..self.keys[i]
                },
            ),
            ..self
        }
    }
}

/// Replacing a record by one with the same identifier and owner keeps the
/// registry consistent.
pub proof fn lemma_update_wf(registry: RegistryView, i: int, record: KeyRecord)
    requires
        registry.wf(),
        0 <= i < registry.keys.len(),
        record.metadata.key_id == registry.keys[i].metadata.key_id,
        record.metadata.user_id == registry.keys[i].metadata.user_id,
    ensures
        (RegistryView { keys: registry.keys.update(i, record), ..registry }).wf(),
{
    let after = RegistryView { keys: registry.keys.update(i, record), ..registry };
    assert forall|j: int| 0 <= j < after.keys.len() implies (#[trigger] after.keys[j]).metadata.key_id
        == registry.keys[j].metadata.key_id && after.keys[j].metadata.user_id
        == registry.keys[j].metadata.user_id by {}
    assert forall|u: int, k: int|
        0 <= u < after.user_keys.len() && 0 <= k < after.user_keys[u].key_ids.len() implies after.owns(
        after.user_keys[u].user_id,
        #[trigger] after.user_keys[u].key_ids[k],
    ) by {
        assert(registry.owns(registry.user_keys[u].user_id, registry.user_keys[u].key_ids[k]));
        let j = choose|j: int|
            0 <= j < registry.keys.len() && (#[trigger] registry.keys[j]).metadata.key_id
                == registry.user_keys[u].key_ids[k] && registry.keys[j].metadata.user_id
                == registry.user_keys[u].user_id;
        assert(after.keys[j].metadata.key_id == registry.keys[j].metadata.key_id);
    }
    assert forall|j: int| 0 <= j < after.keys.len() implies after.lists(
        (#[trigger] after.keys[j]).metadata.user_id,
        after.keys[j].metadata.key_id,
    ) by {
        assert(registry.lists(registry.keys[j].metadata.user_id, registry.keys[j].metadata.key_id));
    }
}

impl SecureKeyManager {
    /// The registry with a hardware store configuration.
    pub fn with_hsm_config(self, hsm_config: HSMConfig) -> (manager: Self)
        ensures
            manager@ == (RegistryView { hsm_config: hsm_config@, ..self@ }),
    {
        let mut manager = self;
        manager.hsm_config = hsm_config;
        manager
    }

    /// The registry with another rotation interval, in seconds.
    pub fn with_rotation_interval(self, interval_seconds: u64) -> (manager: Self)
        ensures
            manager@ == (RegistryView { rotation_interval: interval_seconds, ..self@ }),
    {
        let mut manager = self;
        manager.rotation_interval = interval_seconds;
        manager
    }

    /// Why no key can be stored for the user under the algorithm, if so: the
    /// allowance is used up, or else the algorithm is unknown.
    fn storage_refusal(&self, user_id: &str, algorithm: &str) -> (refusal: Option<PQCError>)
        ensures
            match refusal {
                Some(e) => self@.generation_refusal(user_id@, algorithm@) == Some(e@),
                None => self@.generation_refusal(user_id@, algorithm@) is None,
            },
    {
        if self.live_key_count(user_id) >= self.max_keys_per_user {
            return Some(PQCError::KeyGenerationFailed("Maximum keys per user exceeded".to_owned()));
        }
        if !supports_algorithm(algorithm) {
            return Some(PQCError::UnsupportedAlgorithm(algorithm.to_owned()));
        }
        None
    }

    /// Hands a key to the hardware store and returns the reference under
    /// which the store keeps it. Fails where no store is enabled.
    fn store_key_in_hsm(&self, key_id: &str) -> (result: PQCResult<String>)
        ensures
            self@.hsm_config.enabled ==> (result matches Ok(reference) && reference@
                == self@.hsm_config.reference_for(key_id@)),
            !self@.hsm_config.enabled ==> fails_with(
                result,
                PQCErrorView::HSMError("HSM not enabled"@),
            ),
    {
        if !self.hsm_config.enabled {
            return Err(PQCError::HSMError("HSM not enabled".to_owned()));
        }
        let slot: u32 = match self.hsm_config.key_slot {
            Some(slot) => slot,
            None => 0,
        };
        let numeral: String = decimal_string(slot as u64);
        let mut reference: String = "hsm://".to_owned();
        reference.append(self.hsm_config.provider.as_str());
        reference.append(":");
        reference.append(numeral.as_str());
        reference.append("/");
        reference.append(key_id);
        Ok(reference)
    }

    /// Asks the hardware store to forget a key. The store at hand forgets
    /// every key it is asked to.
    fn remove_key_from_hsm(&self, _hsm_reference: &str) -> (result: PQCResult<()>)
        ensures
            result is Ok,
    {
        Ok(())
    }

    /// Stores a key pair generated at `now` for the user under the
    /// identifier `key_id`.
    ///
    /// The key is refused, and the registry left as it was, where the user
    /// holds the allowed number of live keys, where the algorithm is not
    /// supported, or where the identifier is in use, in this order.
    /// Otherwise the record is appended to the registry, then the identifier
    /// to the user's key list.
    pub fn store_key(
        &mut self,
        user_id: &str,
        algorithm: &str,
        key_id: String,
        keypair: PQCKeyPair,
        now: u64,
    ) -> (result: PQCResult<String>)
        requires
            old(self).wf(),
        ensures
            final(self).wf(),
            match old(self)@.store_refusal(user_id@, algorithm@, key_id@) {
                Some(refusal) => fails_with(result, refusal) && final(self)@ == old(self)@,
                None => result matches Ok(id) && id@ == key_id@ && final(self)@ == old(
                    self,
                )@.with_key(old(self)@.new_record(user_id@, algorithm@, key_id@, keypair@, now)),
            },
    {
        match self.storage_refusal(user_id, algorithm) {
            Some(e) => {
                return Err(e);
            },
            None => {},
        }
        if self.find_key(key_id.as_str()).is_some() {
            return Err(PQCError::KeyGenerationFailed("Key identifier already in use".to_owned()));
        }
        let hsm_reference: Option<String> = if self.hsm_config.enabled {
            match self.store_key_in_hsm(key_id.as_str()) {
                Ok(reference) => Some(reference),
                Err(e) => {
                    return Err(e);
                },
            }
        } else {
            None
        };
        let listed_id: String = key_id.clone();
        let returned_id: String = key_id.clone();
        let mut metadata = KeyMetadata::with_id_at(key_id, user_id.to_owned(), algorithm.to_owned(), now);
        metadata.hsm_reference = hsm_reference;
        let ghost record = old(self)@.new_record(user_id@, algorithm@, key_id@, keypair@, now);
        assert(metadata@ == record.metadata);
        self.keys.push(KeyEntry { keypair, metadata });
        assert(self@.keys =~= old(self)@.keys.push(record));
        match self.find_user(user_id) {
            Some(u) => {
                self.user_keys[u].key_ids.push(listed_id);
                assert(self@.user_keys =~= old(self)@.user_keys.update(
                    u as int,
                    UserIndex {
                        user_id: user_id@,
                        key_ids: old(self)@.user_keys[u as int].key_ids.push(key_id@),
                    },
                )) by {
                    assert(self@.user_keys[u as int].key_ids =~= old(self)@.user_keys[u as int].key_ids.push(
                        key_id@,
                    ));
                }
                assert(old(self)@.user_index(user_id@) == u) by {
                    let w = old(self)@.user_index(user_id@);
                    assert(old(self)@.user_keys[u as int].user_id == user_id@);
                    if w < u {
                        assert(old(self)@.user_keys[w].user_id != old(self)@.user_keys[u as int].user_id);
                    } else if u < w {
                        assert(old(self)@.user_keys[u as int].user_id != old(self)@.user_keys[w].user_id);
                    }
                }
            },
            None => {
                let mut key_ids: Vec<String> = Vec::new();
                key_ids.push(listed_id);
                self.user_keys.push(UserKeys { user_id: user_id.to_owned(), key_ids });
                assert(self@.user_keys =~= old(self)@.user_keys.push(
                    UserIndex { user_id: user_id@, key_ids: seq![key_id@] },
                )) by {
                    assert(self@.user_keys.last().key_ids =~= seq![key_id@]);
                }
            },
        }
        proof {
            lemma_with_key_wf(old(self)@, record);
            assert(self@ == old(self)@.with_key(record));
        }
        Ok(returned_id)
    }

    /// Generates a key pair for the user and stores it under a fresh
    /// identifier, which is returned.
    ///
    /// A user who holds the allowed number of live keys is refused, then an
    /// algorithm that is not supported; in both cases nothing is generated.
    /// Otherwise the clock is read once, and a key is generated, stamped and
    /// appended; this fails, leaving the registry as it was, only where the
    /// clock cannot be read or the fresh identifier is in use.
    pub fn generate_and_store_key(&mut self, user_id: &str, algorithm: &str) -> (result: PQCResult<String>)
        requires
            old(self).wf(),
        ensures
            final(self).wf(),
            old(self)@.generation_refusal(user_id@, algorithm@) matches Some(refusal)
                ==> fails_with(result, refusal),
            match result {
                Ok(key_id) => {
                    &&& old(self)@.can_store(user_id@, algorithm@, key_id@)
                    &&& key_id@.len() == KEY_ID_LENGTH
                    &&& final(self)@ == old(self)@.with_key(final(self)@.keys.last())
                    &&& final(self)@.keys.last() == old(self)@.new_record(
                        user_id@,
                        algorithm@,
                        key_id@,
                        final(self)@.keys.last().keypair,
                        final(self)@.keys.last().metadata.created_at,
                    )
                    &&& generated_for(algorithm@, final(self)@.keys.last().keypair)
                    &&& stamped_once(final(self)@.keys.last())
                },
                Err(e) => final(self)@ == old(self)@ && (old(self)@.generation_refusal(
                    user_id@,
                    algorithm@,
                ) is None ==> is_generation_failure(e@)),
            },
    {
        match self.storage_refusal(user_id, algorithm) {
            Some(e) => {
                return Err(e);
            },
            None => {},
        }
        let now: u64 = match unix_time_secs() {
            Some(now) => now,
            None => {
                return Err(PQCError::KeyGenerationFailed("System time error".to_owned()));
            },
        };
        let key_id: String = new_key_id();
        let generated: PQCResult<PQCKeyPair> = if is_kem_name(algorithm) {
            generate_mlkem_keypair_at(Some(now))
        } else {
            generate_mldsa_keypair_at(Some(now))
        };
        match generated {
            Err(e) => Err(e),
            Ok(keypair) => {
                let ghost record = old(self)@.new_record(user_id@, algorithm@, key_id@, keypair@, now);
                let result = self.store_key(user_id, algorithm, key_id, keypair, now);
                proof {
                    if result is Ok {
                        assert(self@.keys.last() == record);
                    }
                }
                result
            },
        }
    }
}

impl SecureKeyManager {
    /// Rotates the key `key_id` into a successor generated at `now` under
    /// the identifier `new_key_id`, which is returned.
    ///
    /// The old key is set aside as rotating, with its material untouched,
    /// and the successor is stored as a new active key of the same user and
    /// algorithm that has been rotated once more than the old key. Where
    /// the rotation is refused the registry is left as it was.
    pub fn rotate_key_with(
        &mut self,
        key_id: &str,
        new_key_id: String,
        keypair: PQCKeyPair,
        now: u64,
    ) -> (result: PQCResult<String>)
        requires
            old(self).wf(),
        ensures
            final(self).wf(),
            match old(self)@.rotation_refusal(key_id@, new_key_id@) {
                Some(refusal) => fails_with(result, refusal) && final(self)@ == old(self)@,
                None => result matches Ok(id) && id@ == new_key_id@ && id@ != key_id@ && final(
                    self
                )@ == old(self)@.rotated(key_id@, new_key_id@, keypair@, now),
            },
    {
        let i: usize = match self.find_key(key_id) {
            Some(i) => i,
            None => {
                return Err(PQCError::KeyNotFound(key_id.to_owned()));
            },
        };
        proof {
            old(self)@.lemma_key_index(key_id@, i as int);
        }
        let status: KeyStatus = self.keys[i].metadata.status;
        if status != KeyStatus::Active {
            let mut message: String = "Cannot rotate key in status: ".to_owned();
            message.append(status.name());
            return Err(PQCError::InvalidKeyState(message));
        }
        let rotation_count: u32 = self.keys[i].metadata.rotation_count;
        if rotation_count == u32::MAX {
            return Err(PQCError::InvalidKeyState("Rotation count exhausted".to_owned()));
        }
        let user_id: String = self.keys[i].metadata.user_id.clone();
        let algorithm: String = self.keys[i].metadata.algorithm.clone();
        assert(self.keys@[i as int]@ == old(self)@.keys[i as int]);
        self.keys[i].metadata.status = KeyStatus::Rotating;
        let ghost retired = old(self)@.with_status(i as int, KeyStatus::Rotating);
        proof {
            assert(self@.keys =~= retired.keys);
            assert(self@ == retired);
            lemma_update_wf(old(self)@, i as int, retired.keys[i as int]);
            assert(retired.has_key(new_key_id@) == old(self)@.has_key(new_key_id@)) by {
                if retired.has_key(new_key_id@) {
                    let j = retired.key_index(new_key_id@);
                    assert(old(self)@.keys[j].metadata.key_id == new_key_id@);
                }
                if old(self)@.has_key(new_key_id@) {
                    let j = old(self)@.key_index(new_key_id@);
                    assert(retired.keys[j].metadata.key_id == new_key_id@);
                }
            }
        }
        match self.store_key(user_id.as_str(), algorithm.as_str(), new_key_id, keypair, now) {
            Err(e) => {
                self.keys[i].metadata.status = KeyStatus::Active;
                assert(self@.keys =~= old(self)@.keys);
                Err(e)
            },
            Ok(id) => {
                let ghost stored = self@;
                let ghost plain = retired.new_record(
                    user_id@,
                    algorithm@,
                    new_key_id@,
                    keypair@,
                    now,
                );
                let ghost successor = old(self)@.successor(i as int, new_key_id@, keypair@, now);
                assert(stored == retired.with_key(plain));
                assert(self.keys@.len() == stored.keys.len());
                let last: usize = self.keys.len() - 1;
                assert(stored.keys[last as int] == plain);
                assert(self.keys@[last as int]@ == plain);
                self.keys[last].metadata.rotation_count = rotation_count + 1;
                proof {
                    assert(self.keys@[last as int]@.metadata == (KeyMetadataView {
                        rotation_count: (rotation_count + 1) as u32,
                        ..plain.metadata
                    }));
                    assert(self@.keys[last as int] == self.keys@[last as int]@);
                    assert(self@.keys[last as int].metadata == successor.metadata);
                    assert(self@.keys[last as int].keypair == successor.keypair);
                    assert(self@.keys[last as int] == successor);
                    assert forall|j: int| 0 <= j < last implies self@.keys[j]
                        == retired.keys[j] by {
                        assert(self@.keys[j] == self.keys@[j]@);
                        assert(stored.keys[j] == retired.keys[j]);
                    }
                    assert(self@.keys =~= retired.keys.push(successor));
                    assert(self@.user_keys == stored.user_keys);
                    assert(self@ == retired.with_key(successor));
                    lemma_with_key_wf(retired, successor);
                }
                Ok(id)
            },
        }
    }

    /// Rotates the key `key_id` into a freshly generated successor and
    /// returns the identifier of the successor.
    ///
    /// A key that is not stored, not active or rotated too often is refused,
    /// then an owner who holds the allowed number of live keys without it,
    /// then an algorithm that is not supported. Otherwise the clock is read
    /// once and a successor is generated and stamped; this fails only where
    /// the clock cannot be read or the fresh identifier is in use. A
    /// rotation that fails leaves the registry as it was.
    pub fn rotate_key(&mut self, key_id: &str) -> (result: PQCResult<String>)
        requires
            old(self).wf(),
        ensures
            final(self).wf(),
            old(self)@.rotation_precheck(key_id@) matches Some(refusal) ==> fails_with(
                result,
                refusal,
            ),
            match result {
                Ok(new_key_id) => {
                    &&& old(self)@.can_rotate(key_id@, new_key_id@)
                    &&& new_key_id@ != key_id@
                    &&& new_key_id@.len() == KEY_ID_LENGTH
                    &&& final(self)@ == old(self)@.rotated(
                        key_id@,
                        new_key_id@,
                        final(self)@.keys.last().keypair,
                        final(self)@.keys.last().metadata.created_at,
                    )
                    &&& generated_for(
                        old(self)@.keys[old(self)@.key_index(key_id@)].metadata.algorithm,
                        final(self)@.keys.last().keypair,
                    )
                    &&& stamped_once(final(self)@.keys.last())
                },
                Err(e) => final(self)@ == old(self)@ && (old(self)@.rotation_precheck(key_id@)
                    is None ==> is_generation_failure(e@)),
            },
    {
        let i: usize = match self.find_key(key_id) {
            Some(i) => i,
            None => {
                return Err(PQCError::KeyNotFound(key_id.to_owned()));
            },
        };
        proof {
            old(self)@.lemma_key_index(key_id@, i as int);
        }
        let status: KeyStatus = self.keys[i].metadata.status;
        if status != KeyStatus::Active {
            let mut message: String = "Cannot rotate key in status: ".to_owned();
            message.append(status.name());
            return Err(PQCError::InvalidKeyState(message));
        }
        if self.keys[i].metadata.rotation_count == u32::MAX {
            return Err(PQCError::InvalidKeyState("Rotation count exhausted".to_owned()));
        }
        let user_id: String = self.keys[i].metadata.user_id.clone();
        let algorithm: String = self.keys[i].metadata.algorithm.clone();
        self.keys[i].metadata.status = KeyStatus::Rotating;
        proof {
            assert(self@.keys =~= old(self)@.with_status(i as int, KeyStatus::Rotating).keys);
        }
        let refusal: Option<PQCError> = self.storage_refusal(user_id.as_str(), algorithm.as_str());
        self.keys[i].metadata.status = KeyStatus::Active;
        assert(self@.keys =~= old(self)@.keys);
        match refusal {
            Some(e) => {
                return Err(e);
            },
            None => {},
        }
        let now: u64 = match unix_time_secs() {
            Some(now) => now,
            None => {
                return Err(PQCError::KeyGenerationFailed("System time error".to_owned()));
            },
        };
        let new_key_id: String = new_key_id();
        let generated: PQCResult<PQCKeyPair> = if is_kem_name(algorithm.as_str()) {
            generate_mlkem_keypair_at(Some(now))
        } else {
            generate_mldsa_keypair_at(Some(now))
        };
        match generated {
            Err(e) => Err(e),
            Ok(keypair) => {
                let ghost successor = old(self)@.successor(i as int, new_key_id@, keypair@, now);
                let result = self.rotate_key_with(key_id, new_key_id, keypair, now);
                proof {
                    if result is Ok {
                        assert(self@.keys.last() == successor);
                    }
                }
                result
            },
        }
    }

    /// Revokes a key: the key is marked revoked and its material is erased.
    /// A hardware store that holds the key is asked to forget it first; the
    /// key is revoked whatever the store answers. Revoking a revoked key
    /// changes nothing more.
    pub fn revoke_key(&mut self, key_id: &str) -> (result: PQCResult<()>)
        requires
            old(self).wf(),
        ensures
            final(self).wf(),
            old(self)@.has_key(key_id@) ==> result is Ok && final(self)@ == old(self)@.revoked(
                old(self)@.key_index(key_id@),
            ),
            !old(self)@.has_key(key_id@) ==> fails_with(
                result,
                PQCErrorView::KeyNotFound(key_id@),
            ) && final(self)@ == old(self)@,
    {
        let i: usize = match self.find_key(key_id) {
            Some(i) => i,
            None => {
                return Err(PQCError::KeyNotFound(key_id.to_owned()));
            },
        };
        proof {
            old(self)@.lemma_key_index(key_id@, i as int);
        }
        match &self.keys[i].metadata.hsm_reference {
            Some(reference) => {
                let _ = self.remove_key_from_hsm(reference.as_str());
            },
            None => {},
        }
        self.keys[i].metadata.status = KeyStatus::Revoked;
        erase_key_material(&mut self.keys[i].keypair);
        proof {
            assert(self@.keys =~= old(self)@.revoked(i as int).keys);
            lemma_update_wf(old(self)@, i as int, old(self)@.revoked(i as int).keys[i as int]);
        }
        Ok(())
    }

    /// The key pair and the record stored under an identifier.
    pub fn get_key_by_id(&self, key_id: &str) -> (result: PQCResult<(&PQCKeyPair, &KeyMetadata)>)
        requires
            self.wf(),
        ensures
            self@.has_key(key_id@) ==> (result matches Ok(found) && (KeyRecord {
                keypair: found.0@,
                metadata: found.1@,
            }) == self@.keys[self@.key_index(key_id@)]),
            !self@.has_key(key_id@) ==> fails_with(result, PQCErrorView::KeyNotFound(key_id@)),
    {
        match self.find_key(key_id) {
            Some(i) => {
                proof {
                    self@.lemma_key_index(key_id@, i as int);
                }
                let entry = &self.keys[i];
                assert(entry@ == self@.keys[i as int]);
                Ok((&entry.keypair, &entry.metadata))
            },
            None => Err(PQCError::KeyNotFound(key_id.to_owned())),
        }
    }

    /// Records that a key was used at `now`.
    pub fn update_key_usage_at(&mut self, key_id: &str, now: u64) -> (result: PQCResult<()>)
        requires
            old(self).wf(),
        ensures
            final(self).wf(),
            old(self)@.has_key(key_id@) ==> result is Ok && final(self)@ == old(self)@.used(
                old(self)@.key_index(key_id@),
                now,
            ),
            !old(self)@.has_key(key_id@) ==> fails_with(
                result,
                PQCErrorView::KeyNotFound(key_id@),
            ) && final(self)@ == old(self)@,
    {
        match self.find_key(key_id) {
            Some(i) => {
                proof {
                    old(self)@.lemma_key_index(key_id@, i as int);
                }
                self.keys[i].metadata.last_used = Some(now);
                proof {
                    assert(self@.keys =~= old(self)@.used(i as int, now).keys);
                    lemma_update_wf(old(self)@, i as int, old(self)@.used(i as int, now).keys[i as int]);
                }
                Ok(())
            },
            None => Err(PQCError::KeyNotFound(key_id.to_owned())),
        }
    }

    /// Records that a key was used just now.
    pub fn update_key_usage(&mut self, key_id: &str) -> (result: PQCResult<()>)
        requires
            old(self).wf(),
        ensures
            final(self).wf(),
            old(self)@.has_key(key_id@) ==> result is Ok && exists|now: u64|
                final(self)@ == old(self)@.used(old(self)@.key_index(key_id@), now),
            !old(self)@.has_key(key_id@) ==> fails_with(
                result,
                PQCErrorView::KeyNotFound(key_id@),
            ) && final(self)@ == old(self)@,
    {
        let now: u64 = current_time();
        self.update_key_usage_at(key_id, now)
    }

    /// Expires a key ahead of its time: the key is marked expired, and the
    /// next sweep removes it. Nothing else changes.
    ///
    /// A key that is not stored is not found, and a revoked key stays
    /// revoked. Expiring an expired key changes nothing.
    pub fn expire_key(&mut self, key_id: &str) -> (result: PQCResult<()>)
        requires
            old(self).wf(),
        ensures
            final(self).wf(),
            match old(self)@.expiry_refusal(key_id@) {
                Some(refusal) => fails_with(result, refusal) && final(self)@ == old(self)@,
                None => result is Ok && final(self)@ == old(self)@.with_status(
                    old(self)@.key_index(key_id@),
                    KeyStatus::Expired,
                ),
            },
    {
        let i: usize = match self.find_key(key_id) {
            Some(i) => i,
            None => {
                return Err(PQCError::KeyNotFound(key_id.to_owned()));
            },
        };
        proof {
            old(self)@.lemma_key_index(key_id@, i as int);
        }
        if self.keys[i].metadata.status == KeyStatus::Revoked {
            return Err(PQCError::InvalidKeyState("Cannot expire key in status: Revoked".to_owned()));
        }
        self.keys[i].metadata.status = KeyStatus::Expired;
        proof {
            assert(self@.keys =~= old(self)@.with_status(i as int, KeyStatus::Expired).keys);
            lemma_update_wf(
                old(self)@,
                i as int,
                old(self)@.with_status(i as int, KeyStatus::Expired).keys[i as int],
            );
        }
        Ok(())
    }

    /// The number of keys stored.
    pub fn get_key_count(&self) -> (count: usize)
        ensures
            count == self@.keys.len(),
    {
        self.keys.len()
    }

    /// The records of all keys, in the order the keys were stored.
    pub fn get_all_keys(&self) -> (all: Vec<&KeyMetadata>)
        ensures
            all@.len() == self@.keys.len(),
            forall|i: int| 0 <= i < all@.len() ==> (#[trigger] all@[i])@ == self@.keys[i].metadata,
    {
        let mut all: Vec<&KeyMetadata> = Vec::new();
        let mut i: usize = 0;
        while i < self.keys.len()
            invariant
                i <= self.keys@.len(),
                self@.keys.len() == self.keys@.len(),
                all@.len() == i,
                forall|j: int| 0 <= j < i ==> (#[trigger] all@[j])@ == self@.keys[j].metadata,
            decreases self.keys@.len() - i,
        {
            let entry = &self.keys[i];
            assert(entry@ == self@.keys[i as int]);
            all.push(&entry.metadata);
            i += 1;
        }
        all
    }
}

impl RegistryView {
    /// In a consistent registry a key is found at one position only.
    pub proof fn lemma_key_index(self, key_id: Seq<char>, i: int)
        requires
            self.distinct_keys(),
            0 <= i < self.keys.len(),
            self.keys[i].metadata.key_id == key_id,
        ensures
            self.has_key(key_id),
            self.key_index(key_id) == i,
    {
        let j = self.key_index(key_id);
        if j < i {
            assert(self.keys[j].metadata.key_id != self.keys[i].metadata.key_id);
        } else if i < j {
            assert(self.keys[i].metadata.key_id != self.keys[j].metadata.key_id);
        }
    }
}

/// The records that a list of references points to, as plain values.
pub open spec fn metadata_views(records: Seq<&KeyMetadata>) -> Seq<KeyMetadataView> {
    records.map_values(|m: &KeyMetadata| m@)
}

/// The records in the status `Active`.
pub open spec fn active_record() -> spec_fn(KeyMetadataView) -> bool {
    |m: KeyMetadataView| m.status == KeyStatus::Active
}

impl RegistryView {
    /// The number of stored keys that satisfy a condition.
    pub open spec fn count(self, pred: spec_fn(KeyRecord) -> bool) -> nat {
        self.keys.filter(pred).len()
    }

    /// The counts over the registry at `now`.
    pub open spec fn statistics_at(self, now: u64) -> KeyStatistics {
        KeyStatistics {
            total_keys: self.keys.len() as usize,
            active_keys: self.count(in_status(KeyStatus::Active)) as usize,
            expired_keys: self.count(in_status(KeyStatus::Expired)) as usize,
            revoked_keys: self.count(in_status(KeyStatus::Revoked)) as usize,
            pending_keys: self.count(in_status(KeyStatus::Pending)) as usize,
            rotating_keys: self.count(in_status(KeyStatus::Rotating)) as usize,
            needs_cleanup: self.count(expired(now)) as usize,
            needs_rotation: self.count(aged(self.rotation_interval, now)) as usize,
            unique_users: self.user_keys.len() as usize,
        }
    }

    /// The identifiers in the key list of a user; none for an unknown user.
    pub open spec fn key_ids_of(self, user_id: Seq<char>) -> Seq<Seq<char>> {
        if self.has_user(user_id) {
            self.user_keys[self.user_index(user_id)].key_ids
        } else {
            Seq::empty()
        }
    }

    /// The records of the keys of a user, in the order of the user's key list.
    pub open spec fn records_of(self, user_id: Seq<char>) -> Seq<KeyMetadataView> {
        self.key_ids_of(user_id).map_values(|id: Seq<char>| self.keys[self.key_index(id)].metadata)
    }

    /// Whether the key at position `k` of the user's key list can serve
    /// the algorithm at `now`: it is stored for that algorithm, active and
    /// not expired.
    pub open spec fn usable_at(self, user_id: Seq<char>, algorithm: Seq<char>, now: u64, k: int) -> bool {
        &&& 0 <= k < self.key_ids_of(user_id).len()
        &&& self.has_key(self.key_ids_of(user_id)[k])
        &&& self.keys[self.key_index(self.key_ids_of(user_id)[k])].metadata.algorithm == algorithm
        &&& self.keys[self.key_index(self.key_ids_of(user_id)[k])].metadata.status
            == KeyStatus::Active
        &&& !self.keys[self.key_index(self.key_ids_of(user_id)[k])].metadata.expired_at(now)
    }

    /// Whether position `k` is the first in the user's key list whose key
    /// can serve the algorithm at `now`.
    pub open spec fn first_usable_at(self, user_id: Seq<char>, algorithm: Seq<char>, now: u64, k: int) -> bool {
        &&& self.usable_at(user_id, algorithm, now, k)
        &&& forall|j: int| 0 <= j < k ==> !self.usable_at(user_id, algorithm, now, j)
    }

    /// Whether no key in the user's key list can serve the algorithm at `now`.
    pub open spec fn none_usable_at(self, user_id: Seq<char>, algorithm: Seq<char>, now: u64) -> bool {
        forall|k: int| !self.usable_at(user_id, algorithm, now, k)
    }

    /// In a consistent registry a user's key list is found at one position only.
    pub proof fn lemma_user_index(self, user_id: Seq<char>, u: int)
        requires
            self.distinct_users(),
            0 <= u < self.user_keys.len(),
            self.user_keys[u].user_id == user_id,
        ensures
            self.has_user(user_id),
            self.user_index(user_id) == u,
            self.key_ids_of(user_id) == self.user_keys[u].key_ids,
    {
        let w = self.user_index(user_id);
        if w < u {
            assert(self.user_keys[w].user_id != self.user_keys[u].user_id);
        } else if u < w {
            assert(self.user_keys[u].user_id != self.user_keys[w].user_id);
        }
    }
}

impl SecureKeyManager {
    /// The counts over the registry at `now`.
    pub fn get_key_statistics_at(&self, now: u64) -> (stats: KeyStatistics)
        ensures
            stats == self@.statistics_at(now),
    {
        let mut stats = KeyStatistics {
            total_keys: 0,
            active_keys: 0,
            expired_keys: 0,
            revoked_keys: 0,
            pending_keys: 0,
            rotating_keys: 0,
            needs_cleanup: 0,
            needs_rotation: 0,
            unique_users: self.user_keys.len(),
        };
        let ghost keys = self@.keys;
        let interval: u64 = self.rotation_interval;
        let mut i: usize = 0;
        while i < self.keys.len()
            invariant
                i <= self.keys@.len(),
                keys == self@.keys,
                keys.len() == self.keys@.len(),
                interval == self@.rotation_interval,
                stats.total_keys == i,
                stats.active_keys == keys.take(i as int).filter(in_status(KeyStatus::Active)).len(),
                stats.expired_keys == keys.take(i as int).filter(
                    in_status(KeyStatus::Expired),
                ).len(),
                stats.revoked_keys == keys.take(i as int).filter(
                    in_status(KeyStatus::Revoked),
                ).len(),
                stats.pending_keys == keys.take(i as int).filter(
                    in_status(KeyStatus::Pending),
                ).len(),
                stats.rotating_keys == keys.take(i as int).filter(
                    in_status(KeyStatus::Rotating),
                ).len(),
                stats.needs_cleanup == keys.take(i as int).filter(expired(now)).len(),
                stats.needs_rotation == keys.take(i as int).filter(aged(interval, now)).len(),
                stats.unique_users == self@.user_keys.len(),
                stats.active_keys <= i,
                stats.expired_keys <= i,
                stats.revoked_keys <= i,
                stats.pending_keys <= i,
                stats.rotating_keys <= i,
                stats.needs_cleanup <= i,
                stats.needs_rotation <= i,
            decreases self.keys@.len() - i,
        {
            proof {
                lemma_filter_step(keys, in_status(KeyStatus::Active), i as int);
                lemma_filter_step(keys, in_status(KeyStatus::Expired), i as int);
                lemma_filter_step(keys, in_status(KeyStatus::Revoked), i as int);
                lemma_filter_step(keys, in_status(KeyStatus::Pending), i as int);
                lemma_filter_step(keys, in_status(KeyStatus::Rotating), i as int);
                lemma_filter_step(keys, expired(now), i as int);
                lemma_filter_step(keys, aged(interval, now), i as int);
            }
            let metadata = &self.keys[i].metadata;
            assert(metadata@ == keys[i as int].metadata);
            stats.total_keys += 1;
            match metadata.status {
                KeyStatus::Active => {
                    stats.active_keys += 1;
                },
                KeyStatus::Expired => {
                    stats.expired_keys += 1;
                },
                KeyStatus::Revoked => {
                    stats.revoked_keys += 1;
                },
                KeyStatus::Pending => {
                    stats.pending_keys += 1;
                },
                KeyStatus::Rotating => {
                    stats.rotating_keys += 1;
                },
            }
            if metadata.is_expired_at(now) {
                stats.needs_cleanup += 1;
            }
            if metadata.should_rotate_at(interval, now) {
                stats.needs_rotation += 1;
            }
            i += 1;
        }
        assert(keys.take(i as int) =~= keys);
        stats
    }

    /// The counts over the registry by the current clock. The counts by
    /// status and of users do not depend on the clock.
    pub fn get_key_statistics(&self) -> (stats: KeyStatistics)
        ensures
            exists|now: u64| stats == self@.statistics_at(now),
    {
        let now: u64 = current_time();
        self.get_key_statistics_at(now)
    }

    /// The records of the keys of a user, in the order the keys were
    /// stored for the user; none for an unknown user.
    pub fn get_user_keys(&self, user_id: &str) -> (records: Vec<&KeyMetadata>)
        requires
            self.wf(),
        ensures
            metadata_views(records@) == self@.records_of(user_id@),
    {
        let mut records: Vec<&KeyMetadata> = Vec::new();
        let u: usize = match self.find_user(user_id) {
            Some(u) => u,
            None => {
                assert(metadata_views(records@) =~= self@.records_of(user_id@));
                return records;
            },
        };
        proof {
            self@.lemma_user_index(user_id@, u as int);
        }
        let ghost ids = self@.key_ids_of(user_id@);
        let mut k: usize = 0;
        while k < self.user_keys[u].key_ids.len()
            invariant
                self.wf(),
                u < self.user_keys@.len(),
                ids == self@.user_keys[u as int].key_ids,
                ids == self@.key_ids_of(user_id@),
                ids.len() == self.user_keys@[u as int].key_ids@.len(),
                k <= ids.len(),
                records@.len() == k,
                self@.records_of(user_id@).len() == ids.len(),
                metadata_views(records@) == self@.records_of(user_id@).take(
                    k as int,
                ),
            decreases ids.len() - k,
        {
            let key_id = &self.user_keys[u].key_ids[k];
            assert(key_id@ == ids[k as int]);
            assert(self@.owns(self@.user_keys[u as int].user_id, ids[k as int]));
            match self.find_key(key_id.as_str()) {
                Some(i) => {
                    proof {
                        self@.lemma_key_index(key_id@, i as int);
                    }
                    let entry = &self.keys[i];
                    assert(entry@ == self@.keys[i as int]);
                    let ghost earlier = records@;
                    records.push(&entry.metadata);
                    proof {
                        let views = metadata_views(records@);
                        let expected = self@.records_of(user_id@);
                        assert(expected[k as int] == self@.keys[i as int].metadata);
                        assert forall|j: int| 0 <= j < k + 1 implies views[j] == expected.take(
                            k + 1,
                        )[j] by {
                            if j < k {
                                assert(views[j] == metadata_views(earlier)[j]);
                                assert(expected.take(k as int)[j] == expected[j]);
                            }
                        }
                        assert(views =~= expected.take(k + 1));
                    }
                },
                None => {
                    assert(false);
                },
            }
            k += 1;
        }
        assert(self@.records_of(user_id@).take(k as int) =~= self@.records_of(user_id@));
        records
    }

    /// The records of the active keys of a user, in the order the keys
    /// were stored for the user; none for an unknown user.
    pub fn get_active_keys_for_user(&self, user_id: &str) -> (records: Vec<&KeyMetadata>)
        requires
            self.wf(),
        ensures
            metadata_views(records@) == self@.records_of(user_id@).filter(
                active_record(),
            ),
    {
        let all: Vec<&KeyMetadata> = self.get_user_keys(user_id);
        let ghost views = self@.records_of(user_id@);
        let mut records: Vec<&KeyMetadata> = Vec::new();
        let mut k: usize = 0;
        proof {
            reveal(Seq::filter);
            assert(views.take(0) =~= Seq::empty());
        }
        while k < all.len()
            invariant
                k <= all@.len(),
                metadata_views(all@) == views,
                metadata_views(records@) == views.take(k as int).filter(
                    active_record(),
                ),
            decreases all@.len() - k,
        {
            proof {
                lemma_filter_step(views, active_record(), k as int);
            }
            let metadata: &KeyMetadata = all[k];
            assert(metadata@ == views[k as int]) by {
                assert(metadata_views(all@)[k as int] == all@[k as int]@);
            }
            if metadata.status == KeyStatus::Active {
                records.push(metadata);
                assert(metadata_views(records@) =~= views.take(k as int).filter(
                    active_record(),
                ).push(views[k as int]));
            }
            k += 1;
        }
        assert(views.take(k as int) =~= views);
        records
    }

    /// The first key in the user's key list that serves the algorithm at
    /// `now`: stored for that algorithm, active and not expired.
    pub fn get_active_key_at(&self, user_id: &str, algorithm: &str, now: u64) -> (result: PQCResult<
        (&PQCKeyPair, &KeyMetadata),
    >)
        requires
            self.wf(),
        ensures
            match result {
                Ok(found) => exists|k: int|
                    self@.first_usable_at(user_id@, algorithm@, now, k) && (KeyRecord {
                        keypair: found.0@,
                        metadata: found.1@,
                    }) == self@.keys[self@.key_index(self@.key_ids_of(user_id@)[k])],
                Err(e) => {
                    &&& self@.none_usable_at(user_id@, algorithm@, now)
                    &&& !self@.has_user(user_id@) ==> e@ == PQCErrorView::KeyNotFound(
                        "No keys for user "@ + user_id@,
                    )
                    &&& self@.has_user(user_id@) ==> e@ == PQCErrorView::KeyNotFound(
                        "No active "@ + algorithm@ + " key found for user "@ + user_id@,
                    )
                },
            },
    {
        let u: usize = match self.find_user(user_id) {
            Some(u) => u,
            None => {
                let mut message: String = "No keys for user ".to_owned();
                message.append(user_id);
                return Err(PQCError::KeyNotFound(message));
            },
        };
        proof {
            self@.lemma_user_index(user_id@, u as int);
        }
        let ghost ids = self@.key_ids_of(user_id@);
        let mut k: usize = 0;
        while k < self.user_keys[u].key_ids.len()
            invariant
                self.wf(),
                u < self.user_keys@.len(),
                ids == self@.user_keys[u as int].key_ids,
                ids == self@.key_ids_of(user_id@),
                ids.len() == self.user_keys@[u as int].key_ids@.len(),
                k <= ids.len(),
                forall|j: int| 0 <= j < k ==> !self@.usable_at(user_id@, algorithm@, now, j),
            decreases ids.len() - k,
        {
            let key_id = &self.user_keys[u].key_ids[k];
            assert(key_id@ == ids[k as int]);
            match self.find_key(key_id.as_str()) {
                Some(i) => {
                    proof {
                        self@.lemma_key_index(key_id@, i as int);
                    }
                    let entry = &self.keys[i];
                    assert(entry@ == self@.keys[i as int]);
                    if str_eq(entry.metadata.algorithm.as_str(), algorithm) && entry.metadata.status
                        == KeyStatus::Active && !entry.metadata.is_expired_at(now) {
                        assert(self@.first_usable_at(user_id@, algorithm@, now, k as int));
                        return Ok((&entry.keypair, &entry.metadata));
                    }
                },
                None => {},
            }
            k += 1;
        }
        let mut message: String = "No active ".to_owned();
        message.append(algorithm);
        message.append(" key found for user ");
        message.append(user_id);
        Err(PQCError::KeyNotFound(message))
    }

    /// The first key in the user's key list that serves the algorithm by
    /// the current clock. What comes back is stored for that user and that
    /// algorithm and is active.
    pub fn get_active_key(&self, user_id: &str, algorithm: &str) -> (result: PQCResult<
        (&PQCKeyPair, &KeyMetadata),
    >)
        requires
            self.wf(),
        ensures
            match result {
                Ok(found) => exists|k: int, now: u64|
                    self@.first_usable_at(user_id@, algorithm@, now, k) && (KeyRecord {
                        keypair: found.0@,
                        metadata: found.1@,
                    }) == self@.keys[self@.key_index(self@.key_ids_of(user_id@)[k])],
                Err(e) => {
                    &&& exists|now: u64| self@.none_usable_at(user_id@, algorithm@, now)
                    &&& !self@.has_user(user_id@) ==> e@ == PQCErrorView::KeyNotFound(
                        "No keys for user "@ + user_id@,
                    )
                    &&& self@.has_user(user_id@) ==> e@ == PQCErrorView::KeyNotFound(
                        "No active "@ + algorithm@ + " key found for user "@ + user_id@,
                    )
                },
            },
    {
        let now: u64 = current_time();
        self.get_active_key_at(user_id, algorithm, now)
    }
}

impl Default for SecureKeyManager {
    fn default() -> (manager: Self)
        ensures
            manager@ == RegistryView::empty(),
            manager.wf(),
    {
        SecureKeyManager::new()
    }
}

/// An empty registry in the default configuration.
pub fn create_default_key_manager() -> (manager: SecureKeyManager)
    ensures
        manager@ == RegistryView::empty(),
        manager.wf(),
{
    SecureKeyManager::new()
}

/// An empty registry that mirrors its keys into a hardware store.
pub fn create_hsm_key_manager(hsm_config: HSMConfig) -> (manager: SecureKeyManager)
    ensures
        manager@ == (RegistryView { hsm_config: hsm_config@, ..RegistryView::empty() }),
        manager.wf(),
{
    SecureKeyManager::new().with_hsm_config(hsm_config)
}

/// The identifiers under which some record in `keys` is stored.
pub open spec fn stored_in(keys: Seq<KeyRecord>) -> spec_fn(Seq<char>) -> bool {
    |id: Seq<char>|
        exists|i: int| 0 <= i < keys.len() && (#[trigger] keys[i]).metadata.key_id == id
}

/// A key list without the identifiers of keys that are not in `keys`.
pub open spec fn pruned(user: UserIndex, keys: Seq<KeyRecord>) -> UserIndex {
    UserIndex { key_ids: user.key_ids.filter(stored_in(keys)), ..user }
}

/// Key lists without the identifiers of keys that are not in `keys`.
pub open spec fn pruned_all(users: Seq<UserIndex>, keys: Seq<KeyRecord>) -> Seq<UserIndex> {
    Seq::new(users.len(), |u: int| pruned(users[u], keys))
}

/// No two records share an identifier.
pub open spec fn distinct_ids(keys: Seq<KeyRecord>) -> bool {
    forall|i: int, j: int|
        0 <= i < j < keys.len() ==> (#[trigger] keys[i]).metadata.key_id != (
        #[trigger] keys[j]).metadata.key_id
}

impl RegistryView {
    /// The registry after a sweep at `now`: the keys that are marked
    /// expired or whose time has passed are gone, from the registry and
    /// from the key lists of their owners.
    pub open spec fn swept(self, now: u64) -> RegistryView {
        RegistryView {
            keys: self.keys.filter(survives(now)),
            user_keys: pruned_all(self.user_keys, self.keys.filter(survives(now))),
            ..self
        }
    }

    /// The number of keys that a sweep at `now` removes.
    pub open spec fn sweep_count(self, now: u64) -> nat {
        (self.keys.len() - self.keys.filter(survives(now)).len()) as nat
    }
}

/// Keeping some records of a list without repeated identifiers leaves a
/// list without repeated identifiers.
pub proof fn lemma_filter_distinct_ids(keys: Seq<KeyRecord>, pred: spec_fn(KeyRecord) -> bool)
    requires
        distinct_ids(keys),
    ensures
        distinct_ids(keys.filter(pred)),
    decreases keys.len(),
{
    reveal(Seq::filter);
    if keys.len() > 0 {
        let rest = keys.drop_last();
        assert forall|i: int, j: int| 0 <= i < j < rest.len() implies (
        #[trigger] rest[i]).metadata.key_id != (#[trigger] rest[j]).metadata.key_id by {
            assert(rest[i] == keys[i] && rest[j] == keys[j]);
        }
        lemma_filter_distinct_ids(rest, pred);
        let kept = rest.filter(pred);
        if pred(keys.last()) {
            assert forall|a: int| 0 <= a < kept.len() implies (#[trigger] kept[a]).metadata.key_id
                != keys.last().metadata.key_id by {
                assert(kept.contains(kept[a]));
                rest.lemma_filter_contains_rev(pred, kept[a]);
                let i = choose|i: int| 0 <= i < rest.len() && rest[i] == kept[a];
                assert(keys[i] == rest[i]);
                assert(keys[i].metadata.key_id != keys[keys.len() - 1].metadata.key_id);
            }
        }
    }
}

/// Keeping some elements of a list without repetition leaves a list
/// without repetition.
pub proof fn lemma_filter_no_duplicates<A>(s: Seq<A>, pred: spec_fn(A) -> bool)
    requires
        s.no_duplicates(),
    ensures
        s.filter(pred).no_duplicates(),
    decreases s.len(),
{
    reveal(Seq::filter);
    if s.len() > 0 {
        let rest = s.drop_last();
        assert forall|i: int, j: int| 0 <= i < rest.len() && 0 <= j < rest.len() && i
            != j implies rest[i] != rest[j] by {
            assert(rest[i] == s[i] && rest[j] == s[j]);
        }
        lemma_filter_no_duplicates(rest, pred);
        let kept = rest.filter(pred);
        if pred(s.last()) {
            assert forall|a: int| 0 <= a < kept.len() implies kept[a] != s.last() by {
                assert(kept.contains(kept[a]));
                rest.lemma_filter_contains_rev(pred, kept[a]);
                let i = choose|i: int| 0 <= i < rest.len() && rest[i] == kept[a];
                assert(s[i] == rest[i]);
                assert(s[i] != s[s.len() - 1]);
            }
        }
    }
}

/// A list whose elements all qualify is kept whole.
pub proof fn lemma_filter_all<A>(s: Seq<A>, pred: spec_fn(A) -> bool)
    requires
        forall|i: int| 0 <= i < s.len() ==> pred(#[trigger] s[i]),
    ensures
        s.filter(pred) == s,
    decreases s.len(),
{
    reveal(Seq::filter);
    if s.len() > 0 {
        let rest = s.drop_last();
        assert forall|i: int| 0 <= i < rest.len() implies pred(#[trigger] rest[i]) by {
            assert(rest[i] == s[i]);
        }
        lemma_filter_all(rest, pred);
        assert(rest.push(s.last()) =~= s);
    }
}

/// A sweep keeps the registry consistent.
pub proof fn lemma_swept_wf(registry: RegistryView, now: u64)
    requires
        registry.wf(),
    ensures
        registry.swept(now).wf(),
{
    let after = registry.swept(now);
    let kept = registry.keys.filter(survives(now));
    assert(distinct_ids(registry.keys));
    lemma_filter_distinct_ids(registry.keys, survives(now));
    assert(after.distinct_keys());
    assert forall|u: int| 0 <= u < after.user_keys.len() implies (
    #[trigger] after.user_keys[u]).key_ids.no_duplicates() by {
        lemma_filter_no_duplicates(registry.user_keys[u].key_ids, stored_in(kept));
    }
    // Every record that is kept was stored.
    assert forall|a: int| 0 <= a < kept.len() implies registry.keys.contains(
        #[trigger] kept[a],
    ) by {
        assert(kept.contains(kept[a]));
        registry.keys.lemma_filter_contains_rev(survives(now), kept[a]);
    }
    assert forall|u: int, k: int|
        0 <= u < after.user_keys.len() && 0 <= k < after.user_keys[u].key_ids.len() implies after.owns(
        after.user_keys[u].user_id,
        #[trigger] after.user_keys[u].key_ids[k],
    ) by {
        let ids = registry.user_keys[u].key_ids;
        let left = after.user_keys[u].key_ids;
        let id = left[k];
        assert(left.contains(id));
        ids.lemma_filter_contains_rev(stored_in(kept), id);
        ids.lemma_filter_pred(stored_in(kept), k);
        let a = choose|a: int| 0 <= a < kept.len() && (#[trigger] kept[a]).metadata.key_id == id;
        let m = choose|m: int| 0 <= m < registry.keys.len() && registry.keys[m] == kept[a];
        let k0 = choose|k0: int| 0 <= k0 < ids.len() && ids[k0] == id;
        assert(registry.owns(registry.user_keys[u].user_id, registry.user_keys[u].key_ids[k0]));
        let m0 = choose|m0: int|
            0 <= m0 < registry.keys.len() && (#[trigger] registry.keys[m0]).metadata.key_id == id
                && registry.keys[m0].metadata.user_id == registry.user_keys[u].user_id;
        registry.lemma_key_index(id, m);
        registry.lemma_key_index(id, m0);
        assert(after.keys[a].metadata.user_id == after.user_keys[u].user_id);
    }
    assert forall|a: int| 0 <= a < after.keys.len() implies after.lists(
        (#[trigger] after.keys[a]).metadata.user_id,
        after.keys[a].metadata.key_id,
    ) by {
        let id = kept[a].metadata.key_id;
        let m = choose|m: int| 0 <= m < registry.keys.len() && registry.keys[m] == kept[a];
        assert(registry.lists(registry.keys[m].metadata.user_id, registry.keys[m].metadata.key_id));
        let u = choose|u: int|
            0 <= u < registry.user_keys.len() && (#[trigger] registry.user_keys[u]).user_id
                == registry.keys[m].metadata.user_id && registry.user_keys[u].key_ids.contains(id);
        let ids = registry.user_keys[u].key_ids;
        let k = choose|k: int| 0 <= k < ids.len() && ids[k] == id;
        assert(stored_in(kept)(ids[k]));
        ids.lemma_filter_contains(stored_in(kept), k);
        assert(after.user_keys[u].key_ids.contains(id));
    }
}

impl SecureKeyManager {
    /// Drops from every key list the identifiers of keys that are no longer
    /// stored.
    fn prune_user_keys(&mut self)
        ensures
            final(self)@ == (RegistryView {
                user_keys: pruned_all(old(self)@.user_keys, old(self)@.keys),
                ..old(self)@
            }),
    {
        let ghost before = self@;
        let mut u: usize = 0;
        while u < self.user_keys.len()
            invariant
                u <= self.user_keys@.len(),
                self@.user_keys.len() == before.user_keys.len(),
                self.user_keys@.len() == before.user_keys.len(),
                self@.keys == before.keys,
                self@.rotation_interval == before.rotation_interval,
                self@.hsm_config == before.hsm_config,
                self@.max_keys_per_user == before.max_keys_per_user,
                forall|v: int| 0 <= v < u ==> #[trigger] self@.user_keys[v] == pruned(
                    before.user_keys[v],
                    before.keys,
                ),
                forall|v: int|
                    u <= v < before.user_keys.len() ==> #[trigger] self@.user_keys[v]
                        == before.user_keys[v],
            decreases self.user_keys@.len() - u,
        {
            let ghost ids = before.user_keys[u as int].key_ids;
            let ghost mut seen: int = 0;
            let mut k: usize = 0;
            proof {
                reveal(Seq::filter);
                assert(ids.take(0) =~= Seq::empty());
                assert(self@.user_keys[u as int].key_ids.take(0) =~= Seq::empty());
                assert(self@.user_keys[u as int].key_ids.skip(0) =~= ids.skip(0));
            }
            while k < self.user_keys[u].key_ids.len()
                invariant
                    u < self.user_keys@.len(),
                    self@.user_keys.len() == before.user_keys.len(),
                    self.user_keys@.len() == before.user_keys.len(),
                    self@.keys == before.keys,
                    self@.rotation_interval == before.rotation_interval,
                    self@.hsm_config == before.hsm_config,
                    self@.max_keys_per_user == before.max_keys_per_user,
                    ids == before.user_keys[u as int].key_ids,
                    forall|v: int| 0 <= v < u ==> #[trigger] self@.user_keys[v] == pruned(
                        before.user_keys[v],
                        before.keys,
                    ),
                    forall|v: int|
                        u < v < before.user_keys.len() ==> #[trigger] self@.user_keys[v]
                            == before.user_keys[v],
                    self@.user_keys[u as int].user_id == before.user_keys[u as int].user_id,
                    self@.user_keys[u as int].key_ids.len() == self.user_keys@[u as int].key_ids@.len(),
                    k <= self@.user_keys[u as int].key_ids.len(),
                    0 <= seen <= ids.len(),
                    self@.user_keys[u as int].key_ids.take(k as int) == ids.take(seen).filter(
                        stored_in(before.keys),
                    ),
                    self@.user_keys[u as int].key_ids.skip(k as int) == ids.skip(seen),
                decreases self@.user_keys[u as int].key_ids.len() - k,
            {
                let ghost current = self@.user_keys[u as int].key_ids;
                proof {
                    assert(current.skip(k as int).len() == ids.skip(seen).len());
                    assert(current.skip(k as int)[0] == ids.skip(seen)[0]);
                    assert(current[k as int] == ids[seen]);
                    lemma_filter_step(ids, stored_in(before.keys), seen);
                }
                let present: bool = self.find_key(self.user_keys[u].key_ids[k].as_str()).is_some();
                assert(present == stored_in(before.keys)(ids[seen]));
                if present {
                    proof {
                        assert(current.take(k + 1) =~= current.take(k as int).push(
                            current[k as int],
                        ));
                        assert(current.skip(k + 1) =~= ids.skip(seen + 1)) by {
                            assert(current.skip(k + 1) =~= current.skip(k as int).skip(1));
                            assert(ids.skip(seen + 1) =~= ids.skip(seen).skip(1));
                        }
                        seen = seen + 1;
                    }
                    k += 1;
                } else {
                    let ghost users = self.user_keys@;
                    let ghost state = self@;
                    self.user_keys[u].key_ids.remove(k);
                    proof {
                        assert forall|v: int|
                            0 <= v < before.user_keys.len() && v != u implies #[trigger] self@.user_keys[v]
                            == state.user_keys[v] by {
                            assert(self.user_keys@[v] == users[v]);
                            assert(self@.user_keys[v] == self.user_keys@[v]@);
                            assert(state.user_keys[v] == users[v]@);
                        }
                        let next = self@.user_keys[u as int].key_ids;
                        assert(next =~= current.remove(k as int));
                        assert(next.take(k as int) =~= current.take(k as int));
                        assert(next.skip(k as int) =~= ids.skip(seen + 1)) by {
                            assert(next.skip(k as int) =~= current.skip(k as int).skip(1));
                            assert(ids.skip(seen + 1) =~= ids.skip(seen).skip(1));
                        }
                        assert forall|v: int| 0 <= v < u implies #[trigger] self@.user_keys[v]
                            == pruned(before.user_keys[v], before.keys) by {
                            assert(state.user_keys[v] == pruned(before.user_keys[v], before.keys));
                        }
                        assert forall|v: int|
                            u < v < before.user_keys.len() implies #[trigger] self@.user_keys[v]
                            == before.user_keys[v] by {
                            assert(state.user_keys[v] == before.user_keys[v]);
                        }
                        seen = seen + 1;
                    }
                }
            }
            proof {
                let left = self@.user_keys[u as int].key_ids;
                assert(left.take(k as int) =~= left);
                assert(left.skip(k as int).len() == 0);
                assert(ids.skip(seen).len() == 0);
                assert(ids.take(seen) =~= ids);
                assert(self@.user_keys[u as int] == pruned(before.user_keys[u as int], before.keys));
            }
            u += 1;
        }
        assert(self@.user_keys =~= pruned_all(before.user_keys, before.keys));
    }

    /// Sweeps the registry at `now`: every key that is marked expired or
    /// whose time has passed is removed together with its place in its
    /// owner's key list, and its material is erased. A hardware store that
    /// holds such a key is asked to forget it; the sweep goes on whatever
    /// the store answers. Returns the number of keys removed.
    pub fn cleanup_expired_keys_at(&mut self, now: u64) -> (result: PQCResult<usize>)
        requires
            old(self).wf(),
        ensures
            final(self).wf(),
            final(self)@ == old(self)@.swept(now),
            result is Ok,
            result.unwrap() == old(self)@.sweep_count(now),
    {
        let ghost before = self@;
        let mut removed: usize = 0;
        let mut i: usize = 0;
        let total: usize = self.keys.len();
        proof {
            assert(before.keys.len() == total);
            reveal(Seq::filter);
            assert(before.keys.take(0) =~= Seq::empty());
            assert(self@.keys.take(0) =~= Seq::empty());
            assert(self@.keys.skip(0) =~= before.keys.skip(0));
        }
        while i < self.keys.len()
            invariant
                self@.keys.len() == self.keys@.len(),
                before.keys.len() <= usize::MAX,
                i <= self@.keys.len(),
                i + removed <= before.keys.len(),
                self@.keys.len() + removed == before.keys.len(),
                self@.keys.take(i as int) == before.keys.take(i + removed).filter(survives(now)),
                self@.keys.skip(i as int) == before.keys.skip(i + removed),
                self@.user_keys == before.user_keys,
                self@.rotation_interval == before.rotation_interval,
                self@.hsm_config == before.hsm_config,
                self@.max_keys_per_user == before.max_keys_per_user,
            decreases self@.keys.len() - i,
        {
            let ghost current = self@.keys;
            proof {
                assert(current.skip(i as int).len() == before.keys.skip(i + removed).len());
                assert(current.skip(i as int)[0] == before.keys.skip(i + removed)[0]);
                assert(current[i as int] == before.keys[i + removed]);
                lemma_filter_step(before.keys, survives(now), i + removed);
            }
            let entry = &self.keys[i];
            assert(entry@ == current[i as int]);
            let due: bool = entry.metadata.status == KeyStatus::Expired || entry.metadata.is_expired_at(
                now,
            );
            if due {
                let mut gone: KeyEntry = self.keys.remove(i);
                match &gone.metadata.hsm_reference {
                    Some(reference) => {
                        let _ = self.remove_key_from_hsm(reference.as_str());
                    },
                    None => {},
                }
                erase_key_material(&mut gone.keypair);
                proof {
                    let next = self@.keys;
                    assert(next =~= current.remove(i as int));
                    assert(next.take(i as int) =~= current.take(i as int));
                    assert(next.skip(i as int) =~= before.keys.skip(i + removed + 1)) by {
                        assert(next.skip(i as int) =~= current.skip(i as int).skip(1));
                        assert(before.keys.skip(i + removed + 1) =~= before.keys.skip(
                            i + removed,
                        ).skip(1));
                    }
                }
                removed += 1;
            } else {
                proof {
                    assert(current.take(i + 1) =~= current.take(i as int).push(current[i as int]));
                    assert(current.skip(i + 1) =~= before.keys.skip(i + removed + 1)) by {
                        assert(current.skip(i + 1) =~= current.skip(i as int).skip(1));
                        assert(before.keys.skip(i + removed + 1) =~= before.keys.skip(
                            i + removed,
                        ).skip(1));
                    }
                }
                i += 1;
            }
        }
        proof {
            assert(self@.keys.take(i as int) =~= self@.keys);
            assert(before.keys.take(i + removed) =~= before.keys);
            assert(self@.keys == before.keys.filter(survives(now)));
        }
        self.prune_user_keys();
        proof {
            lemma_swept_wf(before, now);
        }
        Ok(removed)
    }

    /// Sweeps the registry by the current clock and returns the number of
    /// keys removed. Keys that are marked expired go whatever the clock reads.
    pub fn cleanup_expired_keys(&mut self) -> (result: PQCResult<usize>)
        requires
            old(self).wf(),
        ensures
            final(self).wf(),
            result is Ok,
            exists|now: u64|
                final(self)@ == #[trigger] old(self)@.swept(now) && result.unwrap() == old(
                    self,
                )@.sweep_count(now),
    {
        let now: u64 = current_time();
        self.cleanup_expired_keys_at(now)
    }
}

/// The characters of each text in a list.
pub open spec fn texts(list: Seq<String>) -> Seq<Seq<char>> {
    list.map_values(|t: String| t@)
}

/// The identifiers of the records in a list.
pub open spec fn ids_of(records: Seq<KeyRecord>) -> Seq<Seq<char>> {
    records.map_values(|r: KeyRecord| r.metadata.key_id)
}

/// A pair of identifiers as plain values.
pub open spec fn pair_view(pair: (String, String)) -> (Seq<char>, Seq<char>) {
    (pair.0@, pair.1@)
}

/// Whether a record is what an automatic rotation can have made of
/// another: the key material is the same, and the lifecycle record is the
/// same but for an active key that may have been set aside as rotating.
pub open spec fn carried_over(before: KeyRecord, after: KeyRecord) -> bool {
    &&& after.keypair == before.keypair
    &&& after.metadata == before.metadata || (before.metadata.status == KeyStatus::Active
        && after.metadata == before.metadata.with_status(KeyStatus::Rotating))
}

impl RegistryView {
    /// Whether this registry is what rotations can have made of `before`:
    /// every key of `before` is carried over in its place, new keys follow,
    /// and the configuration is the same.
    pub open spec fn grown_from(self, before: RegistryView) -> bool {
        &&& self.keys.len() >= before.keys.len()
        &&& forall|i: int|
            0 <= i < before.keys.len() ==> carried_over(before.keys[i], #[trigger] self.keys[i])
        &&& self.rotation_interval == before.rotation_interval
        &&& self.hsm_config == before.hsm_config
        &&& self.max_keys_per_user == before.max_keys_per_user
    }

    /// Whether `pair` names a key of this registry that was due for
    /// rotation at `now` and its successor in `after`: the old key is set
    /// aside as rotating in `after`, and the successor is new in `after`.
    pub open spec fn rotation_recorded(self, after: RegistryView, pair: (Seq<char>, Seq<char>), now: u64) -> bool {
        &&& self.has_key(pair.0)
        &&& due_for_rotation(self.rotation_interval, now)(self.keys[self.key_index(pair.0)])
        &&& self.key_index(pair.0) < after.keys.len()
        &&& after.keys[self.key_index(pair.0)].metadata == self.keys[self.key_index(
            pair.0,
        )].metadata.with_status(KeyStatus::Rotating)
        &&& !self.has_key(pair.1)
        &&& after.has_key(pair.1)
    }
}

impl RegistryView {
    /// Whether every pair in a list is recorded as a rotation at `now`.
    pub open spec fn rotations_recorded(self, after: RegistryView, pairs: Seq<(String, String)>, now: u64) -> bool {
        forall|p: int|
            0 <= p < pairs.len() ==> #[trigger] self.rotation_recorded(
                after,
                pair_view(pairs[p]),
                now,
            )
    }
}

impl SecureKeyManager {
    /// The identifiers of the keys that are due for rotation at `now`, in
    /// the order the keys were stored: the active keys that are older than
    /// the rotation interval.
    pub fn keys_due_for_rotation_at(&self, now: u64) -> (due: Vec<String>)
        ensures
            texts(due@) == ids_of(
                self@.keys.filter(due_for_rotation(self@.rotation_interval, now)),
            ),
    {
        let mut due: Vec<String> = Vec::new();
        let ghost keys = self@.keys;
        let interval: u64 = self.rotation_interval;
        let mut i: usize = 0;
        proof {
            reveal(Seq::filter);
            assert(keys.take(0) =~= Seq::empty());
            assert(texts(due@) =~= ids_of(keys.take(0).filter(due_for_rotation(interval, now))));
        }
        while i < self.keys.len()
            invariant
                i <= self.keys@.len(),
                keys == self@.keys,
                keys.len() == self.keys@.len(),
                interval == self@.rotation_interval,
                texts(due@) == ids_of(keys.take(i as int).filter(due_for_rotation(interval, now))),
            decreases self.keys@.len() - i,
        {
            proof {
                lemma_filter_step(keys, due_for_rotation(interval, now), i as int);
            }
            let metadata = &self.keys[i].metadata;
            assert(metadata@ == keys[i as int].metadata);
            if metadata.status == KeyStatus::Active && metadata.should_rotate_at(interval, now) {
                let ghost earlier = due@;
                due.push(metadata.key_id.clone());
                proof {
                    let picked = keys.take(i as int).filter(due_for_rotation(interval, now));
                    assert(texts(due@) =~= texts(earlier).push(keys[i as int].metadata.key_id));
                    assert(ids_of(picked.push(keys[i as int])) =~= ids_of(picked).push(
                        keys[i as int].metadata.key_id,
                    ));
                }
            }
            i += 1;
        }
        assert(keys.take(i as int) =~= keys);
        due
    }

    /// Rotates every key that is due for rotation by the current clock and
    /// returns the pairs of old and new identifiers.
    ///
    /// The keys that are due are picked first; each is then rotated like by
    /// [`SecureKeyManager::rotate_key`]. A rotation that fails is passed
    /// over and the others go on. Every pair returned names a key that was
    /// due and is now set aside as rotating, and its successor; all other
    /// keys are carried over as they were.
    pub fn auto_rotate_keys(&mut self) -> (result: PQCResult<Vec<(String, String)>>)
        requires
            old(self).wf(),
        ensures
            final(self).wf(),
            final(self)@.grown_from(old(self)@),
            final(self)@.user_keys.len() >= old(self)@.user_keys.len(),
            result is Ok,
            final(self)@.keys.len() == old(self)@.keys.len() + result.unwrap()@.len(),
            exists|now: u64|
                old(self)@.rotations_recorded(final(self)@, result.unwrap()@, now),
    {
        let ghost before = self@;
        let now: u64 = current_time();
        let candidates: Vec<String> = self.keys_due_for_rotation_at(now);
        let ghost picked = before.keys.filter(due_for_rotation(before.rotation_interval, now));
        let mut rotated: Vec<(String, String)> = Vec::new();
        let mut c: usize = 0;
        while c < candidates.len()
            invariant
                self.wf(),
                before.wf(),
                self@.grown_from(before),
                self@.user_keys.len() >= before.user_keys.len(),
                self@.keys.len() == before.keys.len() + rotated@.len(),
                picked == before.keys.filter(due_for_rotation(before.rotation_interval, now)),
                texts(candidates@) == ids_of(picked),
                c <= candidates@.len(),
                forall|p: int|
                    0 <= p < rotated@.len() ==> #[trigger] before.rotation_recorded(
                        self@,
                        pair_view(rotated@[p]),
                        now,
                    ),
            decreases candidates@.len() - c,
        {
            let ghost mid = self@;
            let ghost old_id = candidates@[c as int]@;
            proof {
                assert(texts(candidates@).len() == candidates@.len());
                assert(ids_of(picked).len() == picked.len());
                assert(texts(candidates@)[c as int] == old_id);
                assert(ids_of(picked)[c as int] == picked[c as int].metadata.key_id);
            }
            match self.rotate_key(candidates[c].as_str()) {
                Ok(new_key_id) => {
                    let ghost new_id = new_key_id@;
                    let ghost earlier = rotated@;
                    let old_key_id: String = candidates[c].clone();
                    rotated.push((old_key_id, new_key_id));
                    proof {
                        lemma_rotation_recorded(before, mid, self@, picked, c as int, new_id, now);
                        assert forall|p: int| 0 <= p < rotated@.len() implies #[trigger] before.rotation_recorded(
                            self@,
                            pair_view(rotated@[p]),
                            now,
                        ) by {
                            if p < earlier.len() {
                                assert(rotated@[p] == earlier[p]);
                                assert(before.rotation_recorded(mid, pair_view(earlier[p]), now));
                                lemma_rotation_stays_recorded(
                                    before,
                                    mid,
                                    self@,
                                    old_id,
                                    new_id,
                                    pair_view(earlier[p]),
                                    now,
                                );
                            } else {
                                assert(pair_view(rotated@[p]) == (old_id, new_id));
                            }
                        }
                    }
                },
                Err(_) => {},
            }
            c += 1;
        }
        assert(before.rotations_recorded(self@, rotated@, now));
        let result: PQCResult<Vec<(String, String)>> = Ok(rotated);
        assert(before.rotations_recorded(self@, result.unwrap()@, now));
        result
    }
}

/// A rotation of a key that was picked as due records the pair of the old
/// key and its successor, and carries over every other key.
pub proof fn lemma_rotation_recorded(
    before: RegistryView,
    mid: RegistryView,
    after: RegistryView,
    picked: Seq<KeyRecord>,
    c: int,
    new_id: Seq<char>,
    now: u64,
)
    requires
        before.wf(),
        mid.wf(),
        mid.grown_from(before),
        picked == before.keys.filter(due_for_rotation(before.rotation_interval, now)),
        0 <= c < picked.len(),
        mid.can_rotate(picked[c].metadata.key_id, new_id),
        after.keys.len() == mid.keys.len() + 1,
        exists|keypair: KeyPairView, at: u64|
            after == mid.rotated(picked[c].metadata.key_id, new_id, keypair, at),
    ensures
        after.grown_from(before),
        after.user_keys.len() >= mid.user_keys.len(),
        before.rotation_recorded(after, (picked[c].metadata.key_id, new_id), now),
{
    let old_id = picked[c].metadata.key_id;
    let due = due_for_rotation(before.rotation_interval, now);
    assert(picked.contains(picked[c]));
    before.keys.lemma_filter_contains_rev(due, picked[c]);
    before.keys.lemma_filter_pred(due, c);
    let j = choose|j: int| 0 <= j < before.keys.len() && before.keys[j] == picked[c];
    before.lemma_key_index(old_id, j);
    assert(carried_over(before.keys[j], mid.keys[j]));
    mid.lemma_key_index(old_id, j);
    let (keypair, at) = choose|keypair: KeyPairView, at: u64|
        after == mid.rotated(old_id, new_id, keypair, at);
    let retired = mid.with_status(j, KeyStatus::Rotating);
    let successor = mid.successor(j, new_id, keypair, at);
    assert(after.keys == retired.keys.push(successor));
    assert forall|i: int| 0 <= i < before.keys.len() implies carried_over(
        before.keys[i],
        #[trigger] after.keys[i],
    ) by {
        assert(carried_over(before.keys[i], mid.keys[i]));
        assert(after.keys[i] == retired.keys[i]);
    }
    assert(after.keys[j].metadata == before.keys[j].metadata.with_status(KeyStatus::Rotating));
    if before.has_key(new_id) {
        let x = before.key_index(new_id);
        assert(carried_over(before.keys[x], mid.keys[x]));
        assert(mid.keys[x].metadata.key_id == new_id);
    }
    assert(after.keys[mid.keys.len() as int].metadata.key_id == new_id);
    // The owner's key list exists or is added; no key list goes away.
    assert(after.user_keys == index_with(
        mid.user_keys,
        successor.metadata.user_id,
        successor.metadata.key_id,
    ));
}

/// A pair that was recorded stays recorded when another key is rotated.
pub proof fn lemma_rotation_stays_recorded(
    before: RegistryView,
    mid: RegistryView,
    after: RegistryView,
    old_id: Seq<char>,
    new_id: Seq<char>,
    pair: (Seq<char>, Seq<char>),
    now: u64,
)
    requires
        before.wf(),
        mid.wf(),
        mid.grown_from(before),
        mid.can_rotate(old_id, new_id),
        exists|keypair: KeyPairView, at: u64| after == mid.rotated(old_id, new_id, keypair, at),
        before.rotation_recorded(mid, pair, now),
    ensures
        before.rotation_recorded(after, pair, now),
{
    let (keypair, at) = choose|keypair: KeyPairView, at: u64|
        after == mid.rotated(old_id, new_id, keypair, at);
    let j = mid.key_index(old_id);
    let retired = mid.with_status(j, KeyStatus::Rotating);
    let successor = mid.successor(j, new_id, keypair, at);
    assert(after.keys == retired.keys.push(successor));
    let b = before.key_index(pair.0);
    assert(mid.keys[b].metadata.status == KeyStatus::Rotating);
    assert(b != j);
    assert(after.keys[b] == mid.keys[b]);
    let y = mid.key_index(pair.1);
    assert(after.keys[y].metadata.key_id == pair.1);
}

/// Rotating a key never touches the key itself: the successor has another
/// identifier, the old key keeps its place and its material and changes
/// only its status, every other key stays as it is, and the successor is
/// stored last as an active key of the same owner and algorithm that has
/// been rotated once more than the old key.
pub proof fn lemma_rotation_keeps_old_key(
    registry: RegistryView,
    key_id: Seq<char>,
    new_key_id: Seq<char>,
    keypair: KeyPairView,
    now: u64,
)
    requires
        registry.wf(),
        registry.can_rotate(key_id, new_key_id),
    ensures
        new_key_id != key_id,
        registry.rotated(key_id, new_key_id, keypair, now).keys.len() == registry.keys.len() + 1,
        registry.rotated(key_id, new_key_id, keypair, now).keys[registry.key_index(key_id)].keypair
            == registry.keys[registry.key_index(key_id)].keypair,
        registry.rotated(key_id, new_key_id, keypair, now).keys[registry.key_index(key_id)].metadata
            == registry.keys[registry.key_index(key_id)].metadata.with_status(KeyStatus::Rotating),
        forall|j: int|
            0 <= j < registry.keys.len() && j != registry.key_index(key_id) ==> #[trigger] registry.rotated(
                key_id,
                new_key_id,
                keypair,
                now,
            ).keys[j] == registry.keys[j],
        registry.rotated(key_id, new_key_id, keypair, now).keys.last() == registry.successor(
            registry.key_index(key_id),
            new_key_id,
            keypair,
            now,
        ),
        registry.successor(registry.key_index(key_id), new_key_id, keypair, now).metadata.status
            == KeyStatus::Active,
        registry.successor(
            registry.key_index(key_id),
            new_key_id,
            keypair,
            now,
        ).metadata.rotation_count == registry.keys[registry.key_index(
            key_id,
        )].metadata.rotation_count + 1,
{
    let i = registry.key_index(key_id);
    assert(registry.keys[i].metadata.key_id == key_id);
    let after = registry.rotated(key_id, new_key_id, keypair, now);
    let retired = registry.with_status(i, KeyStatus::Rotating);
    assert(after.keys == retired.keys.push(registry.successor(i, new_key_id, keypair, now)));
}

/// Sweeping twice removes nothing the second time: where no key that the
/// first sweep left has become due since, the second sweep counts zero and
/// leaves the registry as the first sweep left it.
pub proof fn lemma_second_sweep_removes_nothing(registry: RegistryView, now: u64, later: u64)
    requires
        registry.wf(),
        forall|i: int|
            0 <= i < registry.swept(now).keys.len() && (#[trigger] registry.swept(
                now,
            ).keys[i]).metadata.due_for_cleanup(later) ==> registry.swept(
                now,
            ).keys[i].metadata.due_for_cleanup(now),
    ensures
        registry.swept(now).sweep_count(later) == 0,
        registry.swept(now).swept(later) == registry.swept(now),
{
    let first = registry.swept(now);
    let kept = registry.keys.filter(survives(now));
    assert forall|i: int| 0 <= i < kept.len() implies survives(later)(#[trigger] kept[i]) by {
        registry.keys.lemma_filter_pred(survives(now), i);
        assert(first.keys[i] == kept[i]);
    }
    lemma_filter_all(kept, survives(later));
    assert(first.keys.filter(survives(later)) == kept);
    assert forall|u: int| 0 <= u < first.user_keys.len() implies pruned(
        #[trigger] first.user_keys[u],
        kept,
    ) == first.user_keys[u] by {
        let ids = registry.user_keys[u].key_ids;
        let left = ids.filter(stored_in(kept));
        assert(first.user_keys[u].key_ids == left);
        assert forall|k: int| 0 <= k < left.len() implies stored_in(kept)(#[trigger] left[k]) by {
            ids.lemma_filter_pred(stored_in(kept), k);
        }
        lemma_filter_all(left, stored_in(kept));
    }
    assert(pruned_all(first.user_keys, kept) =~= first.user_keys);
}

/// Each key stored for a user uses up one place of the user's allowance:
/// the number of live keys of the owner grows by one, that of every other
/// user stays.
pub proof fn lemma_new_key_counts(
    registry: RegistryView,
    user_id: Seq<char>,
    algorithm: Seq<char>,
    key_id: Seq<char>,
    keypair: KeyPairView,
    now: u64,
    other: Seq<char>,
)
    ensures
        registry.with_key(
            registry.new_record(user_id, algorithm, key_id, keypair, now),
        ).live_count(other) == registry.live_count(other) + if other == user_id {
            1nat
        } else {
            0nat
        },
{
    reveal(Seq::filter);
    let record = registry.new_record(user_id, algorithm, key_id, keypair, now);
    let after = registry.with_key(record);
    assert(after.keys.drop_last() =~= registry.keys);
    assert(after.keys.last() == record);
}

/// A user who holds the allowed number of live keys gets no further key:
/// storing is refused with the capacity error whatever the algorithm and
/// the identifier are.
pub proof fn lemma_allowance_is_enforced(
    registry: RegistryView,
    user_id: Seq<char>,
    algorithm: Seq<char>,
    key_id: Seq<char>,
)
    requires
        registry.live_count(user_id) >= registry.max_keys_per_user,
    ensures
        registry.generation_refusal(user_id, algorithm) == Some(
            PQCErrorView::KeyGenerationFailed("Maximum keys per user exceeded"@),
        ),
        registry.store_refusal(user_id, algorithm, key_id) == Some(
            PQCErrorView::KeyGenerationFailed("Maximum keys per user exceeded"@),
        ),
{
}

/// A sweep removes the keys that are due and no others: every key it
/// leaves was stored before and is not due, and every stored key that is
/// not due is left.
pub proof fn lemma_sweep_removes_only_due(registry: RegistryView, now: u64)
    ensures
        forall|j: int|
            0 <= j < registry.swept(now).keys.len() ==> !(#[trigger] registry.swept(
                now,
            ).keys[j]).metadata.due_for_cleanup(now) && registry.keys.contains(
                registry.swept(now).keys[j],
            ),
        forall|i: int|
            0 <= i < registry.keys.len() && !(#[trigger] registry.keys[i]).metadata.due_for_cleanup(now)
                ==> registry.swept(now).keys.contains(registry.keys[i]),
{
    let kept = registry.keys.filter(survives(now));
    assert forall|j: int| 0 <= j < kept.len() implies !(#[trigger] kept[j]).metadata.due_for_cleanup(
        now,
    ) && registry.keys.contains(kept[j]) by {
        registry.keys.lemma_filter_pred(survives(now), j);
        assert(kept.contains(kept[j]));
        registry.keys.lemma_filter_contains_rev(survives(now), kept[j]);
    }
    assert forall|i: int|
        0 <= i < registry.keys.len() && !(#[trigger] registry.keys[i]).metadata.due_for_cleanup(
            now,
        ) implies kept.contains(registry.keys[i]) by {
        registry.keys.lemma_filter_contains(survives(now), i);
    }
}

/// The key that serves a user is never a revoked or an expired one: it is
/// active, its time has not passed, it serves the algorithm asked for, and
/// it belongs to the user.
pub proof fn lemma_served_key_is_live(
    registry: RegistryView,
    user_id: Seq<char>,
    algorithm: Seq<char>,
    now: u64,
    k: int,
)
    requires
        registry.wf(),
        registry.usable_at(user_id, algorithm, now, k),
    ensures
        registry.keys[registry.key_index(registry.key_ids_of(user_id)[k])].metadata.status
            == KeyStatus::Active,
        !registry.keys[registry.key_index(registry.key_ids_of(user_id)[k])].metadata.due_for_cleanup(
            now,
        ),
        registry.keys[registry.key_index(registry.key_ids_of(user_id)[k])].metadata.algorithm
            == algorithm,
        registry.keys[registry.key_index(registry.key_ids_of(user_id)[k])].metadata.user_id == user_id,
{
    let u = registry.user_index(user_id);
    let id = registry.key_ids_of(user_id)[k];
    assert(registry.has_user(user_id));
    assert(registry.user_keys[u].key_ids[k] == id);
    assert(registry.owns(registry.user_keys[u].user_id, registry.user_keys[u].key_ids[k]));
    let i = choose|i: int|
        0 <= i < registry.keys.len() && (#[trigger] registry.keys[i]).metadata.key_id == id
            && registry.keys[i].metadata.user_id == user_id;
    registry.lemma_key_index(id, i);
}

} // verus!
