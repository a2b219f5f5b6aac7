//! An engine for Kyber-768 (ML-KEM-768) key encapsulation that checks the
//! sizes of what it is handed before the provider sees it, keeps a record
//! of its work and refuses to generate keys beyond a limit of operations.

use crate::count_up;
use crate::counted;
use crate::fails_with;
use crate::is_mlkem_encapsulation;
use crate::is_mlkem_keypair;
use crate::provider::mlkem768_decapsulate;
use crate::provider::mlkem768_decapsulated;
use crate::provider::mlkem768_encapsulate;
use crate::provider::mlkem768_keypair;
use crate::provider::secret_bytes;
use crate::provider::secret_expose;
use crate::provider::stopwatch_nanos;
use crate::provider::stopwatch_start;
use crate::provider::str_eq;
use crate::provider::unix_time_secs;
use crate::provider::SecretBytes;
use crate::provider::MLKEM768_CIPHERTEXT_BYTES;
use crate::provider::MLKEM768_PUBLIC_KEY_BYTES;
use crate::provider::MLKEM768_SECRET_KEY_BYTES;
use crate::provider::MLKEM768_SHARED_SECRET_BYTES;
use crate::text::decimal;
use crate::text::decimal_string;
use crate::KeyPairView;
use crate::PQCEncryptionResult;
use crate::PQCError;
use crate::PQCErrorView;
use crate::PQCKeyPair;
use crate::PQCResult;
use crate::SECURITY_LEVEL;
use vstd::prelude::*;

verus! {

/// The largest number of key pairs that one batch may ask for.
pub const MAX_BATCH_SIZE: usize = 1000;

/// How the engine is to behave.
#[derive(Debug, Clone, Copy)]
pub struct KyberConfig {
    pub enable_timing_resistance: bool,
    pub enable_memory_protection: bool,
    pub enable_metrics_collection: bool,
    pub max_operations_per_second: Option<u64>,
}

impl KyberConfig {
    /// Every protection switched on and a limit of a thousand operations.
    pub open spec fn standard() -> KyberConfig {
        KyberConfig {
            enable_timing_resistance: true,
            enable_memory_protection: true,
            enable_metrics_collection: true,
            max_operations_per_second: Some(1000u64),
        }
    }
}

impl Default for KyberConfig {
    fn default() -> (config: Self)
        ensures
            config == KyberConfig::standard(),
    {
        KyberConfig {
            enable_timing_resistance: true,
            enable_memory_protection: true,
            enable_metrics_collection: true,
            max_operations_per_second: Some(1000),
        }
    }
}

/// The record of an engine's work: how long the last operation of each
/// kind took, the sizes of the scheme, and how many operations there were.
#[derive(Debug, Clone, Copy, PartialEq, Eq)]
pub struct KyberMetrics {
    pub key_generation_time_ns: u64,
    pub encapsulation_time_ns: u64,
    pub decapsulation_time_ns: u64,
    pub public_key_size: usize,
    pub private_key_size: usize,
    pub ciphertext_size: usize,
    pub shared_secret_size: usize,
    pub operations_count: u64,
}

impl KyberMetrics {
    /// The record of an engine that has done nothing.
    pub open spec fn blank() -> KyberMetrics {
        KyberMetrics {
            key_generation_time_ns: 0,
            encapsulation_time_ns: 0,
            decapsulation_time_ns: 0,
            public_key_size: MLKEM768_PUBLIC_KEY_BYTES,
            private_key_size: MLKEM768_SECRET_KEY_BYTES,
            ciphertext_size: MLKEM768_CIPHERTEXT_BYTES,
            shared_secret_size: MLKEM768_SHARED_SECRET_BYTES,
            operations_count: 0,
        }
    }

    /// Whether this record is `before` with one more operation counted and
    /// at most the three times changed.
    pub open spec fn follows(self, before: KyberMetrics) -> bool {
        self == (KyberMetrics {
            key_generation_time_ns: self.key_generation_time_ns,
            encapsulation_time_ns: self.encapsulation_time_ns,
            decapsulation_time_ns: self.decapsulation_time_ns,
            operations_count: counted(before.operations_count),
            ..before
        })
    }

    fn fresh() -> (metrics: Self)
        ensures
            metrics == KyberMetrics::blank(),
    {
        KyberMetrics {
            key_generation_time_ns: 0,
            encapsulation_time_ns: 0,
            decapsulation_time_ns: 0,
            public_key_size: MLKEM768_PUBLIC_KEY_BYTES,
            private_key_size: MLKEM768_SECRET_KEY_BYTES,
            ciphertext_size: MLKEM768_CIPHERTEXT_BYTES,
            shared_secret_size: MLKEM768_SHARED_SECRET_BYTES,
            operations_count: 0,
        }
    }
}

/// Generates, encapsulates and decapsulates, and keeps a record of it.
#[derive(Debug)]
pub struct KyberEngine {
    config: KyberConfig,
    metrics: KyberMetrics,
    lifetime_operations: u64,
}

/// What is said of a key, a ciphertext or the like of `len` bytes where
/// `expected` bytes were called for.
pub open spec fn size_text(expected: Seq<char>, len: nat) -> Seq<char> {
    "Expected "@ + expected + " bytes, got "@ + decimal(len)
}

fn size_message(expected: &str, len: usize) -> (text: String)
    ensures
        text@ == size_text(expected@, len as nat),
{
    let size: String = decimal_string(len as u64);
    let mut text: String = "Expected ".to_owned();
    text.append(expected);
    text.append(" bytes, got ");
    text.append(size.as_str());
    text
}

/// What the engine answers to a request for decapsulation: a private key
/// of the wrong size is refused, then a ciphertext of the wrong size, and
/// everything else is put to the scheme.
pub open spec fn decapsulate_spec(private_key: Seq<u8>, ciphertext: Seq<u8>) -> Result<Seq<u8>, PQCErrorView> {
    if private_key.len() != MLKEM768_SECRET_KEY_BYTES {
        Err(PQCErrorView::InvalidPrivateKey(size_text("2400"@, private_key.len())))
    } else if ciphertext.len() != MLKEM768_CIPHERTEXT_BYTES {
        Err(PQCErrorView::InvalidCiphertext(size_text("1088"@, ciphertext.len())))
    } else {
        Ok(mlkem768_decapsulated(private_key, ciphertext))
    }
}

/// What is wrong with a key pair that claims to be a Kyber-768 pair, if
/// anything: the name of its scheme, then the size of its public key, then
/// that of its private key, then its security level.
pub open spec fn keypair_fault(pair: KeyPairView) -> Option<PQCErrorView> {
    if pair.algorithm != "ML-KEM-768"@ {
        Some(PQCErrorView::SecurityValidationFailed("Expected ML-KEM-768, got "@ + pair.algorithm))
    } else if pair.public_key.len() != MLKEM768_PUBLIC_KEY_BYTES {
        Some(PQCErrorView::SecurityValidationFailed("Invalid public key size"@))
    } else if pair.private_key.len() != MLKEM768_SECRET_KEY_BYTES {
        Some(PQCErrorView::SecurityValidationFailed("Invalid private key size"@))
    } else if pair.security_level != SECURITY_LEVEL {
        Some(PQCErrorView::SecurityValidationFailed("Invalid security level"@))
    } else {
        None
    }
}

impl KyberEngine {
    /// How the engine was configured.
    pub closed spec fn config(&self) -> KyberConfig {
        self.config
    }

    /// The record of the engine's work.
    pub closed spec fn metrics(&self) -> KyberMetrics {
        self.metrics
    }

    /// The number of operations since the engine was made. Resetting the
    /// record does not reset it.
    pub closed spec fn lifetime(&self) -> u64 {
        self.lifetime_operations
    }

    /// Whether the engine has carried out more operations than its limit
    /// allows and so generates no more keys.
    pub open spec fn exhausted(&self) -> bool {
        self.config().max_operations_per_second matches Some(limit) && self.lifetime() > limit
    }

    /// Whether the engine is `before` after one more operation.
    pub open spec fn advanced_from(&self, before: &KyberEngine) -> bool {
        &&& self.config() == before.config()
        &&& self.metrics().follows(before.metrics())
        &&& self.lifetime() == counted(before.lifetime())
    }

    /// Whether the engine is as `before` was.
    pub open spec fn same_as(&self, before: &KyberEngine) -> bool {
        &&& self.config() == before.config()
        &&& self.metrics() == before.metrics()
        &&& self.lifetime() == before.lifetime()
    }

    /// An engine that has done nothing yet.
    pub fn new(config: KyberConfig) -> (engine: Self)
        ensures
            engine.config() == config,
            engine.metrics() == KyberMetrics::blank(),
            engine.lifetime() == 0,
    {
        KyberEngine { config, metrics: KyberMetrics::fresh(), lifetime_operations: 0 }
    }

    /// Generates a key pair stamped with `now`, the reading of the clock.
    ///
    /// An exhausted engine refuses and stays as it was. Otherwise a pair is
    /// generated and counted, and only then is the clock looked at: with a
    /// clock that could not be read the pair is dropped.
    pub fn generate_keypair_at(&mut self, now: Option<u64>) -> (result: PQCResult<PQCKeyPair>)
        ensures
            old(self).exhausted() ==> final(self).same_as(old(self)) && fails_with(
                result,
                PQCErrorView::SecurityValidationFailed("Rate limit exceeded"@),
            ),
            !old(self).exhausted() ==> final(self).advanced_from(old(self)),
            !old(self).exhausted() && now is None ==> fails_with(
                result,
                PQCErrorView::KeyGenerationFailed("System time error"@),
            ),
            !old(self).exhausted() && now is Some ==> result is Ok && is_mlkem_keypair(result.unwrap()@)
                && result.unwrap()@.created_at == now.unwrap(),
    {
        let start = stopwatch_start();
        if let Some(limit) = self.config.max_operations_per_second {
            if self.lifetime_operations > limit {
                return Err(PQCError::SecurityValidationFailed("Rate limit exceeded".to_owned()));
            }
        }
        let (public_key, private_key) = mlkem768_keypair();
        self.metrics.key_generation_time_ns = stopwatch_nanos(&start);
        self.metrics.operations_count = count_up(self.metrics.operations_count);
        self.lifetime_operations = count_up(self.lifetime_operations);
        match now {
            None => Err(PQCError::KeyGenerationFailed("System time error".to_owned())),
            Some(time) => Ok(
                PQCKeyPair {
                    public_key,
                    private_key,
                    algorithm: "ML-KEM-768".to_owned(),
                    key_size: MLKEM768_PUBLIC_KEY_BYTES + MLKEM768_SECRET_KEY_BYTES,
                    security_level: SECURITY_LEVEL,
                    created_at: time,
                },
            ),
        }
    }

    /// Generates a key pair stamped with the current time.
    ///
    /// An exhausted engine refuses and stays as it was. Otherwise the call
    /// is counted and fails only where the clock cannot be read.
    pub fn generate_keypair(&mut self) -> (result: PQCResult<PQCKeyPair>)
        ensures
            old(self).exhausted() ==> final(self).same_as(old(self)) && fails_with(
                result,
                PQCErrorView::SecurityValidationFailed("Rate limit exceeded"@),
            ),
            !old(self).exhausted() ==> final(self).advanced_from(old(self)) && match result {
                Ok(pair) => is_mlkem_keypair(pair@),
                Err(e) => e@ == PQCErrorView::KeyGenerationFailed("System time error"@),
            },
    {
        self.generate_keypair_at(unix_time_secs())
    }

    /// Encapsulates a fresh shared secret to a public key and stamps the
    /// result with `now`, the reading of the clock.
    ///
    /// A public key of the wrong size is refused and not counted. Otherwise
    /// the secret is encapsulated and counted, and only then is the clock
    /// looked at: with a clock that could not be read the result is dropped.
    pub fn encapsulate_at(&mut self, public_key: &[u8], now: Option<u64>) -> (result: PQCResult<
        PQCEncryptionResult,
    >)
        ensures
            public_key@.len() != MLKEM768_PUBLIC_KEY_BYTES ==> final(self).same_as(old(self)) && fails_with(
                result,
                PQCErrorView::InvalidPublicKey(size_text("1184"@, public_key@.len())),
            ),
            public_key@.len() == MLKEM768_PUBLIC_KEY_BYTES ==> final(self).advanced_from(old(self)),
            public_key@.len() == MLKEM768_PUBLIC_KEY_BYTES && now is None ==> fails_with(
                result,
                PQCErrorView::EncapsulationFailed("System time error"@),
            ),
            public_key@.len() == MLKEM768_PUBLIC_KEY_BYTES && now is Some ==> result is Ok
                && is_mlkem_encapsulation(result.unwrap()@) && result.unwrap()@.created_at == now.unwrap(),
    {
        let start = stopwatch_start();
        if public_key.len() != MLKEM768_PUBLIC_KEY_BYTES {
            return Err(PQCError::InvalidPublicKey(size_message("1184", public_key.len())));
        }
        let (shared_secret, ciphertext) = mlkem768_encapsulate(public_key);
        self.metrics.encapsulation_time_ns = stopwatch_nanos(&start);
        self.metrics.operations_count = count_up(self.metrics.operations_count);
        self.lifetime_operations = count_up(self.lifetime_operations);
        match now {
            None => Err(PQCError::EncapsulationFailed("System time error".to_owned())),
            Some(time) => Ok(
                PQCEncryptionResult {
                    ciphertext,
                    shared_secret,
                    algorithm: "ML-KEM-768".to_owned(),
                    ciphertext_size: MLKEM768_CIPHERTEXT_BYTES,
                    created_at: time,
                },
            ),
        }
    }

    /// Encapsulates a fresh shared secret to a public key.
    ///
    /// A public key of the wrong size is refused and not counted. With a
    /// key of the right size the call is counted and fails only where the
    /// clock cannot be read.
    pub fn encapsulate(&mut self, public_key: &[u8]) -> (result: PQCResult<PQCEncryptionResult>)
        ensures
            public_key@.len() != MLKEM768_PUBLIC_KEY_BYTES ==> final(self).same_as(old(self)) && fails_with(
                result,
                PQCErrorView::InvalidPublicKey(size_text("1184"@, public_key@.len())),
            ),
            public_key@.len() == MLKEM768_PUBLIC_KEY_BYTES ==> final(self).advanced_from(old(self))
                && match result {
                Ok(r) => is_mlkem_encapsulation(r@),
                Err(e) => e@ == PQCErrorView::EncapsulationFailed("System time error"@),
            },
    {
        self.encapsulate_at(public_key, unix_time_secs())
    }

    /// Recovers the shared secret of a ciphertext.
    ///
    /// A private key or a ciphertext of the wrong size is refused and not
    /// counted. Every other input is decapsulated and counted.
    pub fn decapsulate(&mut self, private_key: &[u8], ciphertext: &[u8]) -> (result: PQCResult<SecretBytes>)
        ensures
            match result {
                Ok(shared) => decapsulate_spec(private_key@, ciphertext@) == Ok::<Seq<u8>, PQCErrorView>(
                    secret_bytes(shared),
                ) && secret_bytes(shared).len() == MLKEM768_SHARED_SECRET_BYTES
                    && final(self).advanced_from(old(self)),
                Err(e) => decapsulate_spec(private_key@, ciphertext@) == Err::<Seq<u8>, PQCErrorView>(e@)
                    && final(self).same_as(old(self)),
            },
    {
        let start = stopwatch_start();
        if private_key.len() != MLKEM768_SECRET_KEY_BYTES {
            return Err(PQCError::InvalidPrivateKey(size_message("2400", private_key.len())));
        }
        if ciphertext.len() != MLKEM768_CIPHERTEXT_BYTES {
            return Err(PQCError::InvalidCiphertext(size_message("1088", ciphertext.len())));
        }
        let shared: SecretBytes = mlkem768_decapsulate(private_key, ciphertext);
        self.metrics.decapsulation_time_ns = stopwatch_nanos(&start);
        self.metrics.operations_count = count_up(self.metrics.operations_count);
        self.lifetime_operations = count_up(self.lifetime_operations);
        Ok(shared)
    }

    /// Generates `count` key pairs and stops at the first failure.
    ///
    /// More than a thousand pairs are refused before anything is generated.
    /// On success there are exactly `count` pairs, each of the scheme's
    /// shape. A batch of no pairs always succeeds.
    pub fn batch_generate_keypairs(&mut self, count: usize) -> (result: PQCResult<Vec<PQCKeyPair>>)
        ensures
            final(self).config() == old(self).config(),
            count > MAX_BATCH_SIZE ==> final(self).same_as(old(self)) && fails_with(
                result,
                PQCErrorView::SecurityValidationFailed("Batch size too large"@),
            ),
            count == 0 ==> result is Ok && final(self).same_as(old(self)),
            0 < count <= MAX_BATCH_SIZE && old(self).exhausted() ==> final(self).same_as(old(self))
                && fails_with(result, PQCErrorView::SecurityValidationFailed("Rate limit exceeded"@)),
            match result {
                Ok(pairs) => count <= MAX_BATCH_SIZE && pairs@.len() == count && forall|i: int|
                    0 <= i < pairs@.len() ==> is_mlkem_keypair((#[trigger] pairs@[i])@),
                Err(e) => count > 0 && (e@ == PQCErrorView::SecurityValidationFailed(
                    "Batch size too large"@,
                ) || e@ == PQCErrorView::SecurityValidationFailed("Rate limit exceeded"@) || e@
                    == PQCErrorView::KeyGenerationFailed("System time error"@)),
            },
    {
        if count > MAX_BATCH_SIZE {
            return Err(PQCError::SecurityValidationFailed("Batch size too large".to_owned()));
        }
        let mut pairs: Vec<PQCKeyPair> = Vec::with_capacity(count);
        let mut i: usize = 0;
        while i < count
            invariant
                i <= count,
                pairs@.len() == i,
                self.config() == old(self).config(),
                count <= MAX_BATCH_SIZE,
                i == 0 ==> self.same_as(old(self)),
                i > 0 ==> !old(self).exhausted(),
                forall|j: int| 0 <= j < pairs@.len() ==> is_mlkem_keypair((#[trigger] pairs@[j])@),
            decreases count - i,
        {
            match self.generate_keypair() {
                Ok(pair) => {
                    pairs.push(pair);
                },
                Err(e) => {
                    return Err(e);
                },
            }
            i += 1;
        }
        Ok(pairs)
    }

    /// Checks that a key pair has the name, the sizes and the security
    /// level of the scheme.
    ///
    /// Answers `true` for a pair without fault and fails with the first
    /// fault otherwise; it never answers `false`.
    pub fn validate_keypair(&self, keypair: &PQCKeyPair) -> (result: PQCResult<bool>)
        ensures
            match keypair_fault(keypair@) {
                Some(fault) => fails_with(result, fault),
                None => result matches Ok(valid) && valid,
            },
    {
        if !str_eq(keypair.algorithm.as_str(), "ML-KEM-768") {
            let mut text: String = "Expected ML-KEM-768, got ".to_owned();
            text.append(keypair.algorithm.as_str());
            return Err(PQCError::SecurityValidationFailed(text));
        }
        if keypair.public_key.len() != MLKEM768_PUBLIC_KEY_BYTES {
            return Err(PQCError::SecurityValidationFailed("Invalid public key size".to_owned()));
        }
        if secret_expose(&keypair.private_key).len() != MLKEM768_SECRET_KEY_BYTES {
            return Err(PQCError::SecurityValidationFailed("Invalid private key size".to_owned()));
        }
        if keypair.security_level != SECURITY_LEVEL {
            return Err(PQCError::SecurityValidationFailed("Invalid security level".to_owned()));
        }
        Ok(true)
    }

    /// The record of the engine's work.
    pub fn get_metrics(&self) -> (metrics: &KyberMetrics)
        ensures
            *metrics == self.metrics(),
    {
        &self.metrics
    }

    /// Starts the record anew. The limit of operations goes on counting.
    pub fn reset_metrics(&mut self)
        ensures
            final(self).metrics() == KyberMetrics::blank(),
            final(self).config() == old(self).config(),
            final(self).lifetime() == old(self).lifetime(),
    {
        self.metrics = KyberMetrics::fresh();
    }

    /// The scheme: its name, its security level, and the sizes of a public
    /// key, a private key, a ciphertext and a shared secret.
    pub fn get_algorithm_info() -> (info: (&'static str, u8, usize, usize, usize, usize))
        ensures
            info.0@ == "ML-KEM-768"@,
            info.1 == SECURITY_LEVEL,
            info.2 == MLKEM768_PUBLIC_KEY_BYTES,
            info.3 == MLKEM768_SECRET_KEY_BYTES,
            info.4 == MLKEM768_CIPHERTEXT_BYTES,
            info.5 == MLKEM768_SHARED_SECRET_BYTES,
    {
        (
            "ML-KEM-768",
            SECURITY_LEVEL,
            MLKEM768_PUBLIC_KEY_BYTES,
            MLKEM768_SECRET_KEY_BYTES,
            MLKEM768_CIPHERTEXT_BYTES,
            MLKEM768_SHARED_SECRET_BYTES,
        )
    }
}

/// An engine with every protection switched on and a limit of a thousand
/// operations.
pub fn create_default_kyber_engine() -> (engine: KyberEngine)
    ensures
        engine.config() == KyberConfig::standard(),
        engine.metrics() == KyberMetrics::blank(),
        engine.lifetime() == 0,
{
    KyberEngine::new(KyberConfig::default())
}

} // verus!
