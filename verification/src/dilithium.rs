//! An engine for detached Dilithium-3 (ML-DSA-65) signatures that checks
//! the sizes of what it is handed before the provider sees it and counts
//! the operations it has carried out.

use crate::count_up;
use crate::counted;
use crate::fails_with;
use crate::provider::mldsa65_accepts;
use crate::provider::mldsa65_detached_sign;
use crate::provider::mldsa65_keypair;
use crate::provider::mldsa65_verify_detached;
use crate::provider::secret_new;
use crate::provider::unix_time_secs;
use crate::provider::MLDSA65_PUBLIC_KEY_BYTES;
use crate::provider::MLDSA65_SECRET_KEY_BYTES;
use crate::provider::MLDSA65_SIGNATURE_BYTES;
use crate::text::decimal;
use crate::text::decimal_string;
use crate::KeyPairView;
use crate::PQCError;
use crate::PQCErrorView;
use crate::PQCKeyPair;
use crate::PQCResult;
use crate::PQCSignature;
use crate::SignatureView;
use crate::MLDSA65_KEYPAIR_BYTES;
use crate::SECURITY_LEVEL;
use vstd::prelude::*;
use vstd::string::StringSliceAdditionalSpecFns;

verus! {

/// How the engine is to behave.
#[derive(Debug, Clone, Copy)]
pub struct DilithiumConfig {
    pub timing_resistance: bool,
    pub memory_protection: bool,
    pub performance_monitoring: bool,
}

impl Default for DilithiumConfig {
    /// Every protection switched on.
    fn default() -> (config: Self)
        ensures
            config.timing_resistance,
            config.memory_protection,
            config.performance_monitoring,
    {
        DilithiumConfig { timing_resistance: true, memory_protection: true, performance_monitoring: true }
    }
}

/// Signs and verifies, and counts what it did.
pub struct DilithiumEngine {
    config: DilithiumConfig,
    operations_count: u64,
}

/// Whether a key pair has the shape of a fresh Dilithium-3 pair.
pub open spec fn is_dilithium_keypair(pair: KeyPairView) -> bool {
    &&& pair.public_key.len() == MLDSA65_PUBLIC_KEY_BYTES
    &&& pair.private_key.len() == MLDSA65_SECRET_KEY_BYTES
    &&& pair.algorithm == "Dilithium-3"@
    &&& pair.key_size == MLDSA65_KEYPAIR_BYTES
    &&& pair.security_level == SECURITY_LEVEL
}

/// What is said of a clock that could not be read.
pub open spec fn time_error() -> PQCErrorView {
    PQCErrorView::KeyGenerationFailed("Time error: second time provided was later than self"@)
}

/// What is said of a private key of `len` bytes that has the wrong size.
pub open spec fn private_key_size_error(len: nat) -> PQCErrorView {
    PQCErrorView::InvalidPrivateKey(
        "Invalid Dilithium-3 private key size: expected 4032, got "@ + decimal(len),
    )
}

/// What is said of a public key of `len` bytes that has the wrong size.
pub open spec fn public_key_size_error(len: nat) -> PQCErrorView {
    PQCErrorView::InvalidPublicKey("Invalid Dilithium-3 public key size: expected 1952, got "@ + decimal(len))
}

/// What is said of a signature of `len` bytes that has the wrong size.
pub open spec fn signature_size_error(len: nat) -> PQCErrorView {
    PQCErrorView::InvalidSignature("Invalid Dilithium-3 signature size: expected 3309, got "@ + decimal(len))
}

/// Whether a signature has the shape of a detached Dilithium-3 signature:
/// of the scheme's size, and of the size it says.
pub open spec fn is_signature(signature: SignatureView) -> bool {
    &&& signature.algorithm == "Dilithium-3"@
    &&& signature.signature_size == signature.signature.len()
    &&& signature.signature.len() == MLDSA65_SIGNATURE_BYTES
}

/// Whether a signature has the shape of a detached Dilithium-3 signature
/// stamped with `time`.
pub open spec fn is_signature_at(signature: SignatureView, time: u64) -> bool {
    is_signature(signature) && signature.created_at == time
}

/// What verification answers for each input: a public key of the wrong
/// size is refused, then a signature of the wrong size, and everything
/// else is put to the scheme.
pub open spec fn verify_spec(public_key: Seq<u8>, message: Seq<u8>, signature: Seq<u8>) -> Result<
    bool,
    PQCErrorView,
> {
    if public_key.len() != MLDSA65_PUBLIC_KEY_BYTES {
        Err(public_key_size_error(public_key.len()))
    } else if signature.len() != MLDSA65_SIGNATURE_BYTES {
        Err(signature_size_error(signature.len()))
    } else {
        Ok(mldsa65_accepts(public_key, message, signature))
    }
}

/// The message that a key pair signs to show that its halves belong
/// together.
pub open spec fn validation_message() -> Seq<u8> {
    "Dilithium-3 keypair validation test".spec_bytes()
}

/// Whether `answer` is what the scheme says of some signature of its own
/// size for a message under a key.
pub open spec fn answers_for_a_signature(public_key: Seq<u8>, message: Seq<u8>, answer: bool) -> bool {
    exists|signature: Seq<u8>|
        signature.len() == MLDSA65_SIGNATURE_BYTES && answer == #[trigger] mldsa65_accepts(
            public_key,
            message,
            signature,
        )
}

/// Whether some signature makes the scheme accept a message under a key.
pub open spec fn can_be_signed(public_key: Seq<u8>, message: Seq<u8>) -> bool {
    exists|signature: Seq<u8>| #[trigger] mldsa65_accepts(public_key, message, signature)
}

/// Whether a detached signature of the validation message is accepted
/// under a public key. A key of the wrong size and a signature longer than
/// the scheme allows are not.
pub fn confirms_keypair(public_key: &[u8], signature: &[u8]) -> (confirmed: bool)
    ensures
        confirmed == (public_key@.len() == MLDSA65_PUBLIC_KEY_BYTES && signature@.len()
            <= MLDSA65_SIGNATURE_BYTES && mldsa65_accepts(public_key@, validation_message(), signature@)),
{
    if public_key.len() != MLDSA65_PUBLIC_KEY_BYTES || signature.len() > MLDSA65_SIGNATURE_BYTES {
        return false;
    }
    mldsa65_verify_detached(public_key, "Dilithium-3 keypair validation test".as_bytes(), signature)
}

impl DilithiumEngine {
    /// The number of operations carried out since the engine was made or
    /// its count was reset.
    pub closed spec fn count(&self) -> u64 {
        self.operations_count
    }

    /// How the engine was configured.
    pub closed spec fn config(&self) -> DilithiumConfig {
        self.config
    }

    /// An engine that has done nothing yet.
    pub fn new(config: DilithiumConfig) -> (engine: Self)
        ensures
            engine.count() == 0,
            engine.config() == config,
    {
        DilithiumEngine { config, operations_count: 0 }
    }

    fn count_operation(&mut self)
        ensures
            final(self).count() == counted(old(self).count()),
            final(self).config() == old(self).config(),
    {
        self.operations_count = count_up(self.operations_count);
    }

    /// Generates a key pair stamped with `now`, the reading of the clock.
    ///
    /// With a clock that could not be read nothing is generated or counted.
    /// Otherwise a pair of the scheme's sizes comes back and is counted.
    pub fn generate_keypair_at(&mut self, now: Option<u64>) -> (result: PQCResult<PQCKeyPair>)
        ensures
            final(self).config() == old(self).config(),
            match now {
                None => fails_with(result, time_error()) && final(self).count() == old(self).count(),
                Some(time) => result is Ok && is_dilithium_keypair(result.unwrap()@)
                    && result.unwrap()@.created_at == time && final(self).count() == counted(
                    old(self).count(),
                ),
            },
    {
        match now {
            None => Err(
                PQCError::KeyGenerationFailed(
                    "Time error: second time provided was later than self".to_owned(),
                ),
            ),
            Some(time) => {
                let (public_key, private_key) = mldsa65_keypair();
                self.count_operation();
                Ok(
                    PQCKeyPair {
                        public_key,
                        private_key,
                        algorithm: "Dilithium-3".to_owned(),
                        key_size: MLDSA65_PUBLIC_KEY_BYTES + MLDSA65_SECRET_KEY_BYTES,
                        security_level: SECURITY_LEVEL,
                        created_at: time,
                    },
                )
            },
        }
    }

    /// Generates a key pair stamped with the current time.
    ///
    /// Fails only where the clock cannot be read, and then counts nothing.
    pub fn generate_keypair(&mut self) -> (result: PQCResult<PQCKeyPair>)
        ensures
            final(self).config() == old(self).config(),
            match result {
                Ok(pair) => is_dilithium_keypair(pair@) && final(self).count() == counted(old(self).count()),
                Err(e) => e@ == time_error() && final(self).count() == old(self).count(),
            },
    {
        self.generate_keypair_at(unix_time_secs())
    }

    /// Signs a message and stamps the signature with `now`, the reading of
    /// the clock.
    ///
    /// A private key of the wrong size is refused first, then a clock that
    /// could not be read; neither is counted. Otherwise the provider's
    /// detached signature comes back with the length the provider gave it.
    pub fn sign_at(&mut self, private_key: &[u8], message: &[u8], now: Option<u64>) -> (result: PQCResult<
        PQCSignature,
    >)
        ensures
            final(self).config() == old(self).config(),
            private_key@.len() != MLDSA65_SECRET_KEY_BYTES ==> fails_with(
                result,
                private_key_size_error(private_key@.len()),
            ) && final(self).count() == old(self).count(),
            private_key@.len() == MLDSA65_SECRET_KEY_BYTES && now is None ==> fails_with(result, time_error())
                && final(self).count() == old(self).count(),
            private_key@.len() == MLDSA65_SECRET_KEY_BYTES && now is Some ==> result is Ok
                && final(self).count() == counted(old(self).count())
                && is_signature_at(result.unwrap()@, now.unwrap()),
    {
        if private_key.len() != MLDSA65_SECRET_KEY_BYTES {
            let size: String = decimal_string(private_key.len() as u64);
            let mut text: String = "Invalid Dilithium-3 private key size: expected 4032, got ".to_owned();
            text.append(size.as_str());
            return Err(PQCError::InvalidPrivateKey(text));
        }
        let time: u64 = match now {
            None => {
                return Err(
                    PQCError::KeyGenerationFailed(
                        "Time error: second time provided was later than self".to_owned(),
                    ),
                );
            },
            Some(time) => time,
        };
        let signature: Vec<u8> = mldsa65_detached_sign(private_key, message);
        let signature_size: usize = signature.len();
        self.count_operation();
        Ok(
            PQCSignature {
                signature: secret_new(signature),
                algorithm: "Dilithium-3".to_owned(),
                signature_size,
                created_at: time,
            },
        )
    }

    /// Signs a message and stamps the signature with the current time.
    ///
    /// A private key of the wrong size is refused. With a key of the right
    /// size the call fails only where the clock cannot be read.
    pub fn sign(&mut self, private_key: &[u8], message: &[u8]) -> (result: PQCResult<PQCSignature>)
        ensures
            final(self).config() == old(self).config(),
            private_key@.len() != MLDSA65_SECRET_KEY_BYTES ==> fails_with(
                result,
                private_key_size_error(private_key@.len()),
            ),
            match result {
                Ok(s) => private_key@.len() == MLDSA65_SECRET_KEY_BYTES && is_signature(s@)
                    && final(self).count() == counted(old(self).count()),
                Err(e) => final(self).count() == old(self).count() && (e@ == time_error() || e@
                    == private_key_size_error(private_key@.len())),
            },
    {
        self.sign_at(private_key, message, unix_time_secs())
    }

    /// Checks a detached signature for a message under a public key.
    ///
    /// A public key or a signature of the wrong size is refused and not
    /// counted. Every other input is put to the scheme and counted, and the
    /// answer is the scheme's.
    pub fn verify(&mut self, public_key: &[u8], message: &[u8], signature: &[u8]) -> (result: PQCResult<bool>)
        ensures
            final(self).config() == old(self).config(),
            match result {
                Ok(valid) => verify_spec(public_key@, message@, signature@) == Ok::<bool, PQCErrorView>(valid)
                    && final(self).count() == counted(old(self).count()),
                Err(e) => verify_spec(public_key@, message@, signature@) == Err::<bool, PQCErrorView>(e@)
                    && final(self).count() == old(self).count(),
            },
    {
        if public_key.len() != MLDSA65_PUBLIC_KEY_BYTES {
            let size: String = decimal_string(public_key.len() as u64);
            let mut text: String = "Invalid Dilithium-3 public key size: expected 1952, got ".to_owned();
            text.append(size.as_str());
            return Err(PQCError::InvalidPublicKey(text));
        }
        if signature.len() != MLDSA65_SIGNATURE_BYTES {
            let size: String = decimal_string(signature.len() as u64);
            let mut text: String = "Invalid Dilithium-3 signature size: expected 3309, got ".to_owned();
            text.append(size.as_str());
            return Err(PQCError::InvalidSignature(text));
        }
        let valid: bool = mldsa65_verify_detached(public_key, message, signature);
        self.count_operation();
        Ok(valid)
    }

    /// Signs each message in turn and stops at the first failure.
    ///
    /// No message, no failure. With messages, a private key of the wrong
    /// size is refused; with a key of the right size only the clock can
    /// fail. On success there is one signature for each message, in order.
    pub fn batch_sign(&mut self, private_key: &[u8], messages: &[&[u8]]) -> (result: PQCResult<
        Vec<PQCSignature>,
    >)
        ensures
            final(self).config() == old(self).config(),
            messages@.len() == 0 ==> result is Ok,
            messages@.len() > 0 && private_key@.len() != MLDSA65_SECRET_KEY_BYTES ==> fails_with(
                result,
                private_key_size_error(private_key@.len()),
            ) && final(self).count() == old(self).count(),
            match result {
                Ok(signatures) => signatures@.len() == messages@.len() && forall|i: int|
                    0 <= i < signatures@.len() ==> is_signature((#[trigger] signatures@[i])@),
                Err(e) => messages@.len() > 0 && (e@ == time_error() || e@ == private_key_size_error(
                    private_key@.len(),
                )),
            },
    {
        let mut signatures: Vec<PQCSignature> = Vec::with_capacity(messages.len());
        let mut i: usize = 0;
        while i < messages.len()
            invariant
                i <= messages@.len(),
                signatures@.len() == i,
                self.config() == old(self).config(),
                i > 0 ==> private_key@.len() == MLDSA65_SECRET_KEY_BYTES,
                i == 0 ==> self.count() == old(self).count(),
                forall|j: int| 0 <= j < signatures@.len() ==> is_signature((#[trigger] signatures@[j])@),
            decreases messages@.len() - i,
        {
            match self.sign(private_key, messages[i]) {
                Ok(signature) => {
                    signatures.push(signature);
                },
                Err(e) => {
                    return Err(e);
                },
            }
            i += 1;
        }
        Ok(signatures)
    }

    /// Whether the two halves of a key pair have the right sizes and a
    /// signature made with the private half is accepted under the public
    /// half.
    ///
    /// Halves of the wrong size are answered with `false`. Otherwise the
    /// validation message is signed with the private half and the answer
    /// is that of [`confirms_keypair`] for the signature: what the scheme
    /// says of some signature of its own size for the validation message
    /// under the public key. Signing draws fresh randomness, so which
    /// signature that is differs from call to call. The call never fails.
    pub fn validate_keypair(&self, public_key: &[u8], private_key: &[u8]) -> (result: PQCResult<bool>)
        ensures
            result is Ok,
            public_key@.len() != MLDSA65_PUBLIC_KEY_BYTES || private_key@.len() != MLDSA65_SECRET_KEY_BYTES
                ==> result.unwrap() == false,
            public_key@.len() == MLDSA65_PUBLIC_KEY_BYTES && private_key@.len() == MLDSA65_SECRET_KEY_BYTES
                ==> answers_for_a_signature(public_key@, validation_message(), result.unwrap()),
            result.unwrap() ==> can_be_signed(public_key@, validation_message()),
    {
        if public_key.len() != MLDSA65_PUBLIC_KEY_BYTES {
            return Ok(false);
        }
        if private_key.len() != MLDSA65_SECRET_KEY_BYTES {
            return Ok(false);
        }
        let message: &[u8] = "Dilithium-3 keypair validation test".as_bytes();
        let signature: Vec<u8> = mldsa65_detached_sign(private_key, message);
        Ok(confirms_keypair(public_key, signature.as_slice()))
    }

    /// The number of operations carried out.
    pub fn get_operations_count(&self) -> (count: u64)
        ensures
            count == self.count(),
    {
        self.operations_count
    }

    /// Starts counting anew.
    pub fn reset_metrics(&mut self)
        ensures
            final(self).count() == 0,
            final(self).config() == old(self).config(),
    {
        self.operations_count = 0;
    }

    /// The scheme and its sizes in words.
    pub fn get_algorithm_info(&self) -> (info: String)
        ensures
            info@
                == "Dilithium-3 (ML-DSA-65) - NIST PQC Standard\nPublic Key Size: 1952 bytes\nPrivate Key Size: 4032 bytes\nSignature Size: 3309 bytes\nSecurity Level: NIST Level 3"@,
    {
        "Dilithium-3 (ML-DSA-65) - NIST PQC Standard\nPublic Key Size: 1952 bytes\nPrivate Key Size: 4032 bytes\nSignature Size: 3309 bytes\nSecurity Level: NIST Level 3".to_owned()
    }
}

/// An engine with every protection switched on.
pub fn create_default_dilithium_engine() -> (engine: DilithiumEngine)
    ensures
        engine.count() == 0,
        engine.config().timing_resistance,
        engine.config().memory_protection,
        engine.config().performance_monitoring,
{
    DilithiumEngine::new(DilithiumConfig::default())
}

} // verus!
