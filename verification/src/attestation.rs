//! Challenge bookkeeping and the checks that an attestation token must pass.

use vstd::prelude::*;
use std::collections::HashMap;
use crate::bytes::{bytes_equal, copy_bytes};
use crate::digest::{sha256, sha256_digest};

verus! {

broadcast use vstd::std_specs::hash::group_hash_axioms;

/// Errors that the attestation service answers a refused request with.
#[derive(Debug, PartialEq, Eq)]
pub enum TabascoError {
    /// The request body is not valid base64.
    Base64DecodeError,
    /// A field that the protocol requires is absent.
    MissingFieldError(&'static str),
    /// No attestation was started for this device.
    NoDeviceError(i32),
    /// A received value differs from the expected one.
    MismatchError { variable: &'static str, expected: Vec<u8>, received: Vec<u8> },
}

/// What the service remembers of an attestation it started for a device.
#[derive(Debug)]
pub struct NitroAttestationContext {
    pub firmware_version: String,
    pub challenge: [u8; 32],
}

/// The fields of an authenticated Nitro attestation document that the
/// service reads.
#[derive(Debug)]
pub struct AttestationDocument {
    pub nonce: Option<Vec<u8>>,
    pub pcrs: Vec<Vec<u8>>,
    pub public_key: Option<Vec<u8>>,
}

/// The attestations in progress, keyed by device.
pub struct AttestationContexts {
    contexts: HashMap<i32, NitroAttestationContext>,
}

impl View for AttestationContexts {
    type V = Map<i32, NitroAttestationContext>;

    closed spec fn view(&self) -> Map<i32, NitroAttestationContext> {
        self.contexts@
    }
}

/// `after` is `before` with the attestation of `device_id` set to the given
/// firmware version and challenge, and nothing else changed.
pub open spec fn challenge_recorded(
    before: Map<i32, NitroAttestationContext>,
    after: Map<i32, NitroAttestationContext>,
    device_id: i32,
    firmware_version: Seq<char>,
    challenge: Seq<u8>,
) -> bool {
    &&& after.dom() == before.dom().insert(device_id)
    &&& after[device_id].firmware_version@ == firmware_version
    &&& after[device_id].challenge@ == challenge
    &&& forall|k: i32| k != device_id && #[trigger] before.contains_key(k) ==> after[k] == before[k]
}

/// The outcome of matching a token's nonce against the recorded challenge.
pub enum ChallengeVerdict {
    UnknownDevice,
    MissingNonce,
    Mismatch { expected: Seq<u8>, received: Seq<u8> },
    Accepted { firmware_version: Seq<char>, challenge: Seq<u8> },
}

pub open spec fn option_bytes_view(o: Option<Vec<u8>>) -> Option<Seq<u8>> {
    match o {
        Some(v) => Some(v@),
        None => None,
    }
}

/// The verdict on a token from `device_id` that carries `nonce`.
pub open spec fn challenge_verdict(
    contexts: Map<i32, NitroAttestationContext>,
    device_id: i32,
    nonce: Option<Seq<u8>>,
) -> ChallengeVerdict {
    if !contexts.contains_key(device_id) {
        ChallengeVerdict::UnknownDevice
    } else {
        let context = contexts[device_id];
        match nonce {
            None => ChallengeVerdict::MissingNonce,
            Some(n) => if n == context.challenge@ {
                ChallengeVerdict::Accepted {
                    firmware_version: context.firmware_version@,
                    challenge: context.challenge@,
                }
            } else {
                ChallengeVerdict::Mismatch { expected: context.challenge@, received: n }
            },
        }
    }
}

/// `r` is the answer that `verdict` calls for.
pub open spec fn answers_challenge_verdict(
    r: Result<NitroAttestationContext, TabascoError>,
    device_id: i32,
    verdict: ChallengeVerdict,
) -> bool {
    match verdict {
        ChallengeVerdict::UnknownDevice => r == Err::<NitroAttestationContext, TabascoError>(
            TabascoError::NoDeviceError(device_id),
        ),
        ChallengeVerdict::MissingNonce => r == Err::<NitroAttestationContext, TabascoError>(
            TabascoError::MissingFieldError("nonce"),
        ),
        ChallengeVerdict::Mismatch { expected, received } => match r {
            Err(TabascoError::MismatchError { variable, expected: e, received: g }) => {
                &&& variable == "nonce/challenge"
                &&& e@ == expected
                &&& g@ == received
            },
            _ => false,
        },
        ChallengeVerdict::Accepted { firmware_version, challenge } => match r {
            Ok(c) => c.firmware_version@ == firmware_version && c.challenge@ == challenge,
            _ => false,
        },
    }
}

impl AttestationContexts {
    /// No attestation in progress.
    pub fn new() -> (res: Self)
        ensures
            res@ == Map::<i32, NitroAttestationContext>::empty(),
    {
        AttestationContexts { contexts: HashMap::new() }
    }

    /// Whether an attestation was started for `device_id`.
    pub fn contains(&self, device_id: i32) -> (res: bool)
        ensures
            res == self@.contains_key(device_id),
    {
        self.contexts.contains_key(&device_id)
    }

    /// Remembers `challenge` as the one issued to `device_id`, running
    /// `firmware_version`; a challenge issued to it before is forgotten.
    pub fn record_challenge(&mut self, firmware_version: &str, device_id: i32, challenge: [u8; 32])
        ensures
            challenge_recorded(old(self)@, final(self)@, device_id, firmware_version@, challenge@),
    {
        let context = NitroAttestationContext {
            firmware_version: firmware_version.to_owned(),
            challenge,
        };
        self.contexts.insert(device_id, context);
    }
}

/// Draws a challenge from `rand::thread_rng()` with `Rng::fill`. Nothing is
/// claimed of the bytes: they are random. Filling a byte array from the
/// thread-local generator does not fail; `thread_rng` itself panics when the
/// operating system's generator cannot be read, which depends on the
/// machine, not on an argument, and is not ruled out here.
#[verifier::external_body]
fn random_challenge() -> (challenge: [u8; 32]) {
    let mut challenge: [u8; 32] = [0; 32];
    rand::Rng::fill(&mut rand::thread_rng(), &mut challenge);
    challenge
}

/// Starts an attestation of `device_id`, running `firmware_version`: draws a
/// fresh random challenge, remembers it for the device (forgetting any
/// earlier one) and returns it, to be sent to the device.
pub fn start(contexts: &mut AttestationContexts, firmware_version: &str, device_id: i32) -> (challenge: [u8; 32])
    ensures
        challenge_recorded(old(contexts)@, final(contexts)@, device_id, firmware_version@, challenge@),
{
    let challenge = random_challenge();
    contexts.record_challenge(firmware_version, device_id, challenge);
    challenge
}

/// Matches the nonce of an authenticated attestation document against the
/// challenge that was issued to `device_id`, and gives back what was
/// recorded for the device when they agree.
pub fn check_challenge(
    contexts: &AttestationContexts,
    device_id: i32,
    document: &AttestationDocument,
) -> (r: Result<NitroAttestationContext, TabascoError>)
    ensures
        answers_challenge_verdict(
            r,
            device_id,
            challenge_verdict(contexts@, device_id, option_bytes_view(document.nonce)),
        ),
{
    let context = match contexts.contexts.get(&device_id) {
        Some(c) => c,
        None => {
            return Err(TabascoError::NoDeviceError(device_id));
        },
    };
    match &document.nonce {
        None => Err(TabascoError::MissingFieldError("nonce")),
        Some(nonce) => {
            if bytes_equal(nonce.as_slice(), context.challenge.as_slice()) {
                Ok(
                    NitroAttestationContext {
                        firmware_version: context.firmware_version.clone(),
                        challenge: context.challenge,
                    },
                )
            } else {
                Err(
                    TabascoError::MismatchError {
                        variable: "nonce/challenge",
                        expected: copy_bytes(context.challenge.as_slice()),
                        received: copy_bytes(nonce.as_slice()),
                    },
                )
            }
        },
    }
}


/// `r` is the answer to comparing the enclave measurement `measured` with
/// the hash registered for the firmware version, `expected`: a missing
/// registration is refused; a measurement that differs is refused unless the
/// service runs in debug mode.
pub open spec fn answers_enclave_hash(
    r: Result<(), TabascoError>,
    expected: Option<Seq<u8>>,
    measured: Seq<u8>,
    debug_mode: bool,
) -> bool {
    match expected {
        None => r == Err::<(), TabascoError>(TabascoError::MissingFieldError("firmware version")),
        Some(h) => if h == measured || debug_mode {
            r == Ok::<(), TabascoError>(())
        } else {
            match r {
                Err(TabascoError::MismatchError { variable, expected: e, received: g }) => {
                    &&& variable == "received_enclave_hash"
                    &&& e@ == h
                    &&& g@ == measured
                },
                _ => false,
            }
        },
    }
}

/// The enclave measurement of a document: its first platform configuration
/// register.
pub open spec fn enclave_measurement(document: AttestationDocument) -> Seq<u8>
    recommends
        document.pcrs@.len() > 0,
{
    document.pcrs@[0]@
}

/// Compares the enclave measurement of `document` with the hash registered
/// for the firmware version, `expected_hash`.
pub fn check_enclave_hash(
    expected_hash: Option<Vec<u8>>,
    document: &AttestationDocument,
    debug_mode: bool,
) -> (r: Result<(), TabascoError>)
    requires
        expected_hash is Some ==> document.pcrs@.len() > 0,
    ensures
        answers_enclave_hash(
            r,
            option_bytes_view(expected_hash),
            enclave_measurement(*document),
            debug_mode,
        ),
        expected_hash is Some && !debug_mode ==> (r is Ok <==> expected_hash->0@ == document.pcrs@[0]@),
        expected_hash is Some && debug_mode ==> r is Ok,
{
    let expected = match expected_hash {
        None => {
            return Err(TabascoError::MissingFieldError("firmware version"));
        },
        Some(hash) => hash,
    };
    let received = &document.pcrs[0];
    if !bytes_equal(expected.as_slice(), received.as_slice()) && !debug_mode {
        return Err(
            TabascoError::MismatchError {
                variable: "received_enclave_hash",
                expected,
                received: copy_bytes(received.as_slice()),
            },
        );
    }
    Ok(())
}

/// Whether the public key, if any, is short enough for SHA-256 (under 2^61
/// bytes).
pub open spec fn hashable(key: Option<Vec<u8>>) -> bool {
    key matches Some(k) ==> k@.len() < 0x2000_0000_0000_0000
}

/// `r` is the answer to hashing the public key of a document: a missing key
/// is refused, a present one gives its SHA-256 digest.
pub open spec fn answers_public_key_hash(r: Result<Vec<u8>, TabascoError>, key: Option<Seq<u8>>) -> bool {
    match key {
        None => r == Err::<Vec<u8>, TabascoError>(TabascoError::MissingFieldError("public_key")),
        Some(k) => match r {
            Ok(h) => h@ == sha256_digest(k) && h@.len() == 32,
            _ => false,
        },
    }
}

/// The SHA-256 digest of the enclave's public key, which the service
/// registers for the device.
pub fn public_key_hash(document: &AttestationDocument) -> (r: Result<Vec<u8>, TabascoError>)
    requires
        hashable(document.public_key),
    ensures
        answers_public_key_hash(r, option_bytes_view(document.public_key)),
{
    match &document.public_key {
        Some(key) => Ok(sha256(key.as_slice())),
        None => Err(TabascoError::MissingFieldError("public_key")),
    }
}

/// `r` with its value, if any, dropped.
pub open spec fn without_value(r: Result<Vec<u8>, TabascoError>) -> Result<(), TabascoError> {
    match r {
        Ok(_) => Ok(()),
        Err(e) => Err(e),
    }
}

/// `r` is the answer to the checks that follow the lookup of the expected
/// enclave hash: the measurement is compared first, then the public key is
/// hashed.
pub open spec fn answers_measurement_and_key(
    r: Result<Vec<u8>, TabascoError>,
    expected: Option<Seq<u8>>,
    measured: Seq<u8>,
    key: Option<Seq<u8>>,
    debug_mode: bool,
) -> bool {
    if expected is Some && (expected->0 == measured || debug_mode) {
        answers_public_key_hash(r, key)
    } else {
        r is Err && answers_enclave_hash(without_value(r), expected, measured, debug_mode)
    }
}

/// Whether the expected enclave hash is present and differs from the
/// measurement, the one case in which the answer depends on debug mode.
pub fn hash_differs_from_measurement(expected_hash: &Option<Vec<u8>>, document: &AttestationDocument) -> (res: bool)
    requires
        *expected_hash is Some ==> document.pcrs@.len() > 0,
    ensures
        res == (match *expected_hash {
            Some(h) => h@ != enclave_measurement(*document),
            None => false,
        }),
        res == (match *expected_hash {
            Some(h) => h@ != document.pcrs@[0]@,
            None => false,
        }),
{
    match expected_hash {
        Some(h) => !bytes_equal(h.as_slice(), document.pcrs[0].as_slice()),
        None => false,
    }
}

/// The checks that follow the lookup of the expected enclave hash: the
/// measurement is compared first, then the public key is hashed; the digest
/// is what the service registers for the device.
pub fn check_measurement_and_key(
    expected_hash: Option<Vec<u8>>,
    document: &AttestationDocument,
    debug_mode: bool,
) -> (r: Result<Vec<u8>, TabascoError>)
    requires
        expected_hash is Some ==> document.pcrs@.len() > 0,
        hashable(document.public_key),
    ensures
        answers_measurement_and_key(
            r,
            option_bytes_view(expected_hash),
            enclave_measurement(*document),
            option_bytes_view(document.public_key),
            debug_mode,
        ),
        expected_hash is Some && !debug_mode ==> (r is Ok <==> (expected_hash->0@ == document.pcrs@[0]@
            && document.public_key is Some)),
{
    match check_enclave_hash(expected_hash, document, debug_mode) {
        Err(e) => Err(e),
        Ok(()) => public_key_hash(document),
    }
}

/// A token that carries the challenge last issued to its device passes the
/// challenge check, and yields the firmware version recorded with it.
pub proof fn lemma_issued_challenge_accepted(
    before: Map<i32, NitroAttestationContext>,
    after: Map<i32, NitroAttestationContext>,
    device_id: i32,
    firmware_version: Seq<char>,
    challenge: Seq<u8>,
)
    requires
        challenge_recorded(before, after, device_id, firmware_version, challenge),
    ensures
        challenge_verdict(after, device_id, Some(challenge)) == (ChallengeVerdict::Accepted {
            firmware_version,
            challenge,
        }),
{
    assert(after.dom().contains(device_id));
}

/// A token whose nonce differs from the challenge last issued to its device
/// is refused, naming the issued challenge and the received nonce; in
/// particular a challenge issued earlier to the device no longer passes.
pub proof fn lemma_other_nonce_refused(
    before: Map<i32, NitroAttestationContext>,
    after: Map<i32, NitroAttestationContext>,
    device_id: i32,
    firmware_version: Seq<char>,
    challenge: Seq<u8>,
    nonce: Seq<u8>,
)
    requires
        challenge_recorded(before, after, device_id, firmware_version, challenge),
        nonce != challenge,
    ensures
        challenge_verdict(after, device_id, Some(nonce)) == (ChallengeVerdict::Mismatch {
            expected: challenge,
            received: nonce,
        }),
{
    assert(after.dom().contains(device_id));
}

/// Starting an attestation for one device changes nothing for the others.
pub proof fn lemma_other_devices_unaffected(
    before: Map<i32, NitroAttestationContext>,
    after: Map<i32, NitroAttestationContext>,
    device_id: i32,
    firmware_version: Seq<char>,
    challenge: Seq<u8>,
    other: i32,
    nonce: Option<Seq<u8>>,
)
    requires
        challenge_recorded(before, after, device_id, firmware_version, challenge),
        other != device_id,
    ensures
        challenge_verdict(after, other, nonce) == challenge_verdict(before, other, nonce),
{
    assert(after.dom().contains(other) == before.dom().contains(other));
    if before.contains_key(other) {
        assert(after[other] == before[other]);
    }
}

/// A token from a device for which no attestation was started is refused as
/// coming from an unknown device, whatever it carries.
pub proof fn lemma_unstarted_device_refused(
    contexts: Map<i32, NitroAttestationContext>,
    device_id: i32,
    nonce: Option<Seq<u8>>,
)
    requires
        !contexts.contains_key(device_id),
    ensures
        challenge_verdict(contexts, device_id, nonce) == ChallengeVerdict::UnknownDevice,
{
}

/// In debug mode a registered hash is never refused for differing from the
/// enclave measurement; outside debug mode it passes exactly when the two
/// are equal.
pub proof fn lemma_enclave_hash_policy(
    r: Result<(), TabascoError>,
    expected: Seq<u8>,
    measured: Seq<u8>,
    debug_mode: bool,
)
    requires
        answers_enclave_hash(r, Some(expected), measured, debug_mode),
    ensures
        debug_mode ==> r is Ok,
        !debug_mode ==> (r is Ok <==> expected == measured),
{
}

/// A firmware version without a registered hash is always refused, debug
/// mode or not.
pub proof fn lemma_unregistered_firmware_refused(
    r: Result<(), TabascoError>,
    measured: Seq<u8>,
    debug_mode: bool,
)
    requires
        answers_enclave_hash(r, None, measured, debug_mode),
    ensures
        r is Err,
{
}

/// Whether a token from `device_id` with the given nonce, measurement and
/// public key passes every check, where `registered_hash` gives the hash
/// registered for each firmware version.
pub open spec fn token_passes(
    contexts: Map<i32, NitroAttestationContext>,
    device_id: i32,
    nonce: Option<Seq<u8>>,
    registered_hash: spec_fn(Seq<char>) -> Option<Seq<u8>>,
    measured: Seq<u8>,
    key: Option<Seq<u8>>,
    debug_mode: bool,
) -> bool {
    &&& contexts.contains_key(device_id)
    &&& nonce == Some(contexts[device_id].challenge@)
    &&& registered_hash(contexts[device_id].firmware_version@) matches Some(h)
    &&& (h == measured || debug_mode)
    &&& key is Some
}

/// A token passes the challenge check and the checks that follow the lookup
/// of the hash registered for the recorded firmware version exactly when it
/// comes from a device with an attestation in progress, carries the
/// challenge issued to it, the firmware version has a registered hash that
/// equals the measurement (or the service runs in debug mode), and the
/// enclave has a public key; the digest then registered for the device is
/// that of the key.
pub proof fn lemma_token_passes_iff_every_check_passes(
    contexts: Map<i32, NitroAttestationContext>,
    device_id: i32,
    nonce: Option<Seq<u8>>,
    registered_hash: spec_fn(Seq<char>) -> Option<Seq<u8>>,
    measured: Seq<u8>,
    key: Option<Seq<u8>>,
    debug_mode: bool,
    challenge_answer: Result<NitroAttestationContext, TabascoError>,
    final_answer: Result<Vec<u8>, TabascoError>,
)
    requires
        answers_challenge_verdict(
            challenge_answer,
            device_id,
            challenge_verdict(contexts, device_id, nonce),
        ),
        challenge_answer matches Ok(c) ==> answers_measurement_and_key(
            final_answer,
            registered_hash(c.firmware_version@),
            measured,
            key,
            debug_mode,
        ),
    ensures
        (challenge_answer is Ok && final_answer is Ok) <==> token_passes(
            contexts,
            device_id,
            nonce,
            registered_hash,
            measured,
            key,
            debug_mode,
        ),
        challenge_answer is Ok && final_answer is Ok ==> final_answer->Ok_0@ == sha256_digest(key->0),
{
    if contexts.contains_key(device_id) && nonce == Some(contexts[device_id].challenge@) {
        assert(challenge_answer is Ok);
    }
}

/// A firmware version without a registered hash is answered
/// `MissingFieldError("firmware version")`, whatever the enclave's
/// measurement and key, debug mode or not.
pub proof fn lemma_unregistered_firmware_answer(
    r: Result<Vec<u8>, TabascoError>,
    measured: Seq<u8>,
    key: Option<Seq<u8>>,
    debug_mode: bool,
)
    requires
        answers_measurement_and_key(r, None, measured, key, debug_mode),
    ensures
        r == Err::<Vec<u8>, TabascoError>(TabascoError::MissingFieldError("firmware version")),
{
}

/// In debug mode the answer of the checks that follow the hash lookup does
/// not depend on the enclave measurement: two measurements give the same
/// error, or digests of the same bytes.
pub proof fn lemma_debug_mode_ignores_measurement(
    r1: Result<Vec<u8>, TabascoError>,
    r2: Result<Vec<u8>, TabascoError>,
    expected: Option<Seq<u8>>,
    measured1: Seq<u8>,
    measured2: Seq<u8>,
    key: Option<Seq<u8>>,
)
    requires
        answers_measurement_and_key(r1, expected, measured1, key, true),
        answers_measurement_and_key(r2, expected, measured2, key, true),
    ensures
        without_value(r1) == without_value(r2),
        r1 is Ok ==> r1->Ok_0@ == r2->Ok_0@,
{
}

/// The enclave measurement compared with the registered hash is the
/// document's first PCR: outside debug mode a registered hash passes exactly
/// when it equals PCR0, whatever the other PCRs hold, and in debug mode it
/// always passes.
pub proof fn lemma_measurement_is_first_pcr(
    r: Result<(), TabascoError>,
    expected: Seq<u8>,
    document: AttestationDocument,
    debug_mode: bool,
)
    requires
        document.pcrs@.len() > 0,
        answers_enclave_hash(r, Some(expected), enclave_measurement(document), debug_mode),
    ensures
        !debug_mode ==> (r is Ok <==> expected == document.pcrs@[0]@),
        debug_mode ==> r is Ok,
{
}

/// Two documents with the same first PCR get the same answer to the hash
/// check, whatever their other PCRs hold.
pub proof fn lemma_only_first_pcr_matters(
    r1: Result<(), TabascoError>,
    r2: Result<(), TabascoError>,
    expected: Option<Seq<u8>>,
    document1: AttestationDocument,
    document2: AttestationDocument,
    debug_mode: bool,
)
    requires
        document1.pcrs@.len() > 0,
        document2.pcrs@.len() > 0,
        document1.pcrs@[0]@ == document2.pcrs@[0]@,
        answers_enclave_hash(r1, expected, enclave_measurement(document1), debug_mode),
        answers_enclave_hash(r2, expected, enclave_measurement(document2), debug_mode),
    ensures
        r1 is Ok <==> r2 is Ok,
{
}

} // verus!
