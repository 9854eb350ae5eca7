//! What a signing request has to pass before anybody is asked for consent.
//! It authenticates the application that asks, not the person: the request
//! carries a timestamp and a counter-signature, made with a key that the broker
//! trusts, over the certificate identifier, an underscore and the timestamp.

use vstd::prelude::*;
use vstd::utf8::encode_utf8;
use crate::error::BrokerError;
use crate::hexcodec::{decode, spec_hex_decode, spec_is_hex};
use crate::timestamp::{parse_timestamp, spec_instant, spec_parse_timestamp, Instant};

verus! {

/// How far a timestamp may lie from now, either way, in nanoseconds: 300 seconds.
pub const FRESHNESS_WINDOW_NANOS: i128 = 300_000_000_000;

/// Whether an instant lies within the window around now.
pub open spec fn spec_is_fresh(now: int, stated: int) -> bool {
    -FRESHNESS_WINDOW_NANOS <= now - stated <= FRESHNESS_WINDOW_NANOS
}

/// The message that the counter-signature covers: the identifier, one
/// underscore, the timestamp, and nothing between or around them.
pub open spec fn spec_canonical_message(identifier: Seq<u8>, timestamp: Seq<u8>) -> Seq<u8> {
    identifier + seq![0x5fu8] + timestamp
}

/// The verdict on a timestamp as parsed, the time now, and whether
/// the counter-signature verified: an unparsable timestamp is malformed, one
/// outside the window is stale whatever the signature, and only then the
/// signature counts.
pub open spec fn spec_admission(stated: Option<int>, now: int, signature_valid: bool) -> Result<
    (),
    BrokerError,
> {
    match stated {
        None => Err(BrokerError::MalformedTimestamp),
        Some(instant) => if !spec_is_fresh(now, instant) {
            Err(BrokerError::StaleRequest)
        } else if !signature_valid {
            Err(BrokerError::SignatureInvalid)
        } else {
            Ok(())
        },
    }
}

/// Whether a signature over a message verifies under a PEM-encoded public key
/// with SHA-256 as the digest. A key that does not parse verifies nothing.
pub uninterp spec fn spec_signature_verifies(
    key_pem: Seq<u8>,
    message: Seq<u8>,
    signature: Seq<u8>,
) -> bool;

/// The longest key that is looked at, in bytes. A longer one verifies nothing.
pub const MAX_KEY_BYTES: usize = 0x7fff_ffff;

/// Whether a counter-signature, as the request carries it in hexadecimal,
/// covers the message under the trusted key.
pub open spec fn spec_counter_signature_valid(
    trusted_key: Seq<u8>,
    message: Seq<u8>,
    counter_signature: Seq<char>,
) -> bool {
    trusted_key.len() <= MAX_KEY_BYTES && spec_is_hex(counter_signature) && spec_signature_verifies(
        trusted_key,
        message,
        spec_hex_decode(counter_signature),
    )
}

/// The verdict on a request.
pub open spec fn spec_authenticate(
    identifier: Seq<char>,
    timestamp: Seq<char>,
    counter_signature: Seq<char>,
    now: int,
    trusted_key: Seq<u8>,
) -> Result<(), BrokerError> {
    spec_admission(
        spec_parse_timestamp(encode_utf8(timestamp)),
        now,
        spec_counter_signature_valid(
            trusted_key,
            spec_canonical_message(encode_utf8(identifier), encode_utf8(timestamp)),
            counter_signature,
        ),
    )
}

/// `PKey::public_key_from_pem` of `openssl` on the key, `Verifier::new` with
/// `MessageDigest::sha256` on what it parsed, `update` with the message and
/// `verify` with the signature: whether the signature verifies, or the error
/// of a key that does not parse or cannot verify. The reader of the key takes
/// no buffer beyond the range of a C `int`, so no longer key is handed to it.
#[verifier::external_body]
fn signature_verifies(key_pem: &[u8], message: &[u8], signature: &[u8]) -> (valid: Result<
    bool,
    openssl::error::ErrorStack,
>)
    requires
        key_pem.len() <= MAX_KEY_BYTES,
    ensures
        valid matches Ok(v) ==> v == spec_signature_verifies(key_pem@, message@, signature@),
        valid is Err ==> !spec_signature_verifies(key_pem@, message@, signature@),
{
    let key = openssl::pkey::PKey::public_key_from_pem(key_pem)?;
    let mut verifier = openssl::sign::Verifier::new(openssl::hash::MessageDigest::sha256(), &key)?;
    verifier.update(message)?;
    verifier.verify(signature)
}

/// The message that the counter-signature covers.
pub fn canonical_message(identifier: &[u8], timestamp: &[u8]) -> (message: Vec<u8>)
    ensures
        message@ == spec_canonical_message(identifier@, timestamp@),
{
    let mut message: Vec<u8> = Vec::new();
    let mut i: usize = 0;
    while i < identifier.len()
        invariant
            i <= identifier.len(),
            message@ == identifier@.take(i as int),
        decreases identifier.len() - i,
    {
        message.push(identifier[i]);
        proof {
            assert(identifier@.take(i + 1) =~= identifier@.take(i as int).push(
                identifier@[i as int],
            ));
        }
        i += 1;
    }
    proof {
        assert(identifier@.take(identifier.len() as int) =~= identifier@);
    }
    message.push(0x5f);
    let mut j: usize = 0;
    while j < timestamp.len()
        invariant
            j <= timestamp.len(),
            message@ == identifier@ + seq![0x5fu8] + timestamp@.take(j as int),
        decreases timestamp.len() - j,
    {
        message.push(timestamp[j]);
        proof {
            assert(timestamp@.take(j + 1) =~= timestamp@.take(j as int).push(timestamp@[j as int]));
        }
        j += 1;
    }
    proof {
        assert(timestamp@.take(timestamp.len() as int) =~= timestamp@);
    }
    message
}

/// Whether an instant lies within 300 seconds of now, before or after.
pub fn is_fresh(now: Instant, stated: Instant) -> (fresh: bool)
    ensures
        fresh == spec_is_fresh(now@, stated@),
{
    let now_nanos = now.unix_nanos();
    let stated_nanos = stated.unix_nanos();
    if now_nanos >= stated_nanos {
        // The difference of two values of this width may not fit it.
        match now_nanos.checked_sub(stated_nanos) {
            Some(age) => age <= FRESHNESS_WINDOW_NANOS,
            None => false,
        }
    } else {
        match stated_nanos.checked_sub(now_nanos) {
            Some(ahead) => ahead <= FRESHNESS_WINDOW_NANOS,
            None => false,
        }
    }
}

/// The verdict on a timestamp as parsed, the time now, and whether
/// the counter-signature verified.
pub fn admission(stated: Option<Instant>, now: Instant, signature_valid: bool) -> (verdict: Result<
    (),
    BrokerError,
>)
    ensures
        verdict == spec_admission(spec_instant(stated), now@, signature_valid),
{
    match stated {
        None => Err(BrokerError::MalformedTimestamp),
        Some(instant) => {
            if !is_fresh(now, instant) {
                Err(BrokerError::StaleRequest)
            } else if !signature_valid {
                Err(BrokerError::SignatureInvalid)
            } else {
                Ok(())
            }
        },
    }
}

/// Whether a counter-signature in hexadecimal covers a message under the
/// trusted key. One that is not hexadecimal covers nothing, and a key beyond
/// `MAX_KEY_BYTES` verifies nothing.
pub fn counter_signature_valid(trusted_key: &[u8], message: &[u8], counter_signature: &str) -> (valid:
    bool)
    ensures
        valid == spec_counter_signature_valid(trusted_key@, message@, counter_signature@),
{
    if trusted_key.len() > MAX_KEY_BYTES {
        return false;
    }
    match decode(counter_signature) {
        None => false,
        Some(signature) => match signature_verifies(trusted_key, message, signature.as_slice()) {
            Ok(valid) => valid,
            Err(_) => false,
        },
    }
}

/// The verdict on a signing request. The timestamp is parsed and held against
/// the window first; the counter-signature is looked at only for a fresh
/// request. No prompt is shown and no slot is touched unless this returns `Ok`.
pub fn authenticate(
    identifier: &str,
    timestamp: &str,
    counter_signature: &str,
    now: Instant,
    trusted_key: &[u8],
) -> (verdict: Result<(), BrokerError>)
    ensures
        verdict == spec_authenticate(
            identifier@,
            timestamp@,
            counter_signature@,
            now@,
            trusted_key@,
        ),
{
    let stated = parse_timestamp(timestamp.as_bytes());
    match stated {
        None => Err(BrokerError::MalformedTimestamp),
        Some(instant) => {
            if !is_fresh(now, instant) {
                return Err(BrokerError::StaleRequest);
            }
            let message = canonical_message(identifier.as_bytes(), timestamp.as_bytes());
            let valid = counter_signature_valid(trusted_key, message.as_slice(), counter_signature);
            admission(stated, now, valid)
        },
    }
}

/// A request with a timestamp within the window, and with a counter-signature
/// that verifies over the identifier, an underscore and the timestamp, is
/// accepted. One with a timestamp outside the window is stale, whether its
/// signature verifies or not.
pub proof fn law_fresh_and_signed_is_accepted(
    identifier: Seq<char>,
    timestamp: Seq<char>,
    counter_signature: Seq<char>,
    now: int,
    trusted_key: Seq<u8>,
)
    requires
        spec_parse_timestamp(encode_utf8(timestamp)) is Some,
    ensures
        spec_is_fresh(now, spec_parse_timestamp(encode_utf8(timestamp)).unwrap())
            && spec_counter_signature_valid(
            trusted_key,
            spec_canonical_message(encode_utf8(identifier), encode_utf8(timestamp)),
            counter_signature,
        ) ==> spec_authenticate(identifier, timestamp, counter_signature, now, trusted_key) is Ok,
        !spec_is_fresh(now, spec_parse_timestamp(encode_utf8(timestamp)).unwrap())
            ==> spec_authenticate(identifier, timestamp, counter_signature, now, trusted_key)
            == Err::<(), BrokerError>(BrokerError::StaleRequest),
{
}

/// A fresh request whose counter-signature does not verify under the trusted
/// key over the canonical message is rejected as invalid, whatever the bytes
/// of the message are.
pub proof fn law_unverified_signature_is_rejected(
    identifier: Seq<char>,
    timestamp: Seq<char>,
    counter_signature: Seq<char>,
    now: int,
    trusted_key: Seq<u8>,
)
    requires
        spec_parse_timestamp(encode_utf8(timestamp)) is Some,
        spec_is_fresh(now, spec_parse_timestamp(encode_utf8(timestamp)).unwrap()),
        !spec_counter_signature_valid(
            trusted_key,
            spec_canonical_message(encode_utf8(identifier), encode_utf8(timestamp)),
            counter_signature,
        ),
    ensures
        spec_authenticate(identifier, timestamp, counter_signature, now, trusted_key) == Err::<
            (),
            BrokerError,
        >(BrokerError::SignatureInvalid),
{
}

} // verus!
