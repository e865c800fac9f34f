//! The off-chain message envelope that the Ledger Solana app signs.
//!
//! The layout, for the single signer that this crate ever names:
//!
//! ```text
//! signing domain (16) | version = 0 (1) | application domain (32)
//!   | format (1) | signer count = 1 (1) | signer (32)
//!   | length (2, little-endian) | message
//! ```
//!
//! It is not the layout that `solana_offchain_message` serializes: that one has
//! no application domain, no signer count and no signer list, and the app
//! rejects it. Only the signing domain is shared.

use vstd::prelude::*;
use vstd::utf8::valid_utf8;

use crate::error::{failure, ErrorKind, ErrorView, SignerError};
use crate::keys::Pubkey;
use crate::text::{decimal, decimal_string};
use vstd::string::StringExecFns;

verus! {

/// Envelope header length for a single signer:
/// 16 (signing domain) + 1 (version) + 32 (application domain) + 1 (format)
/// + 1 (signer count) + 32 (one signer) + 2 (message length).
pub const OFFCHAIN_HEADER_LEN_ONE_SIGNER: usize = 16 + 1 + 32 + 1 + 1 + 32 + 2;

/// Longest payload that fits an off-chain message envelope bound for a Ledger.
///
/// `solana-remote-wallet` refuses to send anything over 1215 bytes, which is
/// tighter than what the device itself takes; the header comes off that.
pub const MAX_OFFCHAIN_PAYLOAD_LEN: usize = 1215 - OFFCHAIN_HEADER_LEN_ONE_SIGNER;

pub const EMPTY_PAYLOAD: &'static str =
    "off-chain message payload is empty; a Ledger will not sign it";

pub const PAYLOAD_IS: &'static str = "off-chain message payload is ";

pub const PAYLOAD_AT_MOST: &'static str = " bytes; a Ledger accepts at most ";

pub const PAYLOAD_NOT_UTF8: &'static str =
    "off-chain message payload is not valid UTF-8; a Ledger will not sign it";

/// The bytes every off-chain message starts with: `\xffsolana offchain`.
pub open spec fn signing_domain() -> Seq<u8> {
    seq![
        0xffu8, 0x73u8, 0x6fu8, 0x6cu8, 0x61u8, 0x6eu8, 0x61u8, 0x20u8,
        0x6fu8, 0x66u8, 0x66u8, 0x63u8, 0x68u8, 0x61u8, 0x69u8, 0x6eu8,
    ]
}

/// A byte that prints as an ASCII character, the space included.
pub open spec fn printable(b: u8) -> bool {
    0x20 <= b <= 0x7e
}

/// Every byte of `payload` is printable ASCII.
pub open spec fn printable_ascii(payload: Seq<u8>) -> bool {
    forall|i: int| 0 <= i < payload.len() ==> printable(#[trigger] payload[i])
}

/// The format byte: 0 (restricted ASCII) for printable ASCII, else 1 (limited
/// UTF-8).
pub open spec fn format_byte(payload: Seq<u8>) -> u8 {
    if printable_ascii(payload) {
        0
    } else {
        1
    }
}

/// `n`, which is below 65536, as two bytes with the low one first.
pub open spec fn u16_le(n: nat) -> Seq<u8> {
    seq![(n % 256) as u8, (n / 256) as u8]
}

/// The 83 bytes in front of the length: everything that does not depend on how
/// long the message is.
pub open spec fn preamble(signer: Seq<u8>, format: u8) -> Seq<u8> {
    signing_domain() + seq![0u8] + Seq::new(32, |i: int| 0u8) + seq![format] + seq![1u8] + signer
}

/// The envelope that names `signer` and wraps `payload`.
pub open spec fn envelope(signer: Seq<u8>, payload: Seq<u8>) -> Seq<u8> {
    preamble(signer, format_byte(payload)) + u16_le(payload.len()) + payload
}

/// A payload that a Ledger will sign.
pub open spec fn signable(payload: Seq<u8>) -> bool {
    0 < payload.len() <= MAX_OFFCHAIN_PAYLOAD_LEN && valid_utf8(payload)
}

/// Why a payload that is not [`signable`] is refused. What is looked at first
/// is reported first: emptiness, then length, then content.
pub open spec fn refusal(payload: Seq<u8>) -> ErrorView {
    if payload.len() == 0 {
        failure(ErrorKind::ConfigError, EMPTY_PAYLOAD@)
    } else if payload.len() > MAX_OFFCHAIN_PAYLOAD_LEN {
        failure(
            ErrorKind::ConfigError,
            PAYLOAD_IS@ + decimal(payload.len()) + PAYLOAD_AT_MOST@ + decimal(
                MAX_OFFCHAIN_PAYLOAD_LEN as nat,
            ),
        )
    } else {
        failure(ErrorKind::ConfigError, PAYLOAD_NOT_UTF8@)
    }
}

/// Reads the constant `solana_offchain_message::OffchainMessage::SIGNING_DOMAIN`.
///
/// Trusted: the constant is the sixteen bytes of [`signing_domain`].
#[verifier::external_body]
fn crate_signing_domain() -> (domain: &'static [u8])
    ensures
        domain@ == signing_domain(),
{
    solana_offchain_message::OffchainMessage::SIGNING_DOMAIN
}

/// Calls `std::str::from_utf8`.
///
/// Trusted: it succeeds on exactly the byte strings that are valid UTF-8.
#[verifier::external_body]
fn is_utf8(bytes: &[u8]) -> (ok: bool)
    ensures
        ok == valid_utf8(bytes@),
{
    std::str::from_utf8(bytes).is_ok()
}

/// The application domain that stands for "not provided".
fn no_application_domain() -> (domain: [u8; 32])
    ensures
        domain@ == Seq::new(32, |i: int| 0u8),
{
    let domain: [u8; 32] = [
        0, 0, 0, 0, 0, 0, 0, 0, 0, 0, 0, 0, 0, 0, 0, 0,
        0, 0, 0, 0, 0, 0, 0, 0, 0, 0, 0, 0, 0, 0, 0, 0,
    ];
    assert(domain@ =~= Seq::new(32, |i: int| 0u8));
    domain
}

fn is_printable_ascii(payload: &[u8]) -> (ok: bool)
    ensures
        ok == printable_ascii(payload@),
{
    let mut i: usize = 0;
    while i < payload.len()
        invariant
            i <= payload@.len(),
            forall|j: int| 0 <= j < i ==> printable(#[trigger] payload@[j]),
        decreases payload@.len() - i,
    {
        let b: u8 = payload[i];
        if b < 0x20 || b > 0x7e {
            assert(!printable(payload@[i as int]));
            return false;
        }
        i += 1;
    }
    true
}

/// Printable ASCII is valid UTF-8.
proof fn ascii_is_utf8(payload: Seq<u8>)
    requires
        printable_ascii(payload),
    ensures
        valid_utf8(payload),
    decreases payload.len(),
{
    if payload.len() > 0 {
        let rest = payload.skip(1);
        assert(printable(payload[0]));
        assert forall|i: int| 0 <= i < rest.len() implies printable(#[trigger] rest[i]) by {
            assert(rest[i] == payload[i + 1]);
        }
        ascii_is_utf8(rest);
        let b = payload[0];
        assert(b & 0x80 == 0 && b <= 0x7f) by (bit_vector)
            requires
                0x20 <= b <= 0x7e,
        ;
        assert(vstd::utf8::pop_first_scalar(payload) =~= rest);
    }
}

/// Build the off-chain message envelope the **Ledger Solana app** expects.
///
/// The signer list is the part that matters most: the app derives the pubkey at
/// the requested path and rejects the message unless that pubkey is in the list.
/// The application domain is left all-zero, which the app displays as "Domain
/// not provided". The format byte follows from the payload, and a payload that
/// is not valid UTF-8 is refused here rather than at the device.
pub fn ledger_offchain_envelope(signer: &Pubkey, payload: &[u8]) -> (r: Result<
    Vec<u8>,
    SignerError,
>)
    ensures
        r is Ok <==> signable(payload@),
        r is Ok <==> 0 < payload@.len() <= 1130 && valid_utf8(payload@),
        r matches Ok(bytes) ==> bytes@ == envelope(signer@, payload@),
        r matches Err(e) ==> e@ == refusal(payload@),
{
    if payload.len() == 0 {
        return Err(SignerError::ConfigError(EMPTY_PAYLOAD.to_owned()));
    }
    if payload.len() > MAX_OFFCHAIN_PAYLOAD_LEN {
        let mut detail = PAYLOAD_IS.to_owned();
        detail.append(decimal_string(payload.len() as u64).as_str());
        detail.append(PAYLOAD_AT_MOST);
        detail.append(decimal_string(MAX_OFFCHAIN_PAYLOAD_LEN as u64).as_str());
        return Err(SignerError::ConfigError(detail));
    }
    let format: u8 = if is_printable_ascii(payload) {
        proof {
            ascii_is_utf8(payload@);
        }
        0
    } else if is_utf8(payload) {
        1
    } else {
        return Err(SignerError::ConfigError(PAYLOAD_NOT_UTF8.to_owned()));
    };

    let mut out: Vec<u8> = Vec::with_capacity(OFFCHAIN_HEADER_LEN_ONE_SIGNER + payload.len());
    out.extend_from_slice(crate_signing_domain());
    out.push(0);
    let application_domain: [u8; 32] = no_application_domain();
    out.extend_from_slice(application_domain.as_slice());
    out.push(format);
    out.push(1);
    let key: [u8; 32] = signer.to_bytes();
    out.extend_from_slice(key.as_slice());
    assert(out@ =~= preamble(signer@, format));
    out.push((payload.len() % 256) as u8);
    out.push((payload.len() / 256) as u8);
    out.extend_from_slice(payload);
    assert(out@ =~= envelope(signer@, payload@));
    Ok(out)
}

/// Where the app finds each field of an envelope, and that the whole still fits
/// what `solana-remote-wallet` will send. The format byte is 0 exactly if every
/// byte of the payload is printable ASCII, and 1 as soon as one is not.
pub proof fn envelope_layout(signer: Seq<u8>, payload: Seq<u8>)
    requires
        signer.len() == 32,
        signable(payload),
    ensures
        envelope(signer, payload).len() == 85 + payload.len(),
        envelope(signer, payload).len() == OFFCHAIN_HEADER_LEN_ONE_SIGNER + payload.len(),
        envelope(signer, payload).len() <= 1215,
        envelope(signer, payload).subrange(0, 16) == signing_domain(),
        envelope(signer, payload).subrange(0, 16) == seq![
            0xffu8, 0x73u8, 0x6fu8, 0x6cu8, 0x61u8, 0x6eu8, 0x61u8, 0x20u8,
            0x6fu8, 0x66u8, 0x66u8, 0x63u8, 0x68u8, 0x61u8, 0x69u8, 0x6eu8,
        ],
        envelope(signer, payload)[16] == 0,
        envelope(signer, payload).subrange(17, 49) == Seq::new(32, |i: int| 0u8),
        envelope(signer, payload)[49] == format_byte(payload),
        (forall|i: int| 0 <= i < payload.len() ==> 0x20 <= #[trigger] payload[i] <= 0x7e)
            ==> envelope(signer, payload)[49] == 0,
        (exists|i: int|
            0 <= i < payload.len() && ((#[trigger] payload[i]) < 0x20 || payload[i] > 0x7e))
            ==> envelope(signer, payload)[49] == 1,
        envelope(signer, payload)[50] == 1,
        envelope(signer, payload).subrange(51, 83) == signer,
        envelope(signer, payload)[83] == payload.len() % 256,
        envelope(signer, payload)[84] == payload.len() / 256,
        envelope(signer, payload)[83] + 256 * envelope(signer, payload)[84] == payload.len(),
        envelope(signer, payload).skip(85) == payload,
{
    let e = envelope(signer, payload);
    assert(e.subrange(0, 16) =~= signing_domain());
    assert(e.subrange(17, 49) =~= Seq::new(32, |i: int| 0u8));
    assert(e.subrange(51, 83) =~= signer);
    assert(e.skip(85) =~= payload);
    if exists|i: int|
        0 <= i < payload.len() && ((#[trigger] payload[i]) < 0x20 || payload[i] > 0x7e) {
        let i = choose|i: int|
            0 <= i < payload.len() && ((#[trigger] payload[i]) < 0x20 || payload[i] > 0x7e);
        assert(!printable(payload[i]));
    }
    if forall|i: int| 0 <= i < payload.len() ==> 0x20 <= #[trigger] payload[i] <= 0x7e {
        assert(printable_ascii(payload));
    }
}

/// A Ledger signs any text that is there and is not too long, in whatever script;
/// everything else is the caller's mistake, and the error says which one.
pub proof fn any_text_of_bearable_length_is_signable(payload: Seq<u8>)
    ensures
        signable(payload) <==> 0 < payload.len() <= 1130 && valid_utf8(payload),
        payload.len() == 0 ==> refusal(payload) == (ErrorView {
            kind: ErrorKind::ConfigError,
            detail: "off-chain message payload is empty; a Ledger will not sign it"@,
        }),
        payload.len() > 1130 ==> refusal(payload) == (ErrorView {
            kind: ErrorKind::ConfigError,
            detail: "off-chain message payload is "@ + decimal(payload.len())
                + " bytes; a Ledger accepts at most "@ + decimal(1130),
        }),
        0 < payload.len() <= 1130 ==> refusal(payload) == (ErrorView {
            kind: ErrorKind::ConfigError,
            detail: "off-chain message payload is not valid UTF-8; a Ledger will not sign it"@,
        }),
{
}

/// An envelope determines its signer and its payload: two different requests
/// never give the device the same bytes to sign.
pub proof fn envelope_is_injective(
    signer1: Seq<u8>,
    payload1: Seq<u8>,
    signer2: Seq<u8>,
    payload2: Seq<u8>,
)
    requires
        signer1.len() == 32,
        signer2.len() == 32,
        signable(payload1),
        signable(payload2),
        envelope(signer1, payload1) == envelope(signer2, payload2),
    ensures
        signer1 == signer2,
        payload1 == payload2,
{
    envelope_layout(signer1, payload1);
    envelope_layout(signer2, payload2);
}

/// What is signed is never the raw payload.
pub proof fn envelope_is_not_the_payload(signer: Seq<u8>, payload: Seq<u8>)
    requires
        signer.len() == 32,
    ensures
        envelope(signer, payload) != payload,
{
    assert(envelope(signer, payload).len() > payload.len());
}

} // verus!
