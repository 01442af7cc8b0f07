//! The HOTP token generator: decryption of a stored key through the oracle
//! stub, the big-endian moving-factor message, dynamic truncation of the
//! HMAC-SHA256 digest, and rendering of the token line.

use vstd::prelude::*;

verus! {

use vstd::string::StringSliceAdditionalSpecFns;
use crate::store::{KeyDigits, KeyState};
use crate::text::{
    push_decimal, push_padded_decimal, push_text, spec_decimal, spec_padded_decimal, spec_pow10,
};

/// A hard failure reported by the driver layer or a collaborator, carrying
/// the status it gave.
#[derive(Copy, Clone, Debug, PartialEq, Eq, Structural)]
pub struct DriverError {
    pub status: u32,
}

/// The two byte sequences an HMAC offload call is made over: the (decrypted)
/// key and the message.
pub struct HmacRequest {
    pub key: Vec<u8>,
    pub data: Vec<u8>,
}

/// Decryption oracle stub: hands the ciphertext back unchanged. A real
/// oracle would decrypt `src` under `iv`; wiring one up is an explicit
/// non-goal, so this stub never fails.
pub fn oracle_crypt(_iv: &[u8; 16], src: &[u8]) -> (r: Result<Vec<u8>, DriverError>)
    ensures
        r matches Ok(plain) && plain@ == src@,
{
    Ok(vstd::slice::slice_to_vec(src))
}

/// The moving factor encoded as 8 bytes, most significant first.
pub open spec fn spec_moving_factor_bytes(x: u64) -> Seq<u8> {
    seq![
        (x >> 56) as u8,
        (x >> 48) as u8,
        (x >> 40) as u8,
        (x >> 32) as u8,
        (x >> 24) as u8,
        (x >> 16) as u8,
        (x >> 8) as u8,
        x as u8,
    ]
}

pub fn moving_factor_bytes(x: u64) -> (r: Vec<u8>)
    ensures
        r@ == spec_moving_factor_bytes(x),
        r@.len() == 8,
{
    let mut r: Vec<u8> = Vec::new();
    r.push((x >> 56) as u8);
    r.push((x >> 48) as u8);
    r.push((x >> 40) as u8);
    r.push((x >> 32) as u8);
    r.push((x >> 24) as u8);
    r.push((x >> 16) as u8);
    r.push((x >> 8) as u8);
    r.push(x as u8);
    proof {
        assert(r@ =~= spec_moving_factor_bytes(x));
    }
    r
}

/// Dynamic-truncation offset: the low nibble of the digest's last byte.
pub open spec fn spec_truncation_offset(digest: Seq<u8>) -> int {
    (digest.last() & 0x0f) as int
}

/// The four digest bytes the token is assembled from, top bit of the first
/// one cleared.
pub open spec fn spec_truncation_window(digest: Seq<u8>) -> Seq<u8> {
    let off = spec_truncation_offset(digest);
    seq![(digest[off] & 0x7f) as u8, digest[off + 1], digest[off + 2], digest[off + 3]]
}

/// The 31-bit integer dynamic truncation takes from a digest: the window
/// bytes assembled most significant first.
pub open spec fn spec_truncated(digest: Seq<u8>) -> u32 {
    let w = spec_truncation_window(digest);
    ((w[0] as u32) << 24) | ((w[1] as u32) << 16) | ((w[2] as u32) << 8) | (w[3] as u32)
}

/// The token value for a digest: the truncated integer reduced modulo
/// `10^digits`.
pub open spec fn spec_token(digest: Seq<u8>, digits: KeyDigits) -> int {
    (spec_truncated(digest) as int) % spec_pow10(digits.spec_count() as nat)
}

/// Extracts the 31-bit dynamically truncated value from a 32-byte digest.
pub fn dynamic_truncate(digest: &[u8]) -> (r: u32)
    requires
        digest@.len() == 32,
    ensures
        r == spec_truncated(digest@),
        r < 0x8000_0000,
{
    let last = digest[31];
    let off = (last & 0x0f) as usize;
    proof {
        assert(last & 0x0f <= 0x0f) by (bit_vector);
    }
    let b0 = digest[off] & 0x7f;
    let b1 = digest[off + 1];
    let b2 = digest[off + 2];
    let b3 = digest[off + 3];
    let r: u32 = ((b0 as u32) << 24) | ((b1 as u32) << 16) | ((b2 as u32) << 8) | (b3 as u32);
    proof {
        let d = digest@[off as int];
        assert(d & 0x7f <= 0x7f) by (bit_vector);
        assert(r < 0x8000_0000) by (bit_vector)
            requires
                r == ((b0 as u32) << 24) | ((b1 as u32) << 16) | ((b2 as u32) << 8) | (b3 as u32),
                b0 <= 0x7f,
        ;
        assert(digest@.last() == last);
    }
    r
}

/// Reduces the truncated value to the slot's digit count.
pub fn token_value(digest: &[u8], digits: &KeyDigits) -> (r: u32)
    requires
        digest@.len() == 32,
    ensures
        r == spec_token(digest@, *digits),
        0 <= r < spec_pow10(digits.spec_count() as nat),
{
    let t = dynamic_truncate(digest);
    let m = digits.modulus();
    t % m
}

/// The token line as displayed for one generation: the moving factor that
/// produced the token, then the token zero-padded to the slot's digit count.
pub open spec fn spec_token_line(mf: u64, digest: Seq<u8>, digits: KeyDigits) -> Seq<u8> {
    "Token (moving factor = ".spec_bytes() + spec_decimal(mf as int) + "): ".spec_bytes()
        + spec_padded_decimal(spec_token(digest, digits), digits.spec_count() as nat)
        + "\r\n".spec_bytes()
}

/// Builds the HMAC request for one token generation: the key decrypted
/// through the oracle, and the moving factor as the 8-byte message.
pub fn gen_token_request(key: &KeyState) -> (r: Result<HmacRequest, DriverError>)
    requires
        key.wf(),
    ensures
        r matches Ok(req) && req.key@ == key.spec_key_bytes() && req.data@
            == spec_moving_factor_bytes(key.moving_factor),
{
    let enc = vstd::slice::slice_subrange(key.enc_key.as_slice(), 0, key.len);
    let plain = oracle_crypt(&key.iv, enc)?;
    let data = moving_factor_bytes(key.moving_factor);
    Ok(HmacRequest { key: plain, data })
}

/// Finishes one token generation from the completion the driver delivered:
/// on a zero result code the token line is rendered and the caller is told
/// to advance the moving factor; any other result code is a driver-reported
/// failure and aborts the generation.
pub fn gen_token_finish(key: &KeyState, result_code: u32, digest: &[u8]) -> (r: Result<
    (Vec<u8>, bool),
    DriverError,
>)
    requires
        key.wf(),
        digest@.len() == 32,
    ensures
        result_code == 0 ==> (r matches Ok(p) && p.0@ == spec_token_line(
            key.moving_factor,
            digest@,
            key.digits,
        ) && p.1 == true),
        result_code != 0 ==> (r matches Err(e) && e == (DriverError { status: result_code })),
{
    if result_code != 0 {
        return Err(DriverError { status: result_code });
    }
    let tok = token_value(digest, &key.digits);
    let mut out: Vec<u8> = Vec::new();
    push_text(&mut out, "Token (moving factor = ");
    push_decimal(&mut out, key.moving_factor);
    push_text(&mut out, "): ");
    push_padded_decimal(&mut out, tok, key.digits.count());
    push_text(&mut out, "\r\n");
    proof {
        assert(out@ =~= spec_token_line(key.moving_factor, digest@, key.digits));
    }
    Ok((out, true))
}

/// A token always lies below `10^digits`, and its rendering is a digit
/// string of exactly `digits` characters whose numeric value is the token.
pub proof fn lemma_token_digits(digest: Seq<u8>, digits: KeyDigits)
    ensures
        0 <= spec_token(digest, digits) < spec_pow10(digits.spec_count() as nat),
        spec_padded_decimal(spec_token(digest, digits), digits.spec_count() as nat).len()
            == digits.spec_count(),
        crate::text::spec_digits_value(
            spec_padded_decimal(spec_token(digest, digits), digits.spec_count() as nat),
        ) == spec_token(digest, digits),
{
    crate::text::lemma_pow10_pos(digits.spec_count() as nat);
    crate::text::lemma_padded_decimal_len(
        spec_token(digest, digits),
        digits.spec_count() as nat,
    );
    crate::text::lemma_padded_decimal_value(
        spec_token(digest, digits),
        digits.spec_count() as nat,
    );
}

/// Truncation is a function of the digest alone: equal digests give the
/// same offset, the same four-byte window and the same token, on every run.
pub proof fn lemma_truncation_deterministic(d1: Seq<u8>, d2: Seq<u8>, digits: KeyDigits)
    requires
        d1 == d2,
    ensures
        spec_truncation_offset(d1) == spec_truncation_offset(d2),
        spec_truncation_window(d1) == spec_truncation_window(d2),
        spec_truncated(d1) == spec_truncated(d2),
        spec_token(d1, digits) == spec_token(d2, digits),
{
}

/// A slot that was reset behaves as a freshly provisioned slot: with the
/// same key material and both moving factors at zero, the HMAC request and
/// the token line for any digest coincide.
pub proof fn lemma_reset_matches_fresh(a: KeyState, b: KeyState, digest: Seq<u8>)
    requires
        a.len == b.len,
        a.enc_key == b.enc_key,
        a.iv == b.iv,
        a.digits == b.digits,
        a.moving_factor == 0,
        b.moving_factor == 0,
    ensures
        a.spec_key_bytes() == b.spec_key_bytes(),
        spec_moving_factor_bytes(a.moving_factor) == spec_moving_factor_bytes(b.moving_factor),
        spec_token_line(a.moving_factor, digest, a.digits) == spec_token_line(
            b.moving_factor,
            digest,
            b.digits,
        ),
{
}

} // verus!
