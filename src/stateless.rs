//! Stateless verification: the solution and an expiry, signed with a
//! caller's secret into a portable token, and the check of a guess
//! against such a token without any stored record.
//!
//! A token is the URL-safe base64 text (no padding) of
//! `expiry (8 bytes, big-endian) ++ length (8 bytes, big-endian) ++ solution ++ tag`,
//! where the solution is lower-cased (Unicode) as UTF-8 and the tag is HMAC-SHA256
//! under the secret of everything before it.
use base64::engine::general_purpose;
use base64::Engine;
use hmac::{Hmac, Mac};
use sha2::Sha256;
use vstd::prelude::*;
use vstd::string::StringSliceAdditionalSpecFns;
use vstd::utf8::{encode_utf8, encode_utf8_decode_utf8};

verus! {

/// HMAC-SHA256 of `msg` under `key`.
pub uninterp spec fn hmac_sha256_of(key: Seq<u8>, msg: Seq<u8>) -> Seq<u8>;

/// The Unicode lower-case form of a text.
pub uninterp spec fn lower_of(s: Seq<char>) -> Seq<char>;

/// The URL-safe base64 text, without padding, of some bytes.
pub uninterp spec fn base64_url_of(bytes: Seq<u8>) -> Seq<char>;

/// Relies on hmac's `Hmac<Sha256>`: `new_from_slice` takes a key of any
/// length, and `finalize` gives the 32-byte tag.
#[verifier::external_body]
fn hmac_sha256(key: &[u8], msg: &[u8]) -> (r: Vec<u8>)
    ensures
        r@ == hmac_sha256_of(key@, msg@),
{
    let mut mac = Hmac::<Sha256>::new_from_slice(key).unwrap();
    mac.update(msg);
    mac.finalize().into_bytes().to_vec()
}

/// Relies on hmac's `verify_slice`: `Ok` exactly when `tag` is the full
/// HMAC-SHA256 of `msg` under `key`, compared in constant time.
#[verifier::external_body]
fn hmac_sha256_matches(key: &[u8], msg: &[u8], tag: &[u8]) -> (r: bool)
    ensures
        r == (tag@ == hmac_sha256_of(key@, msg@)),
{
    let mut mac = Hmac::<Sha256>::new_from_slice(key).unwrap();
    mac.update(msg);
    mac.verify_slice(tag).is_ok()
}

/// Relies on base64's `URL_SAFE_NO_PAD` engine `encode`.
#[verifier::external_body]
fn encode_base64_url(bytes: &Vec<u8>) -> (r: String)
    ensures
        r@ == base64_url_of(bytes@),
{
    general_purpose::URL_SAFE_NO_PAD.encode(bytes)
}

/// Relies on base64's `URL_SAFE_NO_PAD` engine `decode`, which takes only
/// canonical text (no padding, no stray trailing bits): it gives back the
/// bytes whose text `s` is, and fails on text that is no such encoding.
#[verifier::external_body]
fn decode_base64_url(s: &str) -> (r: Option<Vec<u8>>)
    ensures
        r matches Some(v) ==> base64_url_of(v@) == s@,
        r matches Some(v) ==> forall|b: Seq<u8>| base64_url_of(b) == s@ ==> v@ == b,
        r is None ==> forall|b: Seq<u8>| base64_url_of(b) != s@,
{
    general_purpose::URL_SAFE_NO_PAD.decode(s).ok()
}

/// Relies on std's `str::to_lowercase`: the lower-case form under Unicode's
/// case mapping, which depends on the characters alone.
#[verifier::external_body]
fn lowercase(s: &str) -> (r: String)
    ensures
        r@ == lower_of(s@),
{
    s.to_lowercase()
}

/// Relies on std's `SystemTime::now`: whole seconds since the Unix epoch,
/// 0 for a clock set before it.
#[verifier::external_body]
fn now_secs() -> (r: u64) {
    std::time::SystemTime::now().duration_since(std::time::UNIX_EPOCH).map(|d| d.as_secs()).unwrap_or(0)
}

/// The eight big-endian bytes of `v`.
pub open spec fn be_bytes(v: u64) -> Seq<u8> {
    seq![
        (v >> 56u64) as u8, (v >> 48u64) as u8, (v >> 40u64) as u8, (v >> 32u64) as u8,
        (v >> 24u64) as u8, (v >> 16u64) as u8, (v >> 8u64) as u8, v as u8,
    ]
}

/// The number that eight big-endian bytes, from `at` on, stand for.
pub open spec fn be_value(b: Seq<u8>, at: int) -> u64 {
    (b[at] as u64) << 56u64 | (b[at + 1] as u64) << 48u64 | (b[at + 2] as u64) << 40u64
        | (b[at + 3] as u64) << 32u64 | (b[at + 4] as u64) << 24u64 | (b[at + 5] as u64) << 16u64
        | (b[at + 6] as u64) << 8u64 | (b[at + 7] as u64)
}

/// The lower-cased solution as it stands in a token.
pub open spec fn folded(solution: Seq<char>) -> Seq<u8> {
    encode_utf8(lower_of(solution))
}

/// What the tag covers: expiry, solution length and the lower-cased solution.
pub open spec fn token_payload(solution: Seq<char>, expires_at: u64) -> Seq<u8> {
    be_bytes(expires_at) + be_bytes(folded(solution).len() as u64) + folded(solution)
}

/// The bytes of the token for `solution`, valid up to `expires_at`, signed with `secret`.
pub open spec fn token_bytes(solution: Seq<char>, expires_at: u64, secret: Seq<u8>) -> Seq<u8> {
    token_payload(solution, expires_at) + hmac_sha256_of(secret, token_payload(solution, expires_at))
}

/// The verdict on decoded token bytes: `None` where they are too short or
/// their tag is not the one `secret` gives; otherwise whether the token
/// has not expired at `now` and `candidate`, lower-cased, is its solution.
pub open spec fn verdict_of_bytes(b: Seq<u8>, candidate: Seq<char>, secret: Seq<u8>, now: u64) -> Option<bool> {
    if b.len() < 16 {
        None
    } else {
        let n = be_value(b, 8) as int;
        if b.len() < 16 + n {
            None
        } else if b.subrange(16 + n, b.len() as int) != hmac_sha256_of(secret, b.subrange(0, 16 + n)) {
            None
        } else {
            Some(now <= be_value(b, 0) && folded(candidate) == b.subrange(16, 16 + n))
        }
    }
}

/// What `verify_at` gives for `token` at `now`: the verdict on the bytes of
/// which the token is the text, and `None` where it is the text of none.
pub open spec fn judged(r: Option<bool>, token: Seq<char>, candidate: Seq<char>, secret: Seq<u8>, now: u64) -> bool {
    &&& forall|b: Seq<u8>| base64_url_of(b) == token ==> r == #[trigger] verdict_of_bytes(b, candidate, secret, now)
    &&& (forall|b: Seq<u8>| base64_url_of(b) != token) ==> r is None
}

pub proof fn lemma_be_round_trip(v: u64)
    ensures
        be_value(be_bytes(v), 0) == v,
{
    let b = be_bytes(v);
    assert(((v >> 56u64) as u8 as u64) << 56u64 | ((v >> 48u64) as u8 as u64) << 48u64
        | ((v >> 40u64) as u8 as u64) << 40u64 | ((v >> 32u64) as u8 as u64) << 32u64
        | ((v >> 24u64) as u8 as u64) << 24u64 | ((v >> 16u64) as u8 as u64) << 16u64
        | ((v >> 8u64) as u8 as u64) << 8u64 | (v as u8 as u64) == v) by (bit_vector);
}

/// Appends the eight big-endian bytes of `v`.
fn push_be(out: &mut Vec<u8>, v: u64)
    ensures
        final(out)@ == old(out)@ + be_bytes(v),
{
    out.push((v >> 56u64) as u8);
    out.push((v >> 48u64) as u8);
    out.push((v >> 40u64) as u8);
    out.push((v >> 32u64) as u8);
    out.push((v >> 24u64) as u8);
    out.push((v >> 16u64) as u8);
    out.push((v >> 8u64) as u8);
    out.push(v as u8);
    assert(final(out)@ =~= old(out)@ + be_bytes(v));
}

/// The number that the eight big-endian bytes of `b` from `at` on stand for.
fn read_be(b: &[u8], at: usize) -> (r: u64)
    requires
        at + 8 <= b@.len(),
    ensures
        r == be_value(b@, at as int),
{
    (b[at] as u64) << 56u64 | (b[at + 1] as u64) << 48u64 | (b[at + 2] as u64) << 40u64
        | (b[at + 3] as u64) << 32u64 | (b[at + 4] as u64) << 24u64 | (b[at + 5] as u64) << 16u64
        | (b[at + 6] as u64) << 8u64 | (b[at + 7] as u64)
}

/// Appends the bytes of `s`.
fn push_all(out: &mut Vec<u8>, s: &[u8])
    ensures
        final(out)@ == old(out)@ + s@,
{
    let ghost start = out@;
    let mut i: usize = 0;
    while i < s.len()
        invariant
            i <= s@.len(),
            out@ == start + s@.subrange(0, i as int),
        decreases s@.len() - i,
    {
        out.push(s[i]);
        i += 1;
        assert(out@ =~= start + s@.subrange(0, i as int));
    }
    assert(s@.subrange(0, s@.len() as int) =~= s@);
}

/// Whether two byte strings are equal.
fn bytes_equal(a: &[u8], b: &[u8]) -> (r: bool)
    ensures
        r == (a@ == b@),
{
    if a.len() != b.len() {
        return false;
    }
    let mut i: usize = 0;
    while i < a.len()
        invariant
            a@.len() == b@.len(),
            i <= a@.len(),
            forall|j: int| 0 <= j < i ==> a@[j] == b@[j],
        decreases a@.len() - i,
    {
        if a[i] != b[i] {
            return false;
        }
        i += 1;
    }
    assert(a@ =~= b@);
    true
}

/// The token for `solution`, valid up to the second `expires_at` (since the
/// Unix epoch) and signed with `secret`.
pub fn sign_at(solution: &str, expires_at: u64, secret: &str) -> (token: String)
    ensures
        token@ == base64_url_of(token_bytes(solution@, expires_at, secret.spec_bytes())),
{
    let lowered = lowercase(solution);
    let sol = lowered.as_str().as_bytes();
    let mut bytes: Vec<u8> = Vec::new();
    push_be(&mut bytes, expires_at);
    push_be(&mut bytes, sol.len() as u64);
    push_all(&mut bytes, sol);
    let tag = hmac_sha256(secret.as_bytes(), bytes.as_slice());
    push_all(&mut bytes, tag.as_slice());
    encode_base64_url(&bytes)
}

/// The token for `solution`, valid for `ttl` seconds from now (the expiry
/// saturates at the largest time), signed with `secret`.
pub fn sign(solution: &str, ttl: u64, secret: &str) -> (token: String)
    ensures
        exists|issued_at: u64|
            token@ == base64_url_of(token_bytes(solution@, #[trigger] issued_at.saturating_add(ttl), secret.spec_bytes())),
{
    let now = now_secs();
    let expires_at = now.saturating_add(ttl);
    let token = sign_at(solution, expires_at, secret);
    assert(token@ == base64_url_of(token_bytes(solution@, now.saturating_add(ttl), secret.spec_bytes())));
    token
}

/// The check of `candidate` against `token` at the second `now`: `None`
/// where the token is not one that `secret` signed (not base64, cut short,
/// or a tag that does not match); otherwise `Some` of whether the token has
/// not expired and `candidate`, compared without regard to case, is its
/// solution.
pub fn verify_at(token: &str, candidate: &str, secret: &str, now: u64) -> (r: Option<bool>)
    ensures
        judged(r, token@, candidate@, secret.spec_bytes(), now),
{
    let decoded = decode_base64_url(token);
    let bytes = match decoded {
        Some(v) => v,
        None => return None,
    };
    if bytes.len() < 16 {
        return None;
    }
    let n = read_be(bytes.as_slice(), 8);
    if ((bytes.len() - 16) as u64) < n {
        return None;
    }
    let end: usize = 16 + n as usize;
    if !hmac_sha256_matches(secret.as_bytes(), &bytes.as_slice()[0..end], &bytes.as_slice()[end..bytes.len()]) {
        return None;
    }
    let expires_at = read_be(bytes.as_slice(), 0);
    let lowered = lowercase(candidate);
    let same = bytes_equal(lowered.as_str().as_bytes(), &bytes.as_slice()[16..end]);
    Some(now <= expires_at && same)
}

/// The check of `candidate` against `token` now; see `verify_at`.
pub fn verify(token: &str, candidate: &str, secret: &str) -> (r: Option<bool>)
    ensures
        exists|now: u64| #[trigger] judged(r, token@, candidate@, secret.spec_bytes(), now),
{
    let now = now_secs();
    let r = verify_at(token, candidate, secret, now);
    assert(judged(r, token@, candidate@, secret.spec_bytes(), now));
    r
}

/// Reading back the fields of a token's bytes.
proof fn lemma_token_fields(solution: Seq<char>, expires_at: u64, secret: Seq<u8>)
    requires
        folded(solution).len() <= u64::MAX,
    ensures
        ({
            let b = token_bytes(solution, expires_at, secret);
            let n = folded(solution).len() as int;
            &&& b.len() >= 16 + n
            &&& be_value(b, 0) == expires_at
            &&& be_value(b, 8) as int == n
            &&& b.subrange(0, 16 + n) == token_payload(solution, expires_at)
            &&& b.subrange(16 + n, b.len() as int) == hmac_sha256_of(secret, token_payload(solution, expires_at))
            &&& b.subrange(16, 16 + n) == folded(solution)
        }),
{
    let p = token_payload(solution, expires_at);
    let b = token_bytes(solution, expires_at, secret);
    let f = folded(solution);
    let n = f.len() as int;
    lemma_be_round_trip(expires_at);
    lemma_be_round_trip(f.len() as u64);
    let e = be_bytes(expires_at);
    let l = be_bytes(f.len() as u64);
    assert(p.len() == 16 + n);
    assert forall|i: int| 0 <= i < 8 implies b[i] == e[i] && b[8 + i] == l[i] by {
        assert(b[i] == p[i]);
        assert(b[8 + i] == p[8 + i]);
    }
    assert(be_value(b, 0) == be_value(e, 0));
    assert(be_value(b, 8) == be_value(l, 0));
    assert(b.subrange(0, 16 + n) =~= p);
    assert(b.subrange(16 + n, b.len() as int) =~= hmac_sha256_of(secret, p));
    assert(b.subrange(16, 16 + n) =~= f);
}

/// Texts with the same UTF-8 bytes are the same text.
proof fn lemma_encode_utf8_injective(a: Seq<char>, b: Seq<char>)
    ensures
        encode_utf8(a) == encode_utf8(b) <==> a == b,
{
    encode_utf8_decode_utf8(a);
    encode_utf8_decode_utf8(b);
}

/// A token signed with `secret` is judged, with that same secret, by its
/// expiry and its solution alone: before or at `expires_at` a candidate is
/// accepted exactly when its lower-case form is the solution's; after
/// `expires_at` every candidate is refused. So a guess whose lower-case
/// form differs is refused, and the lower-cased solution itself is
/// accepted until the token expires wherever lower-casing it again leaves
/// it as it is.
///
/// `sign_at` gives the base64 text of these bytes, and `verify_at` judges a
/// token by the bytes of which it is the text, so the same holds of
/// `verify_at` on what `sign_at` returned.
pub proof fn lemma_signed_token_verdict(
    solution: Seq<char>,
    candidate: Seq<char>,
    secret: Seq<u8>,
    expires_at: u64,
    now: u64,
)
    requires
        folded(solution).len() <= u64::MAX,
    ensures
        verdict_of_bytes(token_bytes(solution, expires_at, secret), candidate, secret, now)
            == Some(now <= expires_at && lower_of(candidate) == lower_of(solution)),
        lower_of(lower_of(solution)) == lower_of(solution) ==> verdict_of_bytes(
            token_bytes(solution, expires_at, secret),
            lower_of(solution),
            secret,
            now,
        ) == Some(now <= expires_at),
{
    lemma_token_fields(solution, expires_at, secret);
    lemma_encode_utf8_injective(lower_of(candidate), lower_of(solution));
    lemma_encode_utf8_injective(lower_of(lower_of(solution)), lower_of(solution));
}

/// A token judged with a secret other than the one that signed it is
/// undecodable: never accepted, never merely refused. This holds wherever
/// the two secrets give different tags for the token's contents, which is
/// what HMAC-SHA256 is for; it fails for secrets that HMAC treats alike, such
/// as a secret and the same secret followed by zero bytes (keys are padded
/// with zeros to the block size).
pub proof fn lemma_other_secret_undecodable(
    solution: Seq<char>,
    candidate: Seq<char>,
    secret: Seq<u8>,
    other: Seq<u8>,
    expires_at: u64,
    now: u64,
)
    requires
        folded(solution).len() <= u64::MAX,
        hmac_sha256_of(other, token_payload(solution, expires_at))
            != hmac_sha256_of(secret, token_payload(solution, expires_at)),
    ensures
        verdict_of_bytes(token_bytes(solution, expires_at, secret), candidate, other, now) is None,
{
    lemma_token_fields(solution, expires_at, secret);
}

} // verus!
