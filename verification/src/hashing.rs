//! SHA-256 over length-framed byte parts, and the hexadecimal renderings of
//! digests used in query hashes and log correlation keys.
use vstd::prelude::*;
use sha2::Digest;

use crate::text::{hex_lower, push_hex_lower};

verus! {

/// The SHA-256 digest of `data`, as computed by the `sha2` crate.
pub uninterp spec fn sha256(data: Seq<u8>) -> Seq<u8>;

/// Calls `sha2::Sha256::digest` on `data` and copies the 32-byte output into
/// a vector. The contract names the digest (`sha256`) and states its length,
/// which is the fixed output size of `Sha256` in the `sha2` source; nothing
/// else is stated about the digest's bytes.
#[verifier::external_body]
fn sha256_digest(data: &[u8]) -> (r: Vec<u8>)
    ensures
        r@ == sha256(data@),
        r@.len() == 32,
{
    sha2::Sha256::digest(data).to_vec()
}

/// The `k` low-order bytes of `n`, least significant first.
pub open spec fn le_bytes(n: nat, k: nat) -> Seq<u8>
    decreases k,
{
    if k == 0 {
        Seq::empty()
    } else {
        seq![(n % 256) as u8] + le_bytes(n / 256, (k - 1) as nat)
    }
}

/// One framed part: its length as a little-endian `u64`, then its bytes.
pub open spec fn framed(part: Seq<u8>) -> Seq<u8> {
    le_bytes(part.len(), 8) + part
}

/// Appends the eight little-endian bytes of `n` (`n.to_le_bytes()`).
pub fn push_le_u64(buf: &mut Vec<u8>, n: u64)
    ensures
        final(buf)@ == old(buf)@ + le_bytes(n as nat, 8),
{
    let ghost start = buf@;
    let mut v: u64 = n;
    let mut i: usize = 0;
    while i < 8
        invariant
            i <= 8,
            start + le_bytes(n as nat, 8) == buf@ + le_bytes(v as nat, (8 - i) as nat),
        decreases 8 - i,
    {
        let ghost before = buf@;
        assert(le_bytes(v as nat, (8 - i) as nat) == seq![(v % 256) as u8] + le_bytes(
            (v / 256) as nat,
            (8 - i - 1) as nat,
        ));
        buf.push((v % 256) as u8);
        assert(buf@ + le_bytes((v / 256) as nat, (8 - i - 1) as nat) =~= before + le_bytes(
            v as nat,
            (8 - i) as nat,
        ));
        v = v / 256;
        i = i + 1;
    }
    assert(buf@ + le_bytes(v as nat, 0) =~= buf@);
}

/// Appends one framed part: the part's byte length as a little-endian `u64`,
/// then the part itself.
pub fn push_framed(buf: &mut Vec<u8>, part: &[u8])
    ensures
        final(buf)@ == old(buf)@ + framed(part@),
{
    let ghost start = buf@;
    push_le_u64(buf, part.len() as u64);
    let ghost mid = buf@;
    let mut i: usize = 0;
    while i < part.len()
        invariant
            i <= part@.len(),
            mid == start + le_bytes(part@.len(), 8),
            buf@ == mid + part@.take(i as int),
        decreases part.len() - i,
    {
        buf.push(part[i]);
        assert(buf@ =~= mid + part@.take(i + 1));
        i = i + 1;
    }
    assert(part@.take(part@.len() as int) =~= part@);
    assert(buf@ =~= start + framed(part@));
}

/// The `sha256:`-prefixed lowercase hexadecimal rendering of a digest.
pub open spec fn hash_text(digest: Seq<u8>) -> Seq<char> {
    "sha256:"@ + hex_lower(digest)
}

/// Renders a digest as `sha256:` followed by two lowercase hex digits per byte.
pub fn format_hash(hash: &[u8]) -> (r: String)
    ensures
        r@ == hash_text(hash@),
{
    let mut out = String::from_str("sha256:");
    push_hex_lower(&mut out, hash);
    out
}

/// SHA-256 of `data`, rendered by [`format_hash`].
pub fn sha256_hash_text(data: &[u8]) -> (r: String)
    ensures
        r@ == hash_text(sha256(data@)),
        r@.len() == 71 && sha256(data@).len() == 32,
{
    let digest = sha256_digest(data);
    let r = format_hash(digest.as_slice());
    proof {
        lemma_hex_lower_len(digest@);
        reveal_strlit("sha256:");
    }
    r
}

/// The log correlation key of an SMT-LIB text: the first twelve bytes of the
/// SHA-256 of its UTF-8 bytes, in lowercase hexadecimal.
pub open spec fn spec_smtlib_hash(smtlib: Seq<char>) -> Seq<char> {
    hex_lower(sha256(vstd::utf8::encode_utf8(smtlib)).take(12))
}

/// First 12 bytes of SHA-256 over the SMT-LIB input, hex-encoded. Used for log
/// deduplication and telemetry correlation only; it is not the canonical query
/// hash of a report.
pub fn smtlib_hash(smtlib: &str) -> (r: String)
    ensures
        r@ == spec_smtlib_hash(smtlib@),
        r@.len() == 24,
        sha256(vstd::utf8::encode_utf8(smtlib@)).len() == 32 && r@ == hex_lower(
            sha256(vstd::utf8::encode_utf8(smtlib@)),
        ).take(24),
{
    let digest = sha256_digest(smtlib.as_bytes());
    let mut head: Vec<u8> = Vec::new();
    let mut i: usize = 0;
    while i < 12
        invariant
            i <= 12,
            digest@.len() == 32,
            head@ == digest@.take(i as int),
        decreases 12 - i,
    {
        head.push(digest[i]);
        assert(head@ =~= digest@.take(i + 1));
        i = i + 1;
    }
    let mut out = String::new();
    push_hex_lower(&mut out, head.as_slice());
    proof {
        lemma_hex_lower_len(head@);
        lemma_hex_lower_take(digest@, 12);
    }
    out
}

/// Two hexadecimal digits per byte.
pub proof fn lemma_hex_lower_len(bytes: Seq<u8>)
    ensures
        hex_lower(bytes).len() == 2 * bytes.len(),
    decreases bytes.len(),
{
    if bytes.len() > 0 {
        lemma_hex_lower_len(bytes.drop_last());
    }
}

/// The hexadecimal of the first `n` bytes is the first `2 * n` characters of
/// the hexadecimal of all of them.
pub proof fn lemma_hex_lower_take(bytes: Seq<u8>, n: int)
    requires
        0 <= n <= bytes.len(),
    ensures
        hex_lower(bytes.take(n)) == hex_lower(bytes).take(2 * n),
    decreases bytes.len(),
{
    lemma_hex_lower_len(bytes);
    if n == bytes.len() {
        assert(bytes.take(n) =~= bytes);
        assert(hex_lower(bytes).take(2 * n) =~= hex_lower(bytes));
    } else {
        let init = bytes.drop_last();
        lemma_hex_lower_take(init, n);
        lemma_hex_lower_len(init);
        assert(bytes.take(n) =~= init.take(n));
        assert(hex_lower(bytes).take(2 * n) =~= hex_lower(init).take(2 * n));
    }
}

/// `256` to the power `k`: the numbers that `k` little-endian bytes hold.
pub open spec fn byte_bound(k: nat) -> nat
    decreases k,
{
    if k == 0 {
        1
    } else {
        256 * byte_bound((k - 1) as nat)
    }
}

/// Eight bytes hold every number below `2^64`.
pub proof fn lemma_byte_bound_8()
    ensures
        byte_bound(8) == 0x1_0000_0000_0000_0000,
{
    reveal_with_fuel(byte_bound, 9);
}

/// `k` little-endian bytes are `k` bytes long.
pub proof fn lemma_le_bytes_len(n: nat, k: nat)
    ensures
        le_bytes(n, k).len() == k,
    decreases k,
{
    if k > 0 {
        lemma_le_bytes_len(n / 256, (k - 1) as nat);
    }
}

/// Numbers that fit in `k` bytes have distinct `k`-byte encodings.
pub proof fn lemma_le_bytes_injective(a: nat, b: nat, k: nat)
    requires
        a < byte_bound(k),
        b < byte_bound(k),
        le_bytes(a, k) == le_bytes(b, k),
    ensures
        a == b,
    decreases k,
{
    if k > 0 {
        let la = le_bytes(a, k);
        let lb = le_bytes(b, k);
        assert(la[0] == lb[0]);
        assert(la.drop_first() =~= le_bytes(a / 256, (k - 1) as nat));
        assert(lb.drop_first() =~= le_bytes(b / 256, (k - 1) as nat));
        lemma_le_bytes_injective(a / 256, b / 256, (k - 1) as nat);
    }
}

/// A framed part can be read back from the front of a byte sequence: equal
/// framed prefixes have equal parts and equal remainders.
pub proof fn lemma_framed_split(a: Seq<u8>, x: Seq<u8>, b: Seq<u8>, y: Seq<u8>)
    requires
        a.len() < 0x1_0000_0000_0000_0000,
        b.len() < 0x1_0000_0000_0000_0000,
        framed(a) + x == framed(b) + y,
    ensures
        a == b,
        x == y,
{
    lemma_byte_bound_8();
    lemma_le_bytes_len(a.len(), 8);
    lemma_le_bytes_len(b.len(), 8);
    let s = framed(a) + x;
    let t = framed(b) + y;
    assert(le_bytes(a.len(), 8) =~= s.subrange(0, 8));
    assert(le_bytes(b.len(), 8) =~= t.subrange(0, 8));
    lemma_le_bytes_injective(a.len(), b.len(), 8);
    let n = 8 + a.len();
    assert(a =~= s.subrange(8, n as int));
    assert(b =~= t.subrange(8, n as int));
    assert(x =~= s.subrange(n as int, s.len() as int));
    assert(y =~= t.subrange(n as int, t.len() as int));
}

/// UTF-8 takes at most four bytes per character.
pub proof fn lemma_encode_utf8_len(chars: Seq<char>)
    ensures
        vstd::utf8::encode_utf8(chars).len() <= 4 * chars.len(),
    decreases chars.len(),
{
    if chars.len() > 0 {
        lemma_encode_utf8_len(chars.drop_first());
    }
}

/// Five framed parts in a row are read back one by one.
pub proof fn lemma_five_framed_split(
    a1: Seq<u8>, a2: Seq<u8>, a3: Seq<u8>, a4: Seq<u8>, a5: Seq<u8>,
    b1: Seq<u8>, b2: Seq<u8>, b3: Seq<u8>, b4: Seq<u8>, b5: Seq<u8>,
)
    requires
        a1.len() < 0x1_0000_0000_0000_0000, a2.len() < 0x1_0000_0000_0000_0000,
        a3.len() < 0x1_0000_0000_0000_0000, a4.len() < 0x1_0000_0000_0000_0000,
        a5.len() < 0x1_0000_0000_0000_0000,
        b1.len() < 0x1_0000_0000_0000_0000, b2.len() < 0x1_0000_0000_0000_0000,
        b3.len() < 0x1_0000_0000_0000_0000, b4.len() < 0x1_0000_0000_0000_0000,
        b5.len() < 0x1_0000_0000_0000_0000,
        framed(a1) + framed(a2) + framed(a3) + framed(a4) + framed(a5)
            == framed(b1) + framed(b2) + framed(b3) + framed(b4) + framed(b5),
    ensures
        a1 == b1, a2 == b2, a3 == b3, a4 == b4, a5 == b5,
{
    let e: Seq<u8> = Seq::empty();
    let r4a = framed(a5) + e;
    let r4b = framed(b5) + e;
    let r3a = framed(a4) + framed(a5);
    let r3b = framed(b4) + framed(b5);
    let r2a = framed(a3) + r3a;
    let r2b = framed(b3) + r3b;
    let r1a = framed(a2) + r2a;
    let r1b = framed(b2) + r2b;
    assert(framed(a1) + framed(a2) + framed(a3) + framed(a4) + framed(a5) =~= framed(a1) + r1a);
    assert(framed(b1) + framed(b2) + framed(b3) + framed(b4) + framed(b5) =~= framed(b1) + r1b);
    lemma_framed_split(a1, r1a, b1, r1b);
    lemma_framed_split(a2, r2a, b2, r2b);
    lemma_framed_split(a3, r3a, b3, r3b);
    assert(framed(a5) =~= r4a);
    assert(framed(b5) =~= r4b);
    lemma_framed_split(a4, framed(a5), b4, framed(b5));
    lemma_framed_split(a5, e, b5, e);
}

} // verus!
