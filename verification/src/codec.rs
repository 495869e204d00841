//! Byte-level model of the packed public-area encoding.
//!
//! The packed payload is a fixed header (object type, name algorithm,
//! attributes) followed by two length-prefixed variable fields (auth policy
//! digest, unique public-key material), all big-endian. `encode_public_area`
//! and `parse_public_area` are the specification the executable code is
//! proved against; parsing is strict, so it accepts exactly the canonical
//! encodings of valid public areas.

use vstd::prelude::*;

verus! {

/// Object type: RSA key.
pub const TPM2_ALG_RSA: u16 = 0x0001;
/// Name algorithm: SHA-1.
pub const TPM2_ALG_SHA1: u16 = 0x0004;
/// Object type: keyed hash object.
pub const TPM2_ALG_KEYEDHASH: u16 = 0x0008;
/// Name algorithm: SHA-256.
pub const TPM2_ALG_SHA256: u16 = 0x000B;
/// Name algorithm: SHA-384.
pub const TPM2_ALG_SHA384: u16 = 0x000C;
/// Name algorithm: SHA-512.
pub const TPM2_ALG_SHA512: u16 = 0x000D;
/// Object type: ECC key.
pub const TPM2_ALG_ECC: u16 = 0x0023;
/// Object type: symmetric cipher object.
pub const TPM2_ALG_SYMCIPHER: u16 = 0x0025;

/// Largest auth-policy digest carried by a public area.
pub const MAX_AUTH_POLICY_SIZE: usize = 64;
/// Largest unique (public key material) field carried by a public area.
pub const MAX_UNIQUE_SIZE: usize = 256;

/// Mathematical view of one public area: the fields the packed encoding
/// carries, with the variable fields as byte sequences.
#[verifier::ext_equal]
pub struct PublicAreaView {
    pub object_type: u16,
    pub name_alg: u16,
    pub attributes: u32,
    pub auth_policy: Seq<u8>,
    pub unique: Seq<u8>,
}

pub open spec fn known_object_type(alg: u16) -> bool {
    alg == TPM2_ALG_RSA || alg == TPM2_ALG_KEYEDHASH || alg == TPM2_ALG_ECC
        || alg == TPM2_ALG_SYMCIPHER
}

pub open spec fn known_name_alg(alg: u16) -> bool {
    alg == TPM2_ALG_SHA1 || alg == TPM2_ALG_SHA256 || alg == TPM2_ALG_SHA384
        || alg == TPM2_ALG_SHA512
}

/// A public area the structured value accepts: known algorithms and
/// variable fields within their fixed bounds.
pub open spec fn valid_public_area(p: PublicAreaView) -> bool {
    &&& known_object_type(p.object_type)
    &&& known_name_alg(p.name_alg)
    &&& p.auth_policy.len() <= MAX_AUTH_POLICY_SIZE
    &&& p.unique.len() <= MAX_UNIQUE_SIZE
}

/// Big-endian bytes of a 16-bit value.
pub open spec fn be16_seq(x: u16) -> Seq<u8> {
    seq![(x >> 8) as u8, x as u8]
}

/// 16-bit value of two big-endian bytes.
pub open spec fn be16_val(s: Seq<u8>) -> u16
    recommends
        s.len() == 2,
{
    ((s[0] as u16) << 8) | (s[1] as u16)
}

/// Big-endian bytes of a 32-bit value.
pub open spec fn be32_seq(x: u32) -> Seq<u8> {
    seq![(x >> 24) as u8, (x >> 16) as u8, (x >> 8) as u8, x as u8]
}

/// 32-bit value of four big-endian bytes.
pub open spec fn be32_val(s: Seq<u8>) -> u32
    recommends
        s.len() == 4,
{
    ((s[0] as u32) << 24) | ((s[1] as u32) << 16) | ((s[2] as u32) << 8) | (s[3] as u32)
}

/// The canonical packed encoding of a public area.
pub open spec fn encode_public_area(p: PublicAreaView) -> Seq<u8> {
    be16_seq(p.object_type) + be16_seq(p.name_alg) + be32_seq(p.attributes)
        + be16_seq(p.auth_policy.len() as u16) + p.auth_policy
        + be16_seq(p.unique.len() as u16) + p.unique
}

/// Strict parse of a packed public area: consumes the whole input and
/// accepts only valid areas, so it succeeds exactly on canonical encodings.
pub open spec fn parse_public_area(s: Seq<u8>) -> Option<PublicAreaView> {
    if s.len() < 12 {
        None
    } else {
        let policy_len = be16_val(s.subrange(8, 10)) as int;
        if s.len() < 12 + policy_len {
            None
        } else {
            let unique_len = be16_val(s.subrange(10 + policy_len, 12 + policy_len)) as int;
            if s.len() != 12 + policy_len + unique_len {
                None
            } else {
                let p = PublicAreaView {
                    object_type: be16_val(s.subrange(0, 2)),
                    name_alg: be16_val(s.subrange(2, 4)),
                    attributes: be32_val(s.subrange(4, 8)),
                    auth_policy: s.subrange(10, 10 + policy_len),
                    unique: s.subrange(12 + policy_len, 12 + policy_len + unique_len),
                };
                if valid_public_area(p) {
                    Some(p)
                } else {
                    None
                }
            }
        }
    }
}

pub proof fn lemma_be16_round_trip(x: u16)
    ensures
        be16_val(be16_seq(x)) == x,
{
    assert((((x >> 8) as u8 as u16) << 8) | (x as u8 as u16) == x) by (bit_vector);
}

pub proof fn lemma_be16_canonical(s: Seq<u8>)
    requires
        s.len() == 2,
    ensures
        be16_seq(be16_val(s)) == s,
{
    let b0 = s[0];
    let b1 = s[1];
    assert(((((b0 as u16) << 8) | (b1 as u16)) >> 8) as u8 == b0) by (bit_vector);
    assert((((b0 as u16) << 8) | (b1 as u16)) as u8 == b1) by (bit_vector);
    assert(be16_seq(be16_val(s)) =~= s);
}

pub proof fn lemma_be32_round_trip(x: u32)
    ensures
        be32_val(be32_seq(x)) == x,
{
    assert((((x >> 24) as u8 as u32) << 24) | (((x >> 16) as u8 as u32) << 16)
        | (((x >> 8) as u8 as u32) << 8) | (x as u8 as u32) == x) by (bit_vector);
}

pub proof fn lemma_be32_canonical(s: Seq<u8>)
    requires
        s.len() == 4,
    ensures
        be32_seq(be32_val(s)) == s,
{
    let b0 = s[0];
    let b1 = s[1];
    let b2 = s[2];
    let b3 = s[3];
    let v = ((b0 as u32) << 24) | ((b1 as u32) << 16) | ((b2 as u32) << 8) | (b3 as u32);
    assert((((b0 as u32) << 24) | ((b1 as u32) << 16) | ((b2 as u32) << 8) | (b3 as u32)) >> 24
        == b0 as u32) by (bit_vector);
    assert(((((b0 as u32) << 24) | ((b1 as u32) << 16) | ((b2 as u32) << 8) | (b3 as u32)) >> 16)
        as u8 == b1) by (bit_vector);
    assert(((((b0 as u32) << 24) | ((b1 as u32) << 16) | ((b2 as u32) << 8) | (b3 as u32)) >> 8)
        as u8 == b2) by (bit_vector);
    assert((((b0 as u32) << 24) | ((b1 as u32) << 16) | ((b2 as u32) << 8) | (b3 as u32)) as u8
        == b3) by (bit_vector);
    assert(be32_seq(be32_val(s)) =~= s);
}

/// The packed encoding of a valid public area is its header plus the two
/// variable fields, and stays within the fixed-layout bound by a wide margin.
pub proof fn lemma_encode_len(p: PublicAreaView)
    requires
        valid_public_area(p),
    ensures
        encode_public_area(p).len() == 12 + p.auth_policy.len() + p.unique.len(),
        encode_public_area(p).len() <= 12 + MAX_AUTH_POLICY_SIZE + MAX_UNIQUE_SIZE,
{
}

/// Round trip through the structured representation: parsing the canonical
/// encoding of any valid public area yields that area back.
pub proof fn lemma_public_area_round_trip(p: PublicAreaView)
    requires
        valid_public_area(p),
    ensures
        parse_public_area(encode_public_area(p)) == Some(p),
{
    let s = encode_public_area(p);
    let pl = p.auth_policy.len() as int;
    let ul = p.unique.len() as int;
    lemma_encode_len(p);
    assert(s.subrange(0, 2) =~= be16_seq(p.object_type));
    assert(s.subrange(2, 4) =~= be16_seq(p.name_alg));
    assert(s.subrange(4, 8) =~= be32_seq(p.attributes));
    assert(s.subrange(8, 10) =~= be16_seq(pl as u16));
    assert(s.subrange(10, 10 + pl) =~= p.auth_policy);
    assert(s.subrange(10 + pl, 12 + pl) =~= be16_seq(ul as u16));
    assert(s.subrange(12 + pl, 12 + pl + ul) =~= p.unique);
    lemma_be16_round_trip(p.object_type);
    lemma_be16_round_trip(p.name_alg);
    lemma_be32_round_trip(p.attributes);
    lemma_be16_round_trip(pl as u16);
    lemma_be16_round_trip(ul as u16);
}

/// Parsing is canonical: it succeeds only on the exact encoding of a valid
/// public area, so a parsed buffer re-encodes to the same bytes.
pub proof fn lemma_parse_canonical(s: Seq<u8>, p: PublicAreaView)
    requires
        parse_public_area(s) == Some(p),
    ensures
        valid_public_area(p),
        encode_public_area(p) == s,
        s.len() == 12 + p.auth_policy.len() + p.unique.len(),
{
    let pl = be16_val(s.subrange(8, 10)) as int;
    let ul = be16_val(s.subrange(10 + pl, 12 + pl)) as int;
    lemma_be16_canonical(s.subrange(0, 2));
    lemma_be16_canonical(s.subrange(2, 4));
    lemma_be32_canonical(s.subrange(4, 8));
    lemma_be16_canonical(s.subrange(8, 10));
    lemma_be16_canonical(s.subrange(10 + pl, 12 + pl));
    assert(encode_public_area(p) =~= s);
}

/// Whether `alg` is an object type the structured value accepts.
pub fn is_known_object_type(alg: u16) -> (r: bool)
    ensures
        r == known_object_type(alg),
{
    alg == TPM2_ALG_RSA || alg == TPM2_ALG_KEYEDHASH || alg == TPM2_ALG_ECC
        || alg == TPM2_ALG_SYMCIPHER
}

/// Whether `alg` is a name (hash) algorithm the structured value accepts.
pub fn is_known_name_alg(alg: u16) -> (r: bool)
    ensures
        r == known_name_alg(alg),
{
    alg == TPM2_ALG_SHA1 || alg == TPM2_ALG_SHA256 || alg == TPM2_ALG_SHA384
        || alg == TPM2_ALG_SHA512
}

/// Append a 16-bit value in big-endian order.
pub fn push_be16(out: &mut Vec<u8>, x: u16)
    ensures
        final(out)@ == old(out)@ + be16_seq(x),
{
    out.push((x >> 8) as u8);
    out.push((x & 0xFF) as u8);
    proof {
        assert((x & 0xFF) as u8 == x as u8) by (bit_vector);
        assert(out@ =~= old(out)@ + be16_seq(x));
    }
}

/// Append a 32-bit value in big-endian order.
pub fn push_be32(out: &mut Vec<u8>, x: u32)
    ensures
        final(out)@ == old(out)@ + be32_seq(x),
{
    out.push((x >> 24) as u8);
    out.push(((x >> 16) & 0xFF) as u8);
    out.push(((x >> 8) & 0xFF) as u8);
    out.push((x & 0xFF) as u8);
    proof {
        assert(((x >> 16) & 0xFF) as u8 == (x >> 16) as u8) by (bit_vector);
        assert(((x >> 8) & 0xFF) as u8 == (x >> 8) as u8) by (bit_vector);
        assert((x & 0xFF) as u8 == x as u8) by (bit_vector);
        assert(out@ =~= old(out)@ + be32_seq(x));
    }
}

/// Whether two byte slices hold the same bytes.
pub fn bytes_equal(a: &[u8], b: &[u8]) -> (r: bool)
    ensures
        r == (a@ == b@),
{
    let n: usize = a.len();
    if n != b.len() {
        proof {
            assert(a@ != b@);
        }
        return false;
    }
    let mut i: usize = 0;
    while i < n
        invariant
            i <= n,
            n == a@.len() == b@.len(),
            forall|j: int| 0 <= j < i ==> a@[j] == b@[j],
        decreases n - i,
    {
        if *vstd::slice::slice_index_get(a, i) != *vstd::slice::slice_index_get(b, i) {
            proof {
                assert(a@[i as int] != b@[i as int]);
            }
            return false;
        }
        i = i + 1;
    }
    proof {
        assert(a@ =~= b@);
    }
    true
}

/// Read a big-endian 16-bit value at offset `i`.
pub fn read_be16(s: &[u8], i: usize) -> (r: u16)
    requires
        i + 2 <= s@.len(),
    ensures
        r == be16_val(s@.subrange(i as int, i as int + 2)),
{
    let n: usize = s.len();
    assert(i + 2 <= n);
    let b0 = *vstd::slice::slice_index_get(s, i);
    let b1 = *vstd::slice::slice_index_get(s, i + 1);
    ((b0 as u16) << 8) | (b1 as u16)
}

/// Read a big-endian 32-bit value at offset `i`.
pub fn read_be32(s: &[u8], i: usize) -> (r: u32)
    requires
        i + 4 <= s@.len(),
    ensures
        r == be32_val(s@.subrange(i as int, i as int + 4)),
{
    let n: usize = s.len();
    assert(i + 4 <= n);
    let b0 = *vstd::slice::slice_index_get(s, i);
    let b1 = *vstd::slice::slice_index_get(s, i + 1);
    let b2 = *vstd::slice::slice_index_get(s, i + 2);
    let b3 = *vstd::slice::slice_index_get(s, i + 3);
    ((b0 as u32) << 24) | ((b1 as u32) << 16) | ((b2 as u32) << 8) | (b3 as u32)
}

} // verus!
