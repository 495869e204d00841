//! The fixed-layout container value and the encode/decode service that
//! frames it for the wire: a big-endian 16-bit length prefix followed by
//! the packed public-area payload.

use vstd::prelude::*;
use crate::codec::{
    PublicAreaView, be16_seq, be16_val, encode_public_area, parse_public_area,
    valid_public_area, is_known_object_type, is_known_name_alg, push_be16, push_be32,
    read_be16, read_be32, lemma_encode_len, MAX_AUTH_POLICY_SIZE, MAX_UNIQUE_SIZE,
};

verus! {

/// Service status: the call succeeded.
pub const RC_SUCCESS: u32 = 0;
/// Service status: the input or output region is too short.
pub const RC_INSUFFICIENT_BUFFER: u32 = 1;
/// Service status: a field value cannot be encoded or decoded.
pub const RC_BAD_VALUE: u32 = 2;

/// The nested payload field of the fixed-layout container: one public area
/// in raw, unvalidated form.
pub struct TpmtPublic {
    pub object_type: u16,
    pub name_alg: u16,
    pub attributes: u32,
    pub auth_policy: Vec<u8>,
    pub unique: Vec<u8>,
}

impl View for TpmtPublic {
    type V = PublicAreaView;

    open spec fn view(&self) -> PublicAreaView {
        PublicAreaView {
            object_type: self.object_type,
            name_alg: self.name_alg,
            attributes: self.attributes,
            auth_policy: self.auth_policy@,
            unique: self.unique@,
        }
    }
}

/// The fixed-layout container: a declared payload length and the nested
/// public area. The length field is only a claim; nothing ties it to the
/// nested area until a conversion validates it.
pub struct Tpm2bPublic {
    pub size: u16,
    pub public_area: TpmtPublic,
}

/// The size-prefixed wire frame of a public area.
pub open spec fn frame_seq(p: PublicAreaView) -> Seq<u8> {
    be16_seq(encode_public_area(p).len() as u16) + encode_public_area(p)
}

/// One frame read from the front of `s`: the declared payload length, then
/// exactly that many payload bytes, strictly decoded. Trailing input beyond
/// the frame is permitted and left unconsumed.
pub open spec fn parse_frame(s: Seq<u8>) -> Option<(u16, PublicAreaView)> {
    if s.len() < 2 {
        None
    } else {
        let size = be16_val(s.subrange(0, 2));
        if s.len() < 2 + size as int {
            None
        } else {
            match parse_public_area(s.subrange(2, 2 + size as int)) {
                Some(p) => Some((size, p)),
                None => None,
            }
        }
    }
}

/// The status the decode service reports for input `s`.
pub open spec fn frame_rc(s: Seq<u8>) -> u32 {
    if s.len() < 2 {
        RC_INSUFFICIENT_BUFFER
    } else {
        let size = be16_val(s.subrange(0, 2));
        if s.len() < 2 + size as int {
            RC_INSUFFICIENT_BUFFER
        } else if parse_public_area(s.subrange(2, 2 + size as int)) is None {
            RC_BAD_VALUE
        } else {
            RC_SUCCESS
        }
    }
}

/// Round trip through the wire: decoding the frame of any valid public area
/// succeeds and yields the area and its exact payload length back.
pub proof fn lemma_frame_round_trip(p: PublicAreaView)
    requires
        valid_public_area(p),
    ensures
        frame_rc(frame_seq(p)) == RC_SUCCESS,
        parse_frame(frame_seq(p)) == Some(
            (encode_public_area(p).len() as u16, p),
        ),
{
    let e = encode_public_area(p);
    let s = frame_seq(p);
    lemma_encode_len(p);
    crate::codec::lemma_be16_round_trip(e.len() as u16);
    crate::codec::lemma_public_area_round_trip(p);
    assert(s.subrange(0, 2) =~= be16_seq(e.len() as u16));
    assert(s.subrange(2, 2 + e.len() as int) =~= e);
}

/// Decode one packed public area. Strict: the whole input must be one
/// canonical encoding of a valid area.
pub fn decode_public_area(data: &[u8]) -> (r: Option<TpmtPublic>)
    ensures
        match r {
            Some(t) => parse_public_area(data@) == Some(t@),
            None => parse_public_area(data@) is None,
        },
{
    let n: usize = data.len();
    if n < 12 {
        return None;
    }
    let object_type = read_be16(data, 0);
    let name_alg = read_be16(data, 2);
    let attributes = read_be32(data, 4);
    let policy_len = read_be16(data, 8) as usize;
    if n < 12 + policy_len {
        return None;
    }
    let auth_policy = vstd::slice::slice_to_vec(
        vstd::slice::slice_subrange(data, 10, 10 + policy_len),
    );
    let unique_len = read_be16(data, 10 + policy_len) as usize;
    if n != 12 + policy_len + unique_len {
        return None;
    }
    let unique = vstd::slice::slice_to_vec(
        vstd::slice::slice_subrange(data, 12 + policy_len, 12 + policy_len + unique_len),
    );
    if !(is_known_object_type(object_type) && is_known_name_alg(name_alg)
        && policy_len <= MAX_AUTH_POLICY_SIZE && unique_len <= MAX_UNIQUE_SIZE) {
        return None;
    }
    let t = TpmtPublic { object_type, name_alg, attributes, auth_policy, unique };
    Some(t)
}

/// Append the packed encoding of a valid public area.
fn push_public_area(out: &mut Vec<u8>, value: &TpmtPublic)
    requires
        valid_public_area(value@),
    ensures
        final(out)@ == old(out)@ + encode_public_area(value@),
{
    push_be16(out, value.object_type);
    push_be16(out, value.name_alg);
    push_be32(out, value.attributes);
    push_be16(out, value.auth_policy.len() as u16);
    push_bytes(out, &value.auth_policy);
    push_be16(out, value.unique.len() as u16);
    push_bytes(out, &value.unique);
    proof {
        assert(out@ =~= old(out)@ + encode_public_area(value@));
    }
}

/// Append every byte of `src`.
pub(crate) fn push_bytes(out: &mut Vec<u8>, src: &Vec<u8>)
    ensures
        final(out)@ == old(out)@ + src@,
{
    let n: usize = src.len();
    let mut i: usize = 0;
    while i < n
        invariant
            i <= n,
            n == src@.len(),
            out@ == old(out)@ + src@.subrange(0, i as int),
        decreases n - i,
    {
        out.push(src[i]);
        i = i + 1;
        proof {
            assert(out@ =~= old(out)@ + src@.subrange(0, i as int));
        }
    }
    proof {
        assert(src@.subrange(0, n as int) =~= src@);
    }
}

/// Encode service. Writes the size-prefixed frame of `value`'s public area
/// into the caller's scratch region at `*offset` and advances the offset
/// past what was written; the caller learns the written length from the
/// final cursor. Bytes of the region beyond the frame are unspecified; the
/// region's length and the part before `*offset` are preserved.
pub fn tpm2b_public_marshal(value: &Tpm2bPublic, buffer: &mut Vec<u8>, offset: &mut u64) -> (rc:
    u32)
    requires
        *old(offset) <= old(buffer)@.len(),
    ensures
        !valid_public_area(value.public_area@) ==> rc == RC_BAD_VALUE,
        valid_public_area(value.public_area@) && *old(offset) + frame_seq(
            value.public_area@,
        ).len() > old(buffer)@.len() ==> rc == RC_INSUFFICIENT_BUFFER,
        valid_public_area(value.public_area@) && *old(offset) + frame_seq(
            value.public_area@,
        ).len() <= old(buffer)@.len() ==> rc == RC_SUCCESS,
        rc == RC_SUCCESS ==> {
            &&& *final(offset) == *old(offset) + frame_seq(value.public_area@).len()
            &&& final(buffer)@.len() == old(buffer)@.len()
            &&& final(buffer)@.subrange(0, *old(offset) as int) == old(buffer)@.subrange(
                0,
                *old(offset) as int,
            )
            &&& final(buffer)@.subrange(*old(offset) as int, *final(offset) as int) == frame_seq(
                value.public_area@,
            )
        },
        rc != RC_SUCCESS ==> final(buffer)@ == old(buffer)@ && *final(offset) == *old(offset),
{
    let area = &value.public_area;
    if !(is_known_object_type(area.object_type) && is_known_name_alg(area.name_alg)
        && area.auth_policy.len() <= MAX_AUTH_POLICY_SIZE
        && area.unique.len() <= MAX_UNIQUE_SIZE) {
        return RC_BAD_VALUE;
    }
    proof {
        lemma_encode_len(value.public_area@);
    }
    let payload_len: usize = 12 + area.auth_policy.len() + area.unique.len();
    let orig_len: usize = buffer.len();
    let off: usize = *offset as usize;
    if (orig_len - off) < 2 + payload_len {
        return RC_INSUFFICIENT_BUFFER;
    }
    buffer.truncate(off);
    push_be16(buffer, payload_len as u16);
    push_public_area(buffer, area);
    proof {
        assert(buffer@ =~= old(buffer)@.subrange(0, off as int) + frame_seq(
            value.public_area@,
        ));
    }
    let ghost core = buffer@;
    while buffer.len() < orig_len
        invariant
            core.len() <= buffer@.len() <= orig_len,
            buffer@.subrange(0, core.len() as int) == core,
        decreases orig_len - buffer@.len(),
    {
        buffer.push(0u8);
        proof {
            assert(buffer@.subrange(0, core.len() as int) =~= core);
        }
    }
    *offset = (off + 2 + payload_len) as u64;
    proof {
        assert(buffer@.subrange(0, off as int) =~= old(buffer)@.subrange(0, off as int));
        assert forall|j: int| 0 <= j < core.len() implies buffer@[j] == core[j] by {
            assert(buffer@.subrange(0, core.len() as int)[j] == core[j]);
        }
        assert(core == old(buffer)@.subrange(0, off as int) + frame_seq(value.public_area@));
        assert(frame_seq(value.public_area@).len() == 2 + payload_len);
        assert(core.len() == off + 2 + payload_len);
        assert forall|i: int| 0 <= i < 2 + payload_len implies buffer@[off + i] == frame_seq(
            value.public_area@,
        )[i] by {
            assert(buffer@[off + i] == core[off + i]);
            assert(core[off + i] == frame_seq(value.public_area@)[i]);
        }
        assert(buffer@.subrange(off as int, off as int + 2 + payload_len as int) =~= frame_seq(
            value.public_area@,
        ));
    }
    RC_SUCCESS
}

/// Decode service. Reads one size-prefixed frame from `buffer` at
/// `*offset`, fills `dest` with the declared length and the decoded public
/// area, and advances the offset past the frame. On a non-success status
/// nothing is changed.
pub fn tpm2b_public_unmarshal(
    buffer: &[u8],
    buffer_size: u32,
    offset: &mut u64,
    dest: &mut Tpm2bPublic,
) -> (rc: u32)
    requires
        buffer_size as int == buffer@.len(),
        *old(offset) <= buffer_size,
    ensures
        rc == frame_rc(buffer@.skip(*old(offset) as int)),
        rc == RC_SUCCESS ==> {
            &&& parse_frame(buffer@.skip(*old(offset) as int)) matches Some(pr)
                && final(dest).size == pr.0
                && final(dest).public_area@ == pr.1
                && *final(offset) == *old(offset) + 2 + pr.0
        },
        rc != RC_SUCCESS ==> *final(dest) == *old(dest) && *final(offset) == *old(offset),
{
    let n: usize = buffer.len();
    let off: usize = *offset as usize;
    let ghost rest = buffer@.skip(off as int);
    if n - off < 2 {
        return RC_INSUFFICIENT_BUFFER;
    }
    let size = read_be16(buffer, off);
    proof {
        assert(buffer@.subrange(off as int, off as int + 2) =~= rest.subrange(0, 2));
    }
    if n - off - 2 < size as usize {
        return RC_INSUFFICIENT_BUFFER;
    }
    let payload = vstd::slice::slice_subrange(buffer, off + 2, off + 2 + size as usize);
    proof {
        assert(payload@ =~= rest.subrange(2, 2 + size as int));
    }
    match decode_public_area(payload) {
        None => RC_BAD_VALUE,
        Some(t) => {
            dest.size = size;
            dest.public_area = t;
            *offset = (off + 2 + size as usize) as u64;
            RC_SUCCESS
        },
    }
}

} // verus!
