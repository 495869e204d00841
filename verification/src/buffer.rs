//! The public-area byte buffer: validated construction from raw bytes,
//! from the fixed-layout container, or from the structured value;
//! conversions back to either; and size-prefixed wire marshalling.

use vstd::prelude::*;
use crate::codec::{
    be16_seq, encode_public_area, parse_public_area, bytes_equal, lemma_parse_canonical,
    lemma_encode_len,
};
use crate::error::WrapperError;
use crate::mu::{
    Tpm2bPublic, TpmtPublic, tpm2b_public_marshal, tpm2b_public_unmarshal, frame_seq,
    parse_frame, frame_rc, RC_SUCCESS,
};
use crate::public::Public;
use crate::secure::{SecureBytes, secure_contents};

verus! {

/// Public data buffer.
///
/// Owns the canonical packed encoding of one public-area payload — not the
/// outer size-prefixed container; the prefix is added only during wire
/// marshalling. The length never exceeds [`PublicBuffer::MAX_SIZE`], and
/// the backing storage is wiped when the buffer is dropped.
pub struct PublicBuffer {
    bytes: SecureBytes,
}

impl View for PublicBuffer {
    type V = Seq<u8>;

    closed spec fn view(&self) -> Seq<u8> {
        secure_contents(self.bytes)
    }
}

impl PublicBuffer {
    /// Byte size of the fixed (unpacked) in-memory layout of a public
    /// area: a conservative upper bound on any packed encoding, not a
    /// tight one.
    pub const MAX_SIZE: usize = 412;

    /// Byte size of the fixed-layout container — the size prefix plus the
    /// unpacked public area — used as scratch capacity when marshalling.
    pub const BUFFER_SIZE: usize = 414;

    /// The stored bytes never exceed the fixed-layout bound.
    #[verifier::type_invariant]
    pub closed spec fn wf(self) -> bool {
        self.view().len() <= PublicBuffer::MAX_SIZE
    }

    /// A read-only view of the stored bytes.
    pub fn value(&self) -> (r: &[u8])
        ensures
            r@ == self@,
    {
        self.bytes.bytes().as_slice()
    }

    /// Check that a buffer size is within the fixed-layout bound.
    pub fn ensure_valid_buffer_size(buffer_size: usize, _container_name: &str) -> (r: Result<
        (),
        WrapperError,
    >)
        ensures
            buffer_size <= PublicBuffer::MAX_SIZE ==> r == Ok::<(), WrapperError>(()),
            buffer_size > PublicBuffer::MAX_SIZE ==> r == Err::<(), WrapperError>(
                WrapperError::WrongParamSize,
            ),
    {
        if buffer_size > Self::MAX_SIZE {
            return Err(WrapperError::WrongParamSize);
        }
        Ok(())
    }

    /// Validated construction from an owned byte sequence: checks the size
    /// bound, then takes ownership without copying.
    pub fn try_from_bytes(bytes: Vec<u8>) -> (r: Result<PublicBuffer, WrapperError>)
        ensures
            bytes@.len() <= PublicBuffer::MAX_SIZE ==> (r matches Ok(b) && b@ == bytes@),
            bytes@.len() > PublicBuffer::MAX_SIZE ==> r == Err::<PublicBuffer, WrapperError>(
                WrapperError::WrongParamSize,
            ),
    {
        match Self::ensure_valid_buffer_size(bytes.len(), "Vec<u8>") {
            Err(e) => Err(e),
            Ok(()) => Ok(PublicBuffer { bytes: SecureBytes::wrap(bytes) }),
        }
    }

    /// Validated construction from a borrowed byte sequence: checks the
    /// size bound, then copies into new owned storage.
    pub fn try_from_slice(bytes: &[u8]) -> (r: Result<PublicBuffer, WrapperError>)
        ensures
            bytes@.len() <= PublicBuffer::MAX_SIZE ==> (r matches Ok(b) && b@ == bytes@),
            bytes@.len() > PublicBuffer::MAX_SIZE ==> r == Err::<PublicBuffer, WrapperError>(
                WrapperError::WrongParamSize,
            ),
    {
        match Self::ensure_valid_buffer_size(bytes.len(), "&[u8]") {
            Err(e) => Err(e),
            Ok(()) => Ok(
                PublicBuffer { bytes: SecureBytes::wrap(vstd::slice::slice_to_vec(bytes)) },
            ),
        }
    }

    /// Construction from the structured value: wraps its packed encoding.
    /// Encoding a valid value is always within the size bound, but the
    /// bound is still checked defensively.
    pub fn try_from_public(public: Public) -> (r: Result<PublicBuffer, WrapperError>)
        ensures
            r matches Ok(b) && b@ == encode_public_area(public@),
    {
        proof {
            use_type_invariant(&public);
            lemma_encode_len(public@);
        }
        match public.marshall() {
            Err(e) => Err(e),
            Ok(v) => match Self::ensure_valid_buffer_size(v.len(), "Public") {
                Err(e) => Err(e),
                Ok(()) => Ok(PublicBuffer { bytes: SecureBytes::wrap(v) }),
            },
        }
    }

    /// Construction from the fixed-layout container. The declared length
    /// field is validated first; only then is the nested payload decoded
    /// into the structured value and re-encoded, so arbitrary container
    /// content is normalised through the structured value's validation.
    pub fn try_from_container(tss: Tpm2bPublic) -> (r: Result<PublicBuffer, WrapperError>)
        ensures
            tss.size > PublicBuffer::MAX_SIZE ==> r == Err::<PublicBuffer, WrapperError>(
                WrapperError::WrongParamSize,
            ),
            tss.size <= PublicBuffer::MAX_SIZE && !crate::codec::valid_public_area(
                tss.public_area@,
            ) ==> r == Err::<PublicBuffer, WrapperError>(WrapperError::InvalidPublic),
            tss.size <= PublicBuffer::MAX_SIZE && crate::codec::valid_public_area(
                tss.public_area@,
            ) ==> (r matches Ok(b) && b@ == encode_public_area(tss.public_area@)),
    {
        match Self::ensure_valid_buffer_size(tss.size as usize, "buffer") {
            Err(e) => Err(e),
            Ok(()) => match Public::try_from_tpmt(tss.public_area) {
                Err(e) => Err(e),
                Ok(public) => Self::try_from_public(public),
            },
        }
    }

    /// Decode the stored bytes into the structured value; a byte sequence
    /// that passed only the size check fails here.
    pub fn to_public(&self) -> (r: Result<Public, WrapperError>)
        ensures
            parse_public_area(self@) matches Some(p) ==> (r matches Ok(pv) && pv@ == p),
            parse_public_area(self@) is None ==> r == Err::<Public, WrapperError>(
                WrapperError::InvalidPublic,
            ),
    {
        Public::unmarshall(self.value())
    }

    /// Build the fixed-layout container: the declared length field is the
    /// buffer's byte length — checked against the 16-bit wire width — and
    /// the nested payload is the decoded structured value, converted back
    /// to its raw form.
    pub fn to_container(&self) -> (r: Result<Tpm2bPublic, WrapperError>)
        ensures
            parse_public_area(self@) matches Some(p) ==> (r matches Ok(c) && c.size as int
                == self@.len() && c.public_area@ == p),
            parse_public_area(self@) is None ==> r == Err::<Tpm2bPublic, WrapperError>(
                WrapperError::InvalidPublic,
            ),
    {
        proof {
            use_type_invariant(self);
        }
        let bytes_len: usize = self.value().len();
        if bytes_len > 0xFFFF {
            return Err(WrapperError::InvalidParam);
        }
        let size: u16 = bytes_len as u16;
        match self.to_public() {
            Err(e) => Err(e),
            Ok(public) => Ok(Tpm2bPublic { size, public_area: public.to_tpmt() }),
        }
    }

    /// Produce the canonical size-prefixed wire encoding: a 16-bit
    /// big-endian length prefix followed by the stored packed payload. The
    /// returned length is exactly what the encode service wrote, never the
    /// full scratch capacity.
    pub fn marshall(&self) -> (r: Result<Vec<u8>, WrapperError>)
        ensures
            parse_public_area(self@) matches Some(p) ==> (r matches Ok(v) && v@ == be16_seq(
                self@.len() as u16,
            ) + self@ && v@.len() == 2 + self@.len()),
            parse_public_area(self@) is None ==> r == Err::<Vec<u8>, WrapperError>(
                WrapperError::InvalidPublic,
            ),
    {
        proof {
            use_type_invariant(self);
        }
        let container = match self.to_container() {
            Err(e) => {
                return Err(e);
            },
            Ok(c) => c,
        };
        let mut buffer: Vec<u8> = Vec::new();
        while buffer.len() < Self::BUFFER_SIZE
            invariant
                buffer@.len() <= PublicBuffer::BUFFER_SIZE,
            decreases PublicBuffer::BUFFER_SIZE - buffer@.len(),
        {
            buffer.push(0u8);
        }
        let mut offset: u64 = 0;
        proof {
            let p = parse_public_area(self@)->Some_0;
            lemma_parse_canonical(self@, p);
        }
        let rc = tpm2b_public_marshal(&container, &mut buffer, &mut offset);
        if rc != RC_SUCCESS {
            return Err(WrapperError::MarshallFailure(rc));
        }
        let checked_offset: usize;
        if offset <= usize::MAX as u64 {
            checked_offset = offset as usize;
        } else {
            return Err(WrapperError::InvalidParam);
        }
        buffer.truncate(checked_offset);
        proof {
            let p = parse_public_area(self@)->Some_0;
            assert(buffer@ =~= frame_seq(p));
            assert(buffer@ =~= be16_seq(self@.len() as u16) + self@);
        }
        Ok(buffer)
    }

    /// Read one size-prefixed frame and construct a buffer from it via the
    /// container path, which re-validates the size and performs the
    /// normalising round trip through the structured value. An input
    /// shorter than the frame it declares — or shorter than any frame —
    /// is rejected with the decode service's status.
    pub fn unmarshall(marshalled_data: &[u8]) -> (r: Result<PublicBuffer, WrapperError>)
        ensures
            marshalled_data@.len() > u32::MAX ==> r == Err::<PublicBuffer, WrapperError>(
                WrapperError::InvalidParam,
            ),
            marshalled_data@.len() <= u32::MAX && frame_rc(marshalled_data@) != RC_SUCCESS ==> r
                == Err::<PublicBuffer, WrapperError>(
                WrapperError::UnmarshallFailure(frame_rc(marshalled_data@)),
            ),
            marshalled_data@.len() <= u32::MAX && frame_rc(marshalled_data@) == RC_SUCCESS ==> (
            parse_frame(marshalled_data@) matches Some(pr) && r matches Ok(b) && b@
                == encode_public_area(pr.1)),
    {
        let n: usize = marshalled_data.len();
        if n as u64 > u32::MAX as u64 {
            return Err(WrapperError::InvalidParam);
        }
        let size: u32 = n as u32;
        let mut dest = Tpm2bPublic {
            size: 0,
            public_area: TpmtPublic {
                object_type: 0,
                name_alg: 0,
                attributes: 0,
                auth_policy: Vec::new(),
                unique: Vec::new(),
            },
        };
        let mut offset: u64 = 0;
        proof {
            assert(marshalled_data@.skip(0) =~= marshalled_data@);
        }
        let rc = tpm2b_public_unmarshal(marshalled_data, size, &mut offset, &mut dest);
        if rc != RC_SUCCESS {
            return Err(WrapperError::UnmarshallFailure(rc));
        }
        proof {
            let pr = parse_frame(marshalled_data@)->Some_0;
            lemma_parse_canonical(marshalled_data@.subrange(2, 2 + pr.0 as int), pr.1);
            lemma_encode_len(pr.1);
        }
        Self::try_from_container(dest)
    }
}

/// Round trip through the wire, stated over the buffer's model: when a
/// buffer holds the canonical encoding `s` of some public area, the frame
/// that `marshall` returns — the 16-bit length prefix followed by `s` —
/// decodes successfully, and the buffer `unmarshall` rebuilds holds `s`
/// again.
pub proof fn lemma_wire_round_trip(s: Seq<u8>, p: crate::codec::PublicAreaView)
    requires
        parse_public_area(s) == Some(p),
    ensures
        frame_rc(be16_seq(s.len() as u16) + s) == RC_SUCCESS,
        parse_frame(be16_seq(s.len() as u16) + s) matches Some(pr) && encode_public_area(pr.1)
            == s,
{
    lemma_parse_canonical(s, p);
    crate::mu::lemma_frame_round_trip(p);
    assert(frame_seq(p) == be16_seq(s.len() as u16) + s);
}

impl Clone for PublicBuffer {
    /// A full deep copy, so that secure erase on drop stays correct per
    /// instance, independent of any other copy's lifetime.
    fn clone(&self) -> (r: Self)
        ensures
            r@ == self@,
    {
        proof {
            use_type_invariant(self);
        }
        PublicBuffer { bytes: self.bytes.duplicate() }
    }
}

impl PartialEq for PublicBuffer {
    /// Byte-content equality.
    fn eq(&self, other: &Self) -> (r: bool) {
        bytes_equal(self.value(), other.value())
    }
}

impl vstd::std_specs::cmp::PartialEqSpecImpl for PublicBuffer {
    open spec fn obeys_eq_spec() -> bool {
        true
    }

    open spec fn eq_spec(&self, other: &Self) -> bool {
        self@ == other@
    }
}

} // verus!
