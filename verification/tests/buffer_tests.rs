use public_buffer::buffer::PublicBuffer;
use public_buffer::codec::{
    TPM2_ALG_ECC, TPM2_ALG_RSA, TPM2_ALG_SHA1, TPM2_ALG_SHA256, TPM2_ALG_SHA384,
};
use public_buffer::error::WrapperError;
use public_buffer::mu::{Tpm2bPublic, TpmtPublic};
use public_buffer::public::Public;

fn sample_public() -> Public {
    Public::new(
        TPM2_ALG_RSA,
        TPM2_ALG_SHA256,
        0x0003_0472,
        vec![0xAA; 32],
        vec![0x11, 0x22, 0x33, 0x44],
    )
    .expect("sample value is valid")
}

#[test]
fn size_boundary_slice_max_succeeds() {
    let input = vec![0x5Au8; PublicBuffer::MAX_SIZE];
    let buffer = PublicBuffer::try_from_slice(&input).expect("a 412-byte input is accepted");
    assert_eq!(buffer.value(), input.as_slice());
}

#[test]
fn size_boundary_slice_over_max_fails() {
    let input = vec![0x5Au8; PublicBuffer::MAX_SIZE + 1];
    let result = PublicBuffer::try_from_slice(&input);
    assert!(matches!(result, Err(WrapperError::WrongParamSize)));
}

#[test]
fn size_boundary_owned_bytes() {
    assert!(PublicBuffer::try_from_bytes(vec![0u8; 412]).is_ok());
    assert!(matches!(
        PublicBuffer::try_from_bytes(vec![0u8; 413]),
        Err(WrapperError::WrongParamSize)
    ));
}

#[test]
fn ensure_valid_buffer_size_boundary() {
    assert_eq!(PublicBuffer::ensure_valid_buffer_size(412, "Vec<u8>"), Ok(()));
    assert_eq!(
        PublicBuffer::ensure_valid_buffer_size(413, "Vec<u8>"),
        Err(WrapperError::WrongParamSize)
    );
}

#[test]
fn round_trip_through_structured_value() {
    let original = sample_public();
    let buffer = PublicBuffer::try_from_public(original.clone()).expect("encoding succeeds");
    let recovered = buffer.to_public().expect("the canonical encoding decodes");
    assert!(recovered == original);
    assert_eq!(recovered.object_type(), TPM2_ALG_RSA);
    assert_eq!(recovered.name_alg(), TPM2_ALG_SHA256);
    assert_eq!(recovered.attributes(), 0x0003_0472);
    assert_eq!(recovered.auth_policy(), &[0xAA; 32]);
    assert_eq!(recovered.unique(), &[0x11, 0x22, 0x33, 0x44]);
}

#[test]
fn round_trip_through_wire() {
    let buffer = PublicBuffer::try_from_public(sample_public()).expect("encoding succeeds");
    let wire = buffer.marshall().expect("marshalling succeeds");
    let recovered = PublicBuffer::unmarshall(&wire).expect("unmarshalling succeeds");
    assert!(recovered == buffer);
    assert_eq!(recovered.value(), buffer.value());
}

#[test]
fn wire_frame_has_exact_length_and_prefix() {
    // A payload that needs only 60 of the 412 scratch bytes: 12 header
    // bytes plus a 20-byte policy and a 28-byte unique field.
    let public = Public::new(
        TPM2_ALG_ECC,
        TPM2_ALG_SHA1,
        0,
        vec![0x01; 20],
        vec![0x02; 28],
    )
    .expect("valid value");
    let buffer = PublicBuffer::try_from_public(public).expect("encoding succeeds");
    assert_eq!(buffer.value().len(), 60);
    let wire = buffer.marshall().expect("marshalling succeeds");
    assert_eq!(wire.len(), 62);
    assert_eq!(&wire[0..2], &[0x00, 60]);
    assert_eq!(&wire[2..], buffer.value());
}

#[test]
fn exact_encoding_of_minimal_value() {
    let public = Public::new(TPM2_ALG_RSA, TPM2_ALG_SHA256, 0, Vec::new(), Vec::new())
        .expect("valid value");
    let buffer = PublicBuffer::try_from_public(public).expect("encoding succeeds");
    assert_eq!(
        buffer.value(),
        &[0x00, 0x01, 0x00, 0x0B, 0x00, 0x00, 0x00, 0x00, 0x00, 0x00, 0x00, 0x00]
    );
    let wire = buffer.marshall().expect("marshalling succeeds");
    assert_eq!(
        wire.as_slice(),
        &[0x00, 12, 0x00, 0x01, 0x00, 0x0B, 0x00, 0x00, 0x00, 0x00, 0x00, 0x00, 0x00, 0x00]
    );
}

#[test]
fn attributes_encode_big_endian() {
    let public = Public::new(TPM2_ALG_RSA, TPM2_ALG_SHA384, 0xA1B2_C3D4, Vec::new(), Vec::new())
        .expect("valid value");
    let buffer = PublicBuffer::try_from_public(public).expect("encoding succeeds");
    assert_eq!(&buffer.value()[4..8], &[0xA1, 0xB2, 0xC3, 0xD4]);
}

#[test]
fn container_length_rejected_before_payload_decode() {
    // The declared length exceeds the bound, so the (perfectly well formed)
    // payload is never reached: the failure is WrongParamSize, not a
    // structural error.
    let container = Tpm2bPublic {
        size: (PublicBuffer::MAX_SIZE + 1) as u16,
        public_area: TpmtPublic {
            object_type: TPM2_ALG_RSA,
            name_alg: TPM2_ALG_SHA256,
            attributes: 0,
            auth_policy: Vec::new(),
            unique: Vec::new(),
        },
    };
    assert!(matches!(
        PublicBuffer::try_from_container(container),
        Err(WrapperError::WrongParamSize)
    ));
}

#[test]
fn container_with_bad_payload_is_structural_error() {
    let container = Tpm2bPublic {
        size: 12,
        public_area: TpmtPublic {
            object_type: 0x9999,
            name_alg: TPM2_ALG_SHA256,
            attributes: 0,
            auth_policy: Vec::new(),
            unique: Vec::new(),
        },
    };
    assert!(matches!(
        PublicBuffer::try_from_container(container),
        Err(WrapperError::InvalidPublic)
    ));
}

#[test]
fn container_round_trip_normalises() {
    // The declared length field is only bound-checked; the stored bytes
    // come from re-encoding the validated payload.
    let container = Tpm2bPublic {
        size: 0,
        public_area: TpmtPublic {
            object_type: TPM2_ALG_RSA,
            name_alg: TPM2_ALG_SHA256,
            attributes: 7,
            auth_policy: vec![0xCC; 3],
            unique: Vec::new(),
        },
    };
    let buffer = PublicBuffer::try_from_container(container).expect("valid payload");
    assert_eq!(buffer.value().len(), 15);
    let rebuilt = buffer.to_container().expect("container conversion succeeds");
    assert_eq!(rebuilt.size, 15);
    assert_eq!(rebuilt.public_area.object_type, TPM2_ALG_RSA);
    assert_eq!(rebuilt.public_area.auth_policy, vec![0xCC; 3]);
}

#[test]
fn garbage_passes_size_check_but_fails_structured_conversion() {
    let garbage = vec![0xFFu8; 16];
    let buffer = PublicBuffer::try_from_slice(&garbage).expect("length alone is checked");
    assert_eq!(buffer.value(), garbage.as_slice());
    assert!(matches!(buffer.to_public(), Err(WrapperError::InvalidPublic)));
    assert_eq!(buffer.marshall(), Err(WrapperError::InvalidPublic));
}

#[test]
fn truncated_input_rejected_by_unmarshall() {
    assert!(matches!(
        PublicBuffer::unmarshall(&[]),
        Err(WrapperError::UnmarshallFailure(_))
    ));
    assert!(matches!(
        PublicBuffer::unmarshall(&[0x00]),
        Err(WrapperError::UnmarshallFailure(_))
    ));
    // Declares a 256-byte payload that is not there.
    assert!(matches!(
        PublicBuffer::unmarshall(&[0x01, 0x00]),
        Err(WrapperError::UnmarshallFailure(_))
    ));
}

#[test]
fn malformed_payload_rejected_by_unmarshall() {
    // Frame length is consistent, but the single payload byte is not a
    // packed public area.
    let result = PublicBuffer::unmarshall(&[0x00, 0x01, 0xFF]);
    assert!(matches!(result, Err(WrapperError::UnmarshallFailure(_))));
}

#[test]
fn unmarshall_ignores_trailing_bytes() {
    let buffer = PublicBuffer::try_from_public(sample_public()).expect("encoding succeeds");
    let mut wire = buffer.marshall().expect("marshalling succeeds");
    wire.push(0xEE);
    wire.push(0xEE);
    let recovered = PublicBuffer::unmarshall(&wire).expect("trailing bytes are left alone");
    assert!(recovered == buffer);
}

#[test]
fn clone_is_deep_and_equal() {
    let buffer = PublicBuffer::try_from_slice(&[1, 2, 3]).expect("small input is accepted");
    let copy = buffer.clone();
    assert!(copy == buffer);
    assert_eq!(copy.value(), &[1, 2, 3]);
    let other = PublicBuffer::try_from_slice(&[1, 2, 4]).expect("small input is accepted");
    assert!(copy != other);
}

#[test]
fn structured_value_validation() {
    assert!(matches!(
        Public::new(0x9999, TPM2_ALG_SHA256, 0, Vec::new(), Vec::new()),
        Err(WrapperError::InvalidPublic)
    ));
    assert!(matches!(
        Public::new(TPM2_ALG_RSA, 0x0001, 0, Vec::new(), Vec::new()),
        Err(WrapperError::InvalidPublic)
    ));
    assert!(matches!(
        Public::new(TPM2_ALG_RSA, TPM2_ALG_SHA256, 0, vec![0; 65], Vec::new()),
        Err(WrapperError::InvalidPublic)
    ));
    assert!(matches!(
        Public::new(TPM2_ALG_RSA, TPM2_ALG_SHA256, 0, Vec::new(), vec![0; 257]),
        Err(WrapperError::InvalidPublic)
    ));
    assert!(Public::new(TPM2_ALG_RSA, TPM2_ALG_SHA256, 0, vec![0; 64], vec![0; 256]).is_ok());
}

#[test]
fn empty_buffer_is_accepted_but_not_structured() {
    let buffer = PublicBuffer::try_from_bytes(Vec::new()).expect("empty input is within bounds");
    assert_eq!(buffer.value(), &[] as &[u8]);
    assert!(matches!(buffer.to_public(), Err(WrapperError::InvalidPublic)));
}
