//! The structured public-area value: the validated, richly-typed form of
//! one public area, with its own packed (un)marshalling.

use vstd::prelude::*;
use crate::codec::{
    PublicAreaView, encode_public_area, parse_public_area, valid_public_area,
    is_known_object_type, is_known_name_alg, push_be16, push_be32, bytes_equal,
    lemma_parse_canonical, MAX_AUTH_POLICY_SIZE, MAX_UNIQUE_SIZE,
};
use crate::error::WrapperError;
use crate::mu::TpmtPublic;

verus! {

/// A validated public area: the algorithms are known and the variable
/// fields are within their fixed bounds. Every value of this type upholds
/// that, so marshalling never fails.
pub struct Public {
    object_type: u16,
    name_alg: u16,
    attributes: u32,
    auth_policy: Vec<u8>,
    unique: Vec<u8>,
}

impl View for Public {
    type V = PublicAreaView;

    closed spec fn view(&self) -> PublicAreaView {
        PublicAreaView {
            object_type: self.object_type,
            name_alg: self.name_alg,
            attributes: self.attributes,
            auth_policy: self.auth_policy@,
            unique: self.unique@,
        }
    }
}

impl Public {
    /// Every structured value is a valid public area.
    #[verifier::type_invariant]
    pub open spec fn wf(self) -> bool {
        valid_public_area(self.view())
    }

    /// Build a structured value from its fields, validating them.
    pub fn new(
        object_type: u16,
        name_alg: u16,
        attributes: u32,
        auth_policy: Vec<u8>,
        unique: Vec<u8>,
    ) -> (r: Result<Public, WrapperError>)
        ensures
            valid_public_area(
                (PublicAreaView {
                    object_type,
                    name_alg,
                    attributes,
                    auth_policy: auth_policy@,
                    unique: unique@,
                }),
            ) ==> (r matches Ok(p) && p@ == (PublicAreaView {
                object_type,
                name_alg,
                attributes,
                auth_policy: auth_policy@,
                unique: unique@,
            })),
            !valid_public_area(
                (PublicAreaView {
                    object_type,
                    name_alg,
                    attributes,
                    auth_policy: auth_policy@,
                    unique: unique@,
                }),
            ) ==> r == Err::<Public, WrapperError>(WrapperError::InvalidPublic),
    {
        if is_known_object_type(object_type) && is_known_name_alg(name_alg)
            && auth_policy.len() <= MAX_AUTH_POLICY_SIZE && unique.len() <= MAX_UNIQUE_SIZE {
            Ok(Public { object_type, name_alg, attributes, auth_policy, unique })
        } else {
            Err(WrapperError::InvalidPublic)
        }
    }

    /// Validating conversion from the container's nested payload field.
    /// Any structural defect in the raw area surfaces here.
    pub fn try_from_tpmt(tss: TpmtPublic) -> (r: Result<Public, WrapperError>)
        ensures
            valid_public_area(tss@) ==> (r matches Ok(p) && p@ == tss@),
            !valid_public_area(tss@) ==> r == Err::<Public, WrapperError>(
                WrapperError::InvalidPublic,
            ),
    {
        Public::new(tss.object_type, tss.name_alg, tss.attributes, tss.auth_policy, tss.unique)
    }

    /// Conversion to the container's nested payload field; each call
    /// produces an independent copy.
    pub fn to_tpmt(&self) -> (r: TpmtPublic)
        ensures
            r@ == self@,
    {
        TpmtPublic {
            object_type: self.object_type,
            name_alg: self.name_alg,
            attributes: self.attributes,
            auth_policy: vstd::slice::slice_to_vec(self.auth_policy.as_slice()),
            unique: vstd::slice::slice_to_vec(self.unique.as_slice()),
        }
    }

    /// Packed encoding of this public area. Never fails: validity is the
    /// type's invariant, and a valid area always encodes.
    pub fn marshall(&self) -> (r: Result<Vec<u8>, WrapperError>)
        ensures
            r matches Ok(v) && v@ == encode_public_area(self@),
    {
        proof {
            use_type_invariant(self);
        }
        let mut out: Vec<u8> = Vec::new();
        push_be16(&mut out, self.object_type);
        push_be16(&mut out, self.name_alg);
        push_be32(&mut out, self.attributes);
        push_be16(&mut out, self.auth_policy.len() as u16);
        crate::mu::push_bytes(&mut out, &self.auth_policy);
        push_be16(&mut out, self.unique.len() as u16);
        crate::mu::push_bytes(&mut out, &self.unique);
        proof {
            assert(out@ =~= encode_public_area(self@));
        }
        Ok(out)
    }

    /// Strict decode of a packed public area: succeeds exactly when the
    /// input is the canonical encoding of a valid area.
    pub fn unmarshall(marshalled_data: &[u8]) -> (r: Result<Public, WrapperError>)
        ensures
            parse_public_area(marshalled_data@) matches Some(p) ==> (r matches Ok(pv) && pv@
                == p),
            parse_public_area(marshalled_data@) is None ==> r == Err::<Public, WrapperError>(
                WrapperError::InvalidPublic,
            ),
    {
        match crate::mu::decode_public_area(marshalled_data) {
            None => Err(WrapperError::InvalidPublic),
            Some(t) => {
                proof {
                    lemma_parse_canonical(marshalled_data@, t@);
                }
                Public::try_from_tpmt(t)
            },
        }
    }

    /// The object type (key algorithm) field.
    pub fn object_type(&self) -> (r: u16)
        ensures
            r == self@.object_type,
    {
        self.object_type
    }

    /// The name (hash) algorithm field.
    pub fn name_alg(&self) -> (r: u16)
        ensures
            r == self@.name_alg,
    {
        self.name_alg
    }

    /// The object attributes field.
    pub fn attributes(&self) -> (r: u32)
        ensures
            r == self@.attributes,
    {
        self.attributes
    }

    /// The auth policy digest.
    pub fn auth_policy(&self) -> (r: &[u8])
        ensures
            r@ == self@.auth_policy,
    {
        self.auth_policy.as_slice()
    }

    /// The unique public-key material.
    pub fn unique(&self) -> (r: &[u8])
        ensures
            r@ == self@.unique,
    {
        self.unique.as_slice()
    }
}

impl Clone for Public {
    /// A deep copy: the variable fields are copied into fresh storage.
    fn clone(&self) -> (r: Self)
        ensures
            r@ == self@,
    {
        proof {
            use_type_invariant(self);
        }
        let r = Public {
            object_type: self.object_type,
            name_alg: self.name_alg,
            attributes: self.attributes,
            auth_policy: vstd::slice::slice_to_vec(self.auth_policy.as_slice()),
            unique: vstd::slice::slice_to_vec(self.unique.as_slice()),
        };
        proof {
            assert(r@ =~= self@);
        }
        r
    }
}

impl PartialEq for Public {
    /// Structural equality: every field, byte for byte.
    fn eq(&self, other: &Self) -> (r: bool) {
        let r = self.object_type == other.object_type && self.name_alg == other.name_alg
            && self.attributes == other.attributes
            && bytes_equal(self.auth_policy.as_slice(), other.auth_policy.as_slice())
            && bytes_equal(self.unique.as_slice(), other.unique.as_slice());
        proof {
            if r {
                assert(self@ =~= other@);
            } else {
                assert(self@ != other@);
            }
        }
        r
    }
}

impl vstd::std_specs::cmp::PartialEqSpecImpl for Public {
    open spec fn obeys_eq_spec() -> bool {
        true
    }

    open spec fn eq_spec(&self, other: &Self) -> bool {
        self@ == other@
    }
}

} // verus!
