//! The template from which the public area of an imported key is made.

use crate::constant::MAX_DIGEST_SIZE;
use crate::data::alg::TpmAlgId;
use crate::data::attr::TpmaObject;
use crate::data::sym::TpmtSymDef;
use vstd::prelude::*;
use vstd::slice::slice_to_vec;

verus! {

/// What the public area of an imported key takes from its caller: the name
/// algorithm, the object attributes, the policy and the symmetric algorithm.
#[derive(Debug)]
pub struct TpmPublicTemplate {
    name_alg: TpmAlgId,
    object_attributes: TpmaObject,
    auth_policy: Vec<u8>,
    symmetric: TpmtSymDef,
}

/// A public area template, as plain values.
pub struct PublicTemplateView {
    pub name_alg: TpmAlgId,
    pub object_attributes: u32,
    pub auth_policy: Seq<u8>,
    pub symmetric: TpmtSymDef,
}

impl View for TpmPublicTemplate {
    type V = PublicTemplateView;

    closed spec fn view(&self) -> PublicTemplateView {
        PublicTemplateView {
            name_alg: self.name_alg,
            object_attributes: self.object_attributes.0,
            auth_policy: self.auth_policy@,
            symmetric: self.symmetric,
        }
    }
}

impl TpmPublicTemplate {
    /// The policy fits a digest buffer.
    #[verifier::type_invariant]
    spec fn template_inv(self) -> bool {
        self.auth_policy@.len() <= MAX_DIGEST_SIZE
    }

    /// Creates a template; the policy is a digest and must fit a digest
    /// buffer.
    pub fn new(
        name_alg: TpmAlgId,
        object_attributes: TpmaObject,
        auth_policy: Vec<u8>,
        symmetric: TpmtSymDef,
    ) -> (r: Self)
        requires
            auth_policy@.len() <= MAX_DIGEST_SIZE,
        ensures
            r@ == (PublicTemplateView {
                name_alg,
                object_attributes: object_attributes.0,
                auth_policy: auth_policy@,
                symmetric,
            }),
    {
        TpmPublicTemplate { name_alg, object_attributes, auth_policy, symmetric }
    }

    /// Returns the name algorithm.
    pub fn name_alg(&self) -> (r: TpmAlgId)
        ensures
            r == self@.name_alg,
    {
        self.name_alg
    }

    /// Returns the object attributes.
    pub fn object_attributes(&self) -> (r: TpmaObject)
        ensures
            r.0 == self@.object_attributes,
    {
        self.object_attributes
    }

    /// Returns the policy digest.
    pub fn auth_policy(&self) -> (r: Vec<u8>)
        ensures
            r@ == self@.auth_policy,
            r@.len() <= MAX_DIGEST_SIZE,
    {
        proof {
            use_type_invariant(self);
        }
        slice_to_vec(self.auth_policy.as_slice())
    }

    /// Returns the symmetric algorithm.
    pub fn symmetric(&self) -> (r: TpmtSymDef)
        ensures
            r == self@.symmetric,
    {
        self.symmetric
    }
}

} // verus!
