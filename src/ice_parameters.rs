use vstd::prelude::*;
use vstd::std_specs::cmp::PartialEqSpec;

verus! {

/// ICEParameters includes the ICE username fragment
/// and password and other ICE-related parameters.
///
/// The three fields travel together: equality and the default value are
/// defined field by field.
#[derive(Debug, Clone)]
pub struct ICEParameters {
    pub username_fragment: String,
    pub password: String,
    pub ice_lite: bool,
}

impl ICEParameters {
    /// The three fields of `self` and `other` are pairwise equal.
    pub open spec fn same_fields(&self, other: &ICEParameters) -> bool {
        &&& self.username_fragment@ == other.username_fragment@
        &&& self.password@ == other.password@
        &&& self.ice_lite == other.ice_lite
    }
}

impl Default for ICEParameters {
    fn default() -> (r: Self)
        ensures
            r.username_fragment@ == Seq::<char>::empty(),
            r.password@ == Seq::<char>::empty(),
            !r.ice_lite,
    {
        ICEParameters { username_fragment: String::new(), password: String::new(), ice_lite: false }
    }
}

impl PartialEq for ICEParameters {
    fn eq(&self, other: &ICEParameters) -> (r: bool)
        ensures
            r == self.same_fields(other),
    {
        self.username_fragment == other.username_fragment && self.password == other.password
            && self.ice_lite == other.ice_lite
    }
}

impl vstd::std_specs::cmp::PartialEqSpecImpl for ICEParameters {
    open spec fn obeys_eq_spec() -> bool {
        true
    }

    open spec fn eq_spec(&self, other: &ICEParameters) -> bool {
        self.same_fields(other)
    }
}

impl Eq for ICEParameters {}

/// Equality of parameter records is reflexive and symmetric, and two records
/// are equal exactly when their three fields are pairwise equal.
pub proof fn lemma_parameters_equality(a: ICEParameters, b: ICEParameters)
    ensures
        a.eq_spec(&a),
        a.eq_spec(&b) == b.eq_spec(&a),
        a.eq_spec(&b) <==> (a.username_fragment@ == b.username_fragment@
            && a.password@ == b.password@ && a.ice_lite == b.ice_lite),
{
}

} // verus!
