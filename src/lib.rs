//! Candidate-type classification and credential parameters for ICE
//! (Interactive Connectivity Establishment).
use vstd::prelude::*;

pub mod ice_candidate_type;
pub mod ice_parameters;

pub use ice_candidate_type::ICECandidateType;
pub use ice_parameters::ICEParameters;

verus! {

/// Display text of a value that carries no known classification.
pub const UNSPECIFIED_STR: &'static str = "Unspecified";

} // verus!
