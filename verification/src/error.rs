//! The error taxonomy of the proving orchestration layer.

use vstd::prelude::*;

verus! {

/// Every failure the orchestration layer can surface. No error is swallowed
/// or converted to a default result; the first error ends the run.
#[derive(Debug, Clone)]
pub enum PostError {
    /// A fixed-length byte buffer does not encode a canonical field element.
    /// Carries the label of the offending buffer for diagnosis.
    InvalidCommitment(String),
    /// The configuration's proof type is outside this layer's scope.
    UnsupportedConfiguration,
    /// The public-sector count and the vanilla-witness count disagree.
    InconsistentWitnessSet,
    /// The expensive parameter derivation failed; not retried.
    ParameterGenerationError(String),
    /// The external proving backend failed; propagated unchanged.
    ProvingError(String),
}

impl PostError {
    /// A short diagnostic description of the error, carrying the label or
    /// cause it was raised with.
    pub fn describe(&self) -> (r: String)
        ensures
            self matches PostError::InvalidCommitment(label) ==> r@ =~= "invalid commitment: "@
                + label@,
            self matches PostError::UnsupportedConfiguration ==> r@ == "invalid post config type"@,
            self matches PostError::InconsistentWitnessSet ==> r@
                == "public sectors and vanilla proofs do not match"@,
            self matches PostError::ParameterGenerationError(why) ==> r@
                =~= "parameter generation failed: "@ + why@,
            self matches PostError::ProvingError(why) ==> r@ =~= "proving failed: "@ + why@,
    {
        match self {
            PostError::InvalidCommitment(label) => {
                let mut s = "invalid commitment: ".to_string();
                s.append(label.as_str());
                s
            },
            PostError::UnsupportedConfiguration => "invalid post config type".to_string(),
            PostError::InconsistentWitnessSet => {
                "public sectors and vanilla proofs do not match".to_string()
            },
            PostError::ParameterGenerationError(why) => {
                let mut s = "parameter generation failed: ".to_string();
                s.append(why.as_str());
                s
            },
            PostError::ProvingError(why) => {
                let mut s = "proving failed: ".to_string();
                s.append(why.as_str());
                s
            },
        }
    }
}

} // verus!
