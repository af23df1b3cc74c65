//! Error types.
use vstd::prelude::*;

verus! {

/// Errors particular to the feature gate program.
#[derive(Clone, Copy, Debug, PartialEq, Eq, Structural)]
pub enum FeatureGateError {
    /// Feature already activated
    FeatureAlreadyActivated,
    /// Feature already staged for activation
    FeatureAlreadyStaged,
    /// Feature stage is full
    FeatureStageFull,
    /// Incorrect staged features address
    IncorrectStagedFeaturesAddress,
    /// Incorrect validator support signal address
    IncorrectValidatorSupportSignalAddress,
    /// No bump seed gives a valid derived address
    DerivationExhausted,
}

/// The stable numeric code of each error.
pub open spec fn gate_error_code(e: FeatureGateError) -> u32 {
    match e {
        FeatureGateError::FeatureAlreadyActivated => 0,
        FeatureGateError::FeatureAlreadyStaged => 1,
        FeatureGateError::FeatureStageFull => 2,
        FeatureGateError::IncorrectStagedFeaturesAddress => 3,
        FeatureGateError::IncorrectValidatorSupportSignalAddress => 4,
        FeatureGateError::DerivationExhausted => 5,
    }
}

impl FeatureGateError {
    /// The stable numeric code reported for this error.
    pub fn code(&self) -> (r: u32)
        ensures
            r == gate_error_code(*self),
    {
        match self {
            FeatureGateError::FeatureAlreadyActivated => 0,
            FeatureGateError::FeatureAlreadyStaged => 1,
            FeatureGateError::FeatureStageFull => 2,
            FeatureGateError::IncorrectStagedFeaturesAddress => 3,
            FeatureGateError::IncorrectValidatorSupportSignalAddress => 4,
            FeatureGateError::DerivationExhausted => 5,
        }
    }

    /// The error whose code is `code`, if any.
    pub fn from_code(code: u32) -> (r: Option<FeatureGateError>)
        ensures
            r matches Some(e) ==> gate_error_code(e) == code,
            r is None <==> code > 5,
    {
        match code {
            0 => Some(FeatureGateError::FeatureAlreadyActivated),
            1 => Some(FeatureGateError::FeatureAlreadyStaged),
            2 => Some(FeatureGateError::FeatureStageFull),
            3 => Some(FeatureGateError::IncorrectStagedFeaturesAddress),
            4 => Some(FeatureGateError::IncorrectValidatorSupportSignalAddress),
            5 => Some(FeatureGateError::DerivationExhausted),
            _ => None,
        }
    }

    /// A message describing the error.
    pub fn to_str(&self) -> &'static str {
        match self {
            FeatureGateError::FeatureAlreadyActivated => "Feature already activated",
            FeatureGateError::FeatureAlreadyStaged => "Feature already staged for activation",
            FeatureGateError::FeatureStageFull => "Feature stage is full",
            FeatureGateError::IncorrectStagedFeaturesAddress => "Incorrect staged features address",
            FeatureGateError::IncorrectValidatorSupportSignalAddress => {
                "Incorrect validator support signal address"
            },
            FeatureGateError::DerivationExhausted => "No viable bump seed for a derived address",
        }
    }
}

/// The ways an instruction can fail, as reported to the runtime.
#[derive(Clone, Copy, Debug, PartialEq, Eq, Structural)]
pub enum ProcessError {
    /// A required signature is missing.
    MissingRequiredSignature,
    /// The authority is not the expected one.
    IncorrectAuthority,
    /// An account is not owned by the expected program.
    InvalidAccountOwner,
    /// An account's data cannot be read in the expected layout.
    InvalidAccountData,
    /// An account that this program writes is owned by another program.
    IncorrectProgramId,
    /// The instruction data cannot be decoded.
    InvalidInstructionData,
    /// An error particular to this program.
    Custom(FeatureGateError),
}

impl From<FeatureGateError> for ProcessError {
    fn from(e: FeatureGateError) -> (r: ProcessError) {
        ProcessError::Custom(e)
    }
}

impl vstd::std_specs::convert::FromSpecImpl<FeatureGateError> for ProcessError {
    open spec fn obeys_from_spec() -> bool {
        true
    }

    open spec fn from_spec(e: FeatureGateError) -> ProcessError {
        ProcessError::Custom(e)
    }
}

} // verus!
