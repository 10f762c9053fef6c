use vstd::prelude::*;

verus! {

/// Failures of the host's resources: funding, the target address, or the
/// account's allocated size.
#[derive(Clone, Copy, PartialEq, Eq, Structural, Debug)]
pub enum ResourceError {
    /// The funder's balance cannot cover the rent-exempt minimum.
    InsufficientFunds,
    /// An account already sits at the target address.
    AddressCollision,
    /// The account's allocated length does not match the mint-plus-extension
    /// layout the token-management program expects.
    AccountSizeMismatch,
}

/// The account is not owned by the token-management program (or does not
/// exist at all) when an extension or mint operation is attempted.
#[derive(Clone, Copy, PartialEq, Eq, Structural, Debug)]
pub enum OwnershipError {
    NotOwnedByTokenProgram,
}

/// A step was attempted out of the one valid order
/// `Allocated -> ExtensionConfigured -> Initialized`.
#[derive(Clone, Copy, PartialEq, Eq, Structural, Debug)]
pub enum OrderingError {
    /// The mint-state region was already written; nothing may follow.
    MintAlreadyInitialized,
    /// The transfer-fee extension was already written; it is written once.
    ExtensionAlreadyConfigured,
    /// Mint finalization was attempted before the extension was configured.
    ExtensionNotConfigured,
}

/// A caller-supplied parameter lies outside its accepted range.
#[derive(Clone, Copy, PartialEq, Eq, Structural, Debug)]
pub enum ParameterError {
    /// Fee basis points above `MAX_FEE_BASIS_POINTS`.
    FeeBasisPointsExceedsMaximum,
}

/// Everything a single leaf operation can fail with.
#[derive(Clone, Copy, PartialEq, Eq, Structural, Debug)]
pub enum ErrorKind {
    Resource { resource: ResourceError },
    Ownership { ownership: OwnershipError },
    Ordering { ordering: OrderingError },
    Parameter { parameter: ParameterError },
}

/// The three leaf operations of a provisioning request, in their one valid
/// order.
#[derive(Clone, Copy, PartialEq, Eq, Structural, Debug)]
pub enum ProvisionStep {
    Allocation,
    ExtensionConfiguration,
    MintInitialization,
}

/// A failed provisioning request: what went wrong, and at which step.
#[derive(Clone, Copy, PartialEq, Eq, Structural, Debug)]
pub struct ProvisionFailure {
    pub step: ProvisionStep,
    pub error: ErrorKind,
}

} // verus!
