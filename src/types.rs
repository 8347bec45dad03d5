use vstd::prelude::*;

verus! {

/// An account on the chain, as the genesis configuration lists it.
pub type AccountId = u64;

/// The number of a session, counted from genesis.
pub type SessionIndex = u32;

/// The identity under which an account takes part in consensus.
#[derive(Clone, Copy, Debug, PartialEq, Eq, PartialOrd, Ord, Hash, Structural)]
pub struct ValidatorId(pub u64);

/// The four-byte tag that names a consensus role, read as a big-endian integer.
#[derive(Clone, Copy, Debug, PartialEq, Eq, Hash, Structural)]
pub struct KeyTypeId(pub u32);

/// Tag of the block-authoring role (`aura`).
pub const AURA_KEY_TYPE: u32 = 0x6175_7261;

/// Tag of the finality-voting role (`gran`).
pub const GRANDPA_KEY_TYPE: u32 = 0x6772_616e;

/// Tag of the single test role (`dumy`).
pub const DUMMY_KEY_TYPE: u32 = 0x6475_6d79;

/// Who submitted a call.
#[derive(Clone, Copy, Debug, PartialEq, Eq, Structural)]
pub enum RuntimeOrigin {
    /// The privileged origin, allowed to change the validator set.
    Root,
    /// An ordinary signed account.
    Signed(AccountId),
    /// An unsigned submission.
    Unsigned,
}

/// Why a mutating call was refused. A refused call changes nothing.
#[derive(Clone, Copy, Debug, PartialEq, Eq, Structural)]
pub enum Error {
    /// The caller is not the privileged origin.
    BadOrigin,
    /// The validator is already queued for this change.
    ValidatorAlreadyAdded,
    /// The account is not in the active validator set.
    NotValidator,
    /// Removing this validator would put the validator count below the minimum.
    TooFewValidators,
    /// The validator has no complete, well-formed session key bundle.
    NoKeysRegistered,
}

/// A notification left by a successful call.
#[derive(Debug, PartialEq, Eq)]
pub enum Event {
    /// New validators were queued for activation.
    ValidatorsRegistered { validators: Vec<ValidatorId> },
    /// A validator was queued for removal.
    ValidatorRemoved { validator: ValidatorId },
}

/// Whether the caller may change the validator set.
pub open spec fn is_privileged(origin: RuntimeOrigin) -> bool {
    origin == RuntimeOrigin::Root
}

/// Admits the privileged origin only.
pub fn ensure_privileged(origin: RuntimeOrigin) -> (r: Result<(), Error>)
    ensures
        r == (if is_privileged(origin) { Ok(()) } else { Err::<(), Error>(Error::BadOrigin) }),
{
    match origin {
        RuntimeOrigin::Root => Ok(()),
        _ => Err(Error::BadOrigin),
    }
}

/// The validator identity of an account: the same number, for every account.
pub open spec fn validator_of(account: AccountId) -> ValidatorId {
    ValidatorId(account)
}

/// Maps an account to its validator identity, as the pallet does.
pub struct ValidatorOf;

impl ValidatorOf {
    pub fn convert(account: AccountId) -> (r: Option<ValidatorId>)
        ensures
            r == Some(validator_of(account)),
    {
        Some(ValidatorId(account))
    }
}

/// Maps an account to its validator identity, as the runtime's session keys are looked up.
pub struct ConvertAccountIdToSessionIndex;

impl ConvertAccountIdToSessionIndex {
    pub fn convert(account: AccountId) -> (r: Option<ValidatorId>)
        ensures
            r == Some(validator_of(account)),
    {
        Some(ValidatorId(account))
    }
}

} // verus!
