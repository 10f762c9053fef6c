use vstd::prelude::*;

verus! {

/// Fixed byte length of the storage account allocated for a mint: enough for
/// the base mint layout plus the transfer-fee extension.
pub const MINT_ACCOUNT_SPACE: u64 = 400;

/// Decimals of the token; fixed, not caller-configurable.
pub const TOKEN_DECIMALS: u8 = 9;

/// Largest accepted fee rate: 10000 basis points is 100%.
pub const MAX_FEE_BASIS_POINTS: u16 = 10_000;

/// Bytes of bookkeeping overhead the rent schedule charges per account on top
/// of its data length.
pub const ACCOUNT_STORAGE_OVERHEAD: u64 = 128;

/// Largest data length an account may be allocated with (10 MiB).
pub const MAX_PERMITTED_DATA_LENGTH: u64 = 10 * 1024 * 1024;

/// Bound on a well-formed rent schedule's per-byte-year price, so that
/// rent-exempt minimums fit in a `u64` for every permitted data length.
pub const MAX_LAMPORTS_PER_BYTE_YEAR: u64 = 1_000_000_000;

/// Bound on a well-formed rent schedule's exemption horizon, in years.
pub const MAX_RENT_EXEMPTION_YEARS: u64 = 4;

/// An on-chain address, reduced to the one thing this core reads from a
/// public key: its identity.
#[derive(Clone, Copy, PartialEq, Eq, Structural, Debug)]
pub struct PublicKeyRef {
    pub id: u64,
}

/// The transfer-fee extension record carried by a mint account.
#[derive(Clone, Copy, PartialEq, Eq, Debug)]
pub struct TransferFeeConfig {
    /// Fee rate in hundredths of a percent, at most `MAX_FEE_BASIS_POINTS`.
    pub fee_basis_points: u16,
    /// Absolute cap on the fee withheld from a single transfer.
    pub max_fee: u64,
    /// Key allowed to change the fee schedule later.
    pub transfer_fee_authority: PublicKeyRef,
    /// Key allowed to withdraw withheld fees.
    pub withdraw_withheld_authority: PublicKeyRef,
}

/// The base mint record, written exactly once when the mint is finalized.
#[derive(Clone, Copy, PartialEq, Eq, Debug)]
pub struct MintState {
    pub decimals: u8,
    pub mint_authority: PublicKeyRef,
    pub freeze_authority: Option<PublicKeyRef>,
    pub supply: u64,
}

/// Contents of an allocated storage account, as the token-management program
/// interprets them. The layout makes the ordering invariant structural: mint
/// state can only exist together with an extension record, never before one.
#[derive(Clone, Copy, PartialEq, Eq, Debug)]
pub enum AccountData {
    /// Freshly allocated: every byte still zero.
    Raw,
    /// Transfer-fee extension written; base mint region still uninitialized.
    FeeConfigured { fee_config: TransferFeeConfig },
    /// Fully initialized mint: extension record plus base mint record.
    Mint { fee_config: TransferFeeConfig, mint_state: MintState },
}

/// One allocated storage account of the ledger.
#[derive(Clone, Copy, PartialEq, Eq, Debug)]
pub struct Account {
    pub address: PublicKeyRef,
    pub lamports: u64,
    /// The program that owns interpretation of the account's bytes.
    pub owner: PublicKeyRef,
    /// Allocated data length in bytes.
    pub length: u64,
    pub data: AccountData,
}

/// Lifecycle phase of a mint address. `Unallocated` means no account exists
/// at the address yet; the other phases follow the account's contents.
#[derive(Clone, Copy, PartialEq, Eq, Structural, Debug)]
pub enum MintPhase {
    Unallocated,
    Allocated,
    ExtensionConfigured,
    Initialized,
}

impl Account {
    /// Lifecycle phase encoded by the account's contents.
    pub open spec fn spec_phase(self) -> MintPhase {
        match self.data {
            AccountData::Raw => MintPhase::Allocated,
            AccountData::FeeConfigured { .. } => MintPhase::ExtensionConfigured,
            AccountData::Mint { .. } => MintPhase::Initialized,
        }
    }

    /// Lifecycle phase encoded by the account's contents.
    pub fn phase(&self) -> (p: MintPhase)
        ensures
            p == self.spec_phase(),
    {
        match self.data {
            AccountData::Raw => MintPhase::Allocated,
            AccountData::FeeConfigured { .. } => MintPhase::ExtensionConfigured,
            AccountData::Mint { .. } => MintPhase::Initialized,
        }
    }
}

/// The host environment's rent schedule, with the exemption horizon in whole
/// years. Rent-exemption queries answer from these two prices.
#[derive(Clone, Copy, PartialEq, Eq, Structural, Debug)]
pub struct Rent {
    pub lamports_per_byte_year: u64,
    pub exemption_years: u64,
}

impl Rent {
    /// A schedule the host could actually publish: prices small enough that
    /// the minimum balance of any permitted account length fits in `u64`.
    pub open spec fn wf(self) -> bool {
        &&& self.lamports_per_byte_year <= MAX_LAMPORTS_PER_BYTE_YEAR
        &&& self.exemption_years <= MAX_RENT_EXEMPTION_YEARS
    }

    /// Lamports an account of the given data length must hold to be exempt
    /// from rent collection.
    pub open spec fn spec_minimum_balance(self, length: u64) -> int {
        (ACCOUNT_STORAGE_OVERHEAD + length) * self.lamports_per_byte_year
            * self.exemption_years
    }

    /// Lamports an account of the given data length must hold to be exempt
    /// from rent collection.
    pub fn minimum_balance(&self, length: u64) -> (lamports: u64)
        requires
            self.wf(),
            length <= MAX_PERMITTED_DATA_LENGTH,
        ensures
            lamports == self.spec_minimum_balance(length),
    {
        let base: u64 = ACCOUNT_STORAGE_OVERHEAD + length;
        proof {
            assert(base * self.lamports_per_byte_year <= 10485888000000000) by (nonlinear_arith)
                requires
                    base <= 10485888,
                    self.lamports_per_byte_year <= 1000000000,
            ;
        }
        let per_year: u64 = base * self.lamports_per_byte_year;
        proof {
            assert(per_year * self.exemption_years <= 41943552000000000) by (nonlinear_arith)
                requires
                    per_year <= 10485888000000000,
                    self.exemption_years <= 4,
            ;
        }
        per_year * self.exemption_years
    }
}

} // verus!
