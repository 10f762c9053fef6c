use vstd::prelude::*;

use crate::errors::{ErrorKind, OrderingError, ParameterError, ProvisionFailure, ProvisionStep};
use crate::ledger::{account_at, has_account, lemma_account_at_index, Ledger};
use crate::model::{
    Account, AccountData, MintPhase, MintState, PublicKeyRef, Rent, TransferFeeConfig,
    MAX_FEE_BASIS_POINTS, MINT_ACCOUNT_SPACE, TOKEN_DECIMALS,
};
use crate::steps::spec_allocation_error;

verus! {

/// The accounts a provisioning request runs with: the funding authority (a
/// signer), the fresh mint keypair's address (a signer), the host's rent
/// schedule, and the two collaborating programs.
#[derive(Clone, Copy, PartialEq, Eq, Structural, Debug)]
pub struct InitializeBerry {
    /// Funder, signer, and the key both fee authorities and the mint
    /// authority are set to.
    pub authority: PublicKeyRef,
    /// Fresh, caller-generated address the mint account is created at.
    pub mint: PublicKeyRef,
    /// The host's rent schedule, answering rent-exemption queries.
    pub rent: Rent,
    /// The program that performs raw account allocation.
    pub system_program: PublicKeyRef,
    /// The token-management program that owns the mint account's layout.
    pub token_program: PublicKeyRef,
}

/// A request is accepted exactly when the mint address is free, the funder
/// can pay the rent-exempt minimum of the fixed account length, and the fee
/// rate is in range.
pub open spec fn spec_request_accepted(
    l: Ledger,
    accounts: InitializeBerry,
    fee_basis_points: u16,
) -> bool {
    &&& !has_account(l.accounts@, accounts.mint)
    &&& l.funder_lamports >= accounts.rent.spec_minimum_balance(MINT_ACCOUNT_SPACE)
    &&& fee_basis_points <= MAX_FEE_BASIS_POINTS
}

/// The failure a rejected request reports: allocation faults first (a taken
/// address, then funding), else the fee rate is out of range and the
/// configuration step rejects the parameters.
pub open spec fn spec_request_failure(
    l: Ledger,
    accounts: InitializeBerry,
    fee_basis_points: u16,
) -> ProvisionFailure {
    if has_account(l.accounts@, accounts.mint) || l.funder_lamports
        < accounts.rent.spec_minimum_balance(MINT_ACCOUNT_SPACE) {
        ProvisionFailure {
            step: ProvisionStep::Allocation,
            error: spec_allocation_error(l, accounts.mint),
        }
    } else {
        ProvisionFailure {
            step: ProvisionStep::ExtensionConfiguration,
            error: ErrorKind::Parameter {
                parameter: ParameterError::FeeBasisPointsExceedsMaximum,
            },
        }
    }
}

/// The account a successful request leaves behind: rent-exempt, owned by the
/// token-management program, fully initialized with the requested fee record
/// and a zero-supply mint of the fixed decimals.
pub open spec fn provisioned_account(
    accounts: InitializeBerry,
    fee_basis_points: u16,
    max_fee: u64,
) -> Account {
    Account {
        address: accounts.mint,
        lamports: accounts.rent.spec_minimum_balance(MINT_ACCOUNT_SPACE) as u64,
        owner: accounts.token_program,
        length: MINT_ACCOUNT_SPACE,
        data: AccountData::Mint {
            fee_config: TransferFeeConfig {
                fee_basis_points,
                max_fee,
                transfer_fee_authority: accounts.authority,
                withdraw_withheld_authority: accounts.authority,
            },
            mint_state: MintState {
                decimals: TOKEN_DECIMALS,
                mint_authority: accounts.authority,
                freeze_authority: None,
                supply: 0,
            },
        },
    }
}

/// Provision a new fungible token: allocate the mint account, write the
/// transfer-fee extension, then finalize the mint — in that order, as one
/// atomic unit. On any rejection the context is left exactly as it was.
pub fn initialize_berry_token(
    ledger: &mut Ledger,
    accounts: &InitializeBerry,
    fee_basis_points: u16,
    max_fee: u64,
) -> (r: Result<(), ProvisionFailure>)
    requires
        old(ledger).wf(),
        accounts.rent.wf(),
    ensures
        final(ledger).wf(),
        (r is Ok) == spec_request_accepted(*old(ledger), *accounts, fee_basis_points),
        r is Ok ==> {
            &&& final(ledger).funder_lamports == old(ledger).funder_lamports
                - accounts.rent.spec_minimum_balance(MINT_ACCOUNT_SPACE)
            &&& final(ledger).accounts@ == old(ledger).accounts@.push(
                provisioned_account(*accounts, fee_basis_points, max_fee),
            )
        },
        r is Err ==> {
            &&& final(ledger).funder_lamports == old(ledger).funder_lamports
            &&& final(ledger).accounts@ == old(ledger).accounts@
        },
        r matches Err(f) ==> f == spec_request_failure(*old(ledger), *accounts, fee_basis_points),
{
    let lamports = accounts.rent.minimum_balance(MINT_ACCOUNT_SPACE);

    match ledger.allocate_account(
        accounts.mint,
        lamports,
        MINT_ACCOUNT_SPACE,
        accounts.token_program,
    ) {
        Err(e) => {
            return Err(ProvisionFailure { step: ProvisionStep::Allocation, error: e });
        }
        Ok(()) => {}
    }
    proof {
        lemma_account_at_index(
            ledger.accounts@,
            accounts.mint,
            old(ledger).accounts@.len() as int,
        );
    }

    match ledger.configure_transfer_fee(
        accounts.token_program,
        accounts.mint,
        fee_basis_points,
        max_fee,
        accounts.authority,
        accounts.authority,
    ) {
        Err(e) => {
            // The host transaction is all-or-nothing: undo the allocation.
            match ledger.accounts.pop() {
                Some(a) => {
                    ledger.funder_lamports = ledger.funder_lamports + a.lamports;
                }
                None => {
                    return vstd::pervasive::unreached();
                }
            }
            proof {
                assert(ledger.accounts@ =~= old(ledger).accounts@);
            }
            return Err(ProvisionFailure { step: ProvisionStep::ExtensionConfiguration, error: e });
        }
        Ok(()) => {}
    }
    proof {
        lemma_account_at_index(
            ledger.accounts@,
            accounts.mint,
            old(ledger).accounts@.len() as int,
        );
    }

    match ledger.initialize_mint(
        accounts.token_program,
        accounts.mint,
        TOKEN_DECIMALS,
        accounts.authority,
        None,
    ) {
        Err(_) => {
            // A configured, owner-correct account finalizes; this arm cannot
            // be reached.
            return vstd::pervasive::unreached();
        }
        Ok(()) => {}
    }
    proof {
        assert(ledger.accounts@ =~= old(ledger).accounts@.push(
            provisioned_account(*accounts, fee_basis_points, max_fee),
        ));
    }
    Ok(())
}

/// One leaf operation of the protocol, as the host must perform it next.
#[derive(Clone, Copy, PartialEq, Eq, Structural, Debug)]
pub enum ProvisionAction {
    /// Create the raw storage account: fund it with the given balance and
    /// assign it to the token-management program.
    CreateMintAccount { lamports: u64, space: u64 },
    /// Write the transfer-fee extension with these parameters.
    InitializeTransferFeeExtension {
        fee_basis_points: u16,
        max_fee: u64,
        transfer_fee_authority: PublicKeyRef,
        withdraw_withheld_authority: PublicKeyRef,
    },
    /// Finalize the account as a mint.
    InitializeMintState {
        decimals: u8,
        mint_authority: PublicKeyRef,
        freeze_authority: Option<PublicKeyRef>,
    },
}

/// The operation a host driving the protocol step by step must perform next,
/// given the mint address's current phase; `None` once the mint is fully
/// initialized.
pub fn next_action(
    phase: MintPhase,
    rent: &Rent,
    authority: PublicKeyRef,
    fee_basis_points: u16,
    max_fee: u64,
) -> (a: Option<ProvisionAction>)
    requires
        rent.wf(),
    ensures
        phase is Unallocated ==> a == Some(
            ProvisionAction::CreateMintAccount {
                lamports: rent.spec_minimum_balance(MINT_ACCOUNT_SPACE) as u64,
                space: MINT_ACCOUNT_SPACE,
            },
        ),
        phase is Allocated ==> a == Some(
            ProvisionAction::InitializeTransferFeeExtension {
                fee_basis_points,
                max_fee,
                transfer_fee_authority: authority,
                withdraw_withheld_authority: authority,
            },
        ),
        phase is ExtensionConfigured ==> a == Some(
            ProvisionAction::InitializeMintState {
                decimals: TOKEN_DECIMALS,
                mint_authority: authority,
                freeze_authority: None,
            },
        ),
        phase is Initialized ==> (a is None),
{
    match phase {
        MintPhase::Unallocated => Some(
            ProvisionAction::CreateMintAccount {
                lamports: rent.minimum_balance(MINT_ACCOUNT_SPACE),
                space: MINT_ACCOUNT_SPACE,
            },
        ),
        MintPhase::Allocated => Some(
            ProvisionAction::InitializeTransferFeeExtension {
                fee_basis_points,
                max_fee,
                transfer_fee_authority: authority,
                withdraw_withheld_authority: authority,
            },
        ),
        MintPhase::ExtensionConfigured => Some(
            ProvisionAction::InitializeMintState {
                decimals: TOKEN_DECIMALS,
                mint_authority: authority,
                freeze_authority: None,
            },
        ),
        MintPhase::Initialized => None,
    }
}

/// A failed request leaves the context untouched, so a later request against
/// it — a retry with corrected parameters among them — is accepted, and
/// classified on rejection, exactly as it would have been before the
/// failure.
pub proof fn lemma_failure_preserves_acceptance(
    before: Ledger,
    after: Ledger,
    accounts: InitializeBerry,
    fee_basis_points: u16,
)
    requires
        after.funder_lamports == before.funder_lamports,
        after.accounts@ == before.accounts@,
    ensures
        spec_request_accepted(after, accounts, fee_basis_points) == spec_request_accepted(
            before,
            accounts,
            fee_basis_points,
        ),
        spec_request_failure(after, accounts, fee_basis_points) == spec_request_failure(
            before,
            accounts,
            fee_basis_points,
        ),
{
}

/// Re-running a full request against an address that already reached
/// `Initialized` is rejected at the allocation step as an ordering fault —
/// never accepted — whatever fee parameters the new request carries.
pub proof fn lemma_reinitialization_rejected(
    l: Ledger,
    accounts: InitializeBerry,
    fee_basis_points: u16,
)
    requires
        l.wf(),
        (l.spec_phase_of(accounts.mint) is Initialized),
    ensures
        !spec_request_accepted(l, accounts, fee_basis_points),
        spec_request_failure(l, accounts, fee_basis_points) == (ProvisionFailure {
            step: ProvisionStep::Allocation,
            error: ErrorKind::Ordering { ordering: OrderingError::MintAlreadyInitialized },
        }),
{
    assert(has_account(l.accounts@, accounts.mint));
}

/// After a successful request the mint address is at phase `Initialized`
/// exactly, holding the provisioned account: the requested fee record, both
/// fee authorities and the mint authority equal to the caller's authority,
/// the fixed decimals, and a supply of zero.
pub proof fn lemma_success_initializes_mint(
    before: Ledger,
    after: Ledger,
    accounts: InitializeBerry,
    fee_basis_points: u16,
    max_fee: u64,
)
    requires
        before.wf(),
        !has_account(before.accounts@, accounts.mint),
        after.accounts@ == before.accounts@.push(
            provisioned_account(accounts, fee_basis_points, max_fee),
        ),
    ensures
        (after.spec_phase_of(accounts.mint) is Initialized),
        account_at(after.accounts@, accounts.mint) == provisioned_account(
            accounts,
            fee_basis_points,
            max_fee,
        ),
{
    let s = after.accounts@;
    let n = before.accounts@.len() as int;
    assert forall|p: int, q: int|
        0 <= p < s.len() && 0 <= q < s.len() && p != q implies s[p].address != s[q].address by {
        if p < n && q < n {
            assert(before.accounts@[p].address != before.accounts@[q].address);
        }
    }
    lemma_account_at_index(s, accounts.mint, n);
}

} // verus!
