use berry_program::errors::{
    ErrorKind, OrderingError, OwnershipError, ParameterError, ProvisionStep, ResourceError,
};
use berry_program::ledger::Ledger;
use berry_program::model::{
    AccountData, MintPhase, PublicKeyRef, Rent, MAX_FEE_BASIS_POINTS, MINT_ACCOUNT_SPACE,
    TOKEN_DECIMALS,
};
use berry_program::provision::{
    initialize_berry_token, next_action, InitializeBerry, ProvisionAction,
};

fn key(id: u64) -> PublicKeyRef {
    PublicKeyRef { id }
}

fn rent() -> Rent {
    Rent { lamports_per_byte_year: 3480, exemption_years: 2 }
}

/// Rent-exempt minimum of the fixed 400-byte mint account under `rent()`:
/// (128 + 400) * 3480 * 2.
const MINT_RENT: u64 = 528 * 3480 * 2;

fn accounts_for(mint: PublicKeyRef) -> InitializeBerry {
    InitializeBerry {
        authority: key(1),
        mint,
        rent: rent(),
        system_program: key(3),
        token_program: key(4),
    }
}

#[test]
fn successful_request_initializes_mint() {
    let mut ledger = Ledger::new(10_000_000_000);
    let accounts = accounts_for(key(2));

    let r = initialize_berry_token(&mut ledger, &accounts, 100, 5000);
    assert_eq!(r, Ok(()));

    assert_eq!(ledger.funder_lamports, 10_000_000_000 - MINT_RENT);
    assert_eq!(ledger.accounts.len(), 1);
    assert_eq!(ledger.phase_of(key(2)), MintPhase::Initialized);

    let account = ledger.account_of(key(2)).unwrap();
    assert_eq!(account.address, key(2));
    assert_eq!(account.owner, key(4));
    assert_eq!(account.length, MINT_ACCOUNT_SPACE);
    assert_eq!(account.lamports, MINT_RENT);
    match account.data {
        AccountData::Mint { fee_config, mint_state } => {
            assert_eq!(fee_config.fee_basis_points, 100);
            assert_eq!(fee_config.max_fee, 5000);
            assert_eq!(fee_config.transfer_fee_authority, key(1));
            assert_eq!(fee_config.withdraw_withheld_authority, key(1));
            assert_eq!(mint_state.decimals, TOKEN_DECIMALS);
            assert_eq!(mint_state.decimals, 9);
            assert_eq!(mint_state.mint_authority, key(1));
            assert_eq!(mint_state.freeze_authority, None);
            assert_eq!(mint_state.supply, 0);
        }
        other => panic!("expected an initialized mint, found {:?}", other),
    }
}

#[test]
fn boundary_fee_rates_accepted() {
    let mut ledger = Ledger::new(10_000_000_000);

    let r = initialize_berry_token(&mut ledger, &accounts_for(key(20)), 0, 0);
    assert_eq!(r, Ok(()));

    let r = initialize_berry_token(
        &mut ledger,
        &accounts_for(key(21)),
        MAX_FEE_BASIS_POINTS,
        u64::MAX,
    );
    assert_eq!(r, Ok(()));
    let account = ledger.account_of(key(21)).unwrap();
    match account.data {
        AccountData::Mint { fee_config, .. } => {
            assert_eq!(fee_config.fee_basis_points, 10_000);
            assert_eq!(fee_config.max_fee, u64::MAX);
        }
        other => panic!("expected an initialized mint, found {:?}", other),
    }
}

#[test]
fn fee_rate_out_of_range_rejected_then_retry_succeeds() {
    let mut ledger = Ledger::new(10_000_000_000);
    let accounts = accounts_for(key(2));

    let r = initialize_berry_token(&mut ledger, &accounts, 10_001, 5000);
    let failure = r.unwrap_err();
    assert_eq!(failure.step, ProvisionStep::ExtensionConfiguration);
    assert_eq!(
        failure.error,
        ErrorKind::Parameter { parameter: ParameterError::FeeBasisPointsExceedsMaximum }
    );

    // No mutation persists after the failure.
    assert_eq!(ledger.funder_lamports, 10_000_000_000);
    assert_eq!(ledger.accounts.len(), 0);
    assert_eq!(ledger.phase_of(key(2)), MintPhase::Unallocated);

    // A retry with corrected input succeeds identically.
    let r = initialize_berry_token(&mut ledger, &accounts, 10_000, 5000);
    assert_eq!(r, Ok(()));
    assert_eq!(ledger.phase_of(key(2)), MintPhase::Initialized);
}

#[test]
fn allocation_failure_leaves_no_trace() {
    let mut ledger = Ledger::new(0);
    let accounts = accounts_for(key(2));

    let r = initialize_berry_token(&mut ledger, &accounts, 100, 5000);
    let failure = r.unwrap_err();
    assert_eq!(failure.step, ProvisionStep::Allocation);
    assert_eq!(
        failure.error,
        ErrorKind::Resource { resource: ResourceError::InsufficientFunds }
    );

    // Neither extension configuration nor mint initialization is observable.
    assert_eq!(ledger.funder_lamports, 0);
    assert_eq!(ledger.accounts.len(), 0);
    assert_eq!(ledger.phase_of(key(2)), MintPhase::Unallocated);
}

#[test]
fn reusing_an_initialized_address_rejected() {
    let mut ledger = Ledger::new(10_000_000_000);
    let accounts = accounts_for(key(2));

    assert_eq!(initialize_berry_token(&mut ledger, &accounts, 100, 5000), Ok(()));
    let lamports_after_first = ledger.funder_lamports;

    // A second call reusing the same mint address fails at the allocation
    // step, whatever fee parameters it carries.
    let r = initialize_berry_token(&mut ledger, &accounts, 250, 99);
    let failure = r.unwrap_err();
    assert_eq!(failure.step, ProvisionStep::Allocation);
    assert_eq!(
        failure.error,
        ErrorKind::Ordering { ordering: OrderingError::MintAlreadyInitialized }
    );

    // The prior mint is untouched and nothing was charged.
    assert_eq!(ledger.funder_lamports, lamports_after_first);
    assert_eq!(ledger.accounts.len(), 1);
    let account = ledger.account_of(key(2)).unwrap();
    match account.data {
        AccountData::Mint { fee_config, .. } => assert_eq!(fee_config.fee_basis_points, 100),
        other => panic!("expected an initialized mint, found {:?}", other),
    }
}

#[test]
fn fresh_address_succeeds_after_prior_run() {
    let mut ledger = Ledger::new(10_000_000_000);

    assert_eq!(initialize_berry_token(&mut ledger, &accounts_for(key(2)), 100, 5000), Ok(()));
    assert_eq!(initialize_berry_token(&mut ledger, &accounts_for(key(5)), 700, 12), Ok(()));

    assert_eq!(ledger.accounts.len(), 2);
    assert_eq!(ledger.funder_lamports, 10_000_000_000 - 2 * MINT_RENT);
    assert_eq!(ledger.phase_of(key(2)), MintPhase::Initialized);
    assert_eq!(ledger.phase_of(key(5)), MintPhase::Initialized);
}

#[test]
fn collision_with_partially_provisioned_address() {
    let mut ledger = Ledger::new(10_000_000_000);
    let accounts = accounts_for(key(2));

    // An account already sits at the address but never became a mint.
    let r = ledger.allocate_account(key(2), MINT_RENT, MINT_ACCOUNT_SPACE, key(4));
    assert_eq!(r, Ok(()));
    assert_eq!(ledger.phase_of(key(2)), MintPhase::Allocated);

    let failure = initialize_berry_token(&mut ledger, &accounts, 100, 5000).unwrap_err();
    assert_eq!(failure.step, ProvisionStep::Allocation);
    assert_eq!(
        failure.error,
        ErrorKind::Resource { resource: ResourceError::AddressCollision }
    );
}

#[test]
fn configure_requires_token_program_ownership() {
    let mut ledger = Ledger::new(10_000_000_000);

    // Owner stayed with the system program instead of the token program.
    assert_eq!(ledger.allocate_account(key(2), MINT_RENT, MINT_ACCOUNT_SPACE, key(3)), Ok(()));
    let r = ledger.configure_transfer_fee(key(4), key(2), 100, 5000, key(1), key(1));
    assert_eq!(
        r,
        Err(ErrorKind::Ownership { ownership: OwnershipError::NotOwnedByTokenProgram })
    );

    // A missing account is not owned by the token program either.
    let r = ledger.configure_transfer_fee(key(4), key(9), 100, 5000, key(1), key(1));
    assert_eq!(
        r,
        Err(ErrorKind::Ownership { ownership: OwnershipError::NotOwnedByTokenProgram })
    );
}

#[test]
fn configure_rejects_wrong_account_size() {
    let mut ledger = Ledger::new(10_000_000_000);

    // Too small for the mint-plus-extension layout.
    assert_eq!(ledger.allocate_account(key(2), MINT_RENT, 82, key(4)), Ok(()));
    let r = ledger.configure_transfer_fee(key(4), key(2), 100, 5000, key(1), key(1));
    assert_eq!(
        r,
        Err(ErrorKind::Resource { resource: ResourceError::AccountSizeMismatch })
    );
}

#[test]
fn extension_is_written_exactly_once() {
    let mut ledger = Ledger::new(10_000_000_000);

    assert_eq!(ledger.allocate_account(key(2), MINT_RENT, MINT_ACCOUNT_SPACE, key(4)), Ok(()));
    assert_eq!(ledger.configure_transfer_fee(key(4), key(2), 100, 5000, key(1), key(1)), Ok(()));
    assert_eq!(ledger.phase_of(key(2)), MintPhase::ExtensionConfigured);

    let r = ledger.configure_transfer_fee(key(4), key(2), 200, 9000, key(1), key(1));
    assert_eq!(
        r,
        Err(ErrorKind::Ordering { ordering: OrderingError::ExtensionAlreadyConfigured })
    );
}

#[test]
fn mint_initialization_requires_prior_extension() {
    let mut ledger = Ledger::new(10_000_000_000);

    assert_eq!(ledger.allocate_account(key(2), MINT_RENT, MINT_ACCOUNT_SPACE, key(4)), Ok(()));
    let r = ledger.initialize_mint(key(4), key(2), TOKEN_DECIMALS, key(1), None);
    assert_eq!(
        r,
        Err(ErrorKind::Ordering { ordering: OrderingError::ExtensionNotConfigured })
    );
}

#[test]
fn mint_state_is_written_exactly_once() {
    let mut ledger = Ledger::new(10_000_000_000);
    let accounts = accounts_for(key(2));

    assert_eq!(initialize_berry_token(&mut ledger, &accounts, 100, 5000), Ok(()));
    let r = ledger.initialize_mint(key(4), key(2), TOKEN_DECIMALS, key(1), None);
    assert_eq!(
        r,
        Err(ErrorKind::Ordering { ordering: OrderingError::MintAlreadyInitialized })
    );
}

#[test]
fn rent_minimum_balance_formula() {
    let r = rent();
    assert_eq!(r.minimum_balance(MINT_ACCOUNT_SPACE), MINT_RENT);
    assert_eq!(r.minimum_balance(0), 128 * 3480 * 2);
    let free = Rent { lamports_per_byte_year: 0, exemption_years: 2 };
    assert_eq!(free.minimum_balance(MINT_ACCOUNT_SPACE), 0);
}

#[test]
fn planner_follows_the_one_valid_order() {
    let r = rent();

    let a = next_action(MintPhase::Unallocated, &r, key(1), 100, 5000);
    assert_eq!(
        a,
        Some(ProvisionAction::CreateMintAccount { lamports: MINT_RENT, space: MINT_ACCOUNT_SPACE })
    );

    let a = next_action(MintPhase::Allocated, &r, key(1), 100, 5000);
    assert_eq!(
        a,
        Some(ProvisionAction::InitializeTransferFeeExtension {
            fee_basis_points: 100,
            max_fee: 5000,
            transfer_fee_authority: key(1),
            withdraw_withheld_authority: key(1),
        })
    );

    let a =
        next_action(MintPhase::ExtensionConfigured, &r, key(1), 100, 5000);
    assert_eq!(
        a,
        Some(ProvisionAction::InitializeMintState {
            decimals: 9,
            mint_authority: key(1),
            freeze_authority: None,
        })
    );

    let a = next_action(MintPhase::Initialized, &r, key(1), 100, 5000);
    assert_eq!(a, None);
}

#[test]
fn phases_advance_in_order_and_never_back() {
    let mut ledger = Ledger::new(10_000_000_000);

    assert_eq!(ledger.phase_of(key(2)), MintPhase::Unallocated);
    assert_eq!(ledger.allocate_account(key(2), MINT_RENT, MINT_ACCOUNT_SPACE, key(4)), Ok(()));
    assert_eq!(ledger.phase_of(key(2)), MintPhase::Allocated);
    assert_eq!(ledger.configure_transfer_fee(key(4), key(2), 100, 5000, key(1), key(1)), Ok(()));
    assert_eq!(ledger.phase_of(key(2)), MintPhase::ExtensionConfigured);
    assert_eq!(ledger.initialize_mint(key(4), key(2), TOKEN_DECIMALS, key(1), None), Ok(()));
    assert_eq!(ledger.phase_of(key(2)), MintPhase::Initialized);

    // Every further operation against the address is rejected: the structure
    // is immutable once initialized.
    assert!(ledger.allocate_account(key(2), MINT_RENT, MINT_ACCOUNT_SPACE, key(4)).is_err());
    assert!(ledger.configure_transfer_fee(key(4), key(2), 100, 5000, key(1), key(1)).is_err());
    assert!(ledger.initialize_mint(key(4), key(2), TOKEN_DECIMALS, key(1), None).is_err());
    assert_eq!(ledger.phase_of(key(2)), MintPhase::Initialized);
}
