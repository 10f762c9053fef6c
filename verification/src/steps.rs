use vstd::prelude::*;

use crate::errors::{ErrorKind, OrderingError, OwnershipError, ParameterError, ResourceError};
use crate::ledger::{account_at, account_index, has_account, lemma_account_at_index, Ledger};
use crate::model::{
    Account, AccountData, MintState, PublicKeyRef, TransferFeeConfig, MAX_FEE_BASIS_POINTS,
    MINT_ACCOUNT_SPACE,
};

verus! {

/// The allocation step succeeds exactly when the target address is free and
/// the funder can pay the requested balance.
pub open spec fn spec_allocation_accepted(l: Ledger, address: PublicKeyRef, lamports: u64) -> bool {
    &&& !has_account(l.accounts@, address)
    &&& l.funder_lamports >= lamports
}

/// The error a rejected allocation reports. A collision with an address that
/// already reached full initialization is an ordering fault of the whole
/// protocol; any other collision is a resource fault.
pub open spec fn spec_allocation_error(l: Ledger, address: PublicKeyRef) -> ErrorKind {
    if has_account(l.accounts@, address) {
        if account_at(l.accounts@, address).data is Mint {
            ErrorKind::Ordering { ordering: OrderingError::MintAlreadyInitialized }
        } else {
            ErrorKind::Resource { resource: ResourceError::AddressCollision }
        }
    } else {
        ErrorKind::Resource { resource: ResourceError::InsufficientFunds }
    }
}

/// The account a successful allocation creates: funded, owned by the given
/// program, contents still all zero.
pub open spec fn allocated_account(
    address: PublicKeyRef,
    lamports: u64,
    space: u64,
    owner: PublicKeyRef,
) -> Account {
    Account { address, lamports, owner, length: space, data: AccountData::Raw }
}

/// The configuration step succeeds exactly when the account exists, is owned
/// by the token-management program, has the mint-plus-extension length, is
/// still all zero, and the fee rate is in range.
pub open spec fn spec_configuration_accepted(
    l: Ledger,
    token_program: PublicKeyRef,
    address: PublicKeyRef,
    fee_basis_points: u16,
) -> bool {
    &&& has_account(l.accounts@, address)
    &&& account_at(l.accounts@, address).owner == token_program
    &&& account_at(l.accounts@, address).length == MINT_ACCOUNT_SPACE
    &&& account_at(l.accounts@, address).data is Raw
    &&& fee_basis_points <= MAX_FEE_BASIS_POINTS
}

/// The error a rejected configuration reports, in the order the
/// token-management program checks: ownership, layout, write order, then
/// parameters.
pub open spec fn spec_configuration_error(
    l: Ledger,
    token_program: PublicKeyRef,
    address: PublicKeyRef,
    fee_basis_points: u16,
) -> ErrorKind {
    if !has_account(l.accounts@, address) || account_at(l.accounts@, address).owner
        != token_program {
        ErrorKind::Ownership { ownership: OwnershipError::NotOwnedByTokenProgram }
    } else if account_at(l.accounts@, address).length != MINT_ACCOUNT_SPACE {
        ErrorKind::Resource { resource: ResourceError::AccountSizeMismatch }
    } else if account_at(l.accounts@, address).data is FeeConfigured {
        ErrorKind::Ordering { ordering: OrderingError::ExtensionAlreadyConfigured }
    } else if account_at(l.accounts@, address).data is Mint {
        ErrorKind::Ordering { ordering: OrderingError::MintAlreadyInitialized }
    } else {
        ErrorKind::Parameter { parameter: ParameterError::FeeBasisPointsExceedsMaximum }
    }
}

/// The account after a successful configuration: same address, balance,
/// owner and length, with the transfer-fee record written.
pub open spec fn configured_account(
    a: Account,
    fee_basis_points: u16,
    max_fee: u64,
    transfer_fee_authority: PublicKeyRef,
    withdraw_withheld_authority: PublicKeyRef,
) -> Account {
    Account {
        address: a.address,
        lamports: a.lamports,
        owner: a.owner,
        length: a.length,
        data: AccountData::FeeConfigured {
            fee_config: TransferFeeConfig {
                fee_basis_points,
                max_fee,
                transfer_fee_authority,
                withdraw_withheld_authority,
            },
        },
    }
}

/// The finalization step succeeds exactly when the account exists, is owned
/// by the token-management program, has the mint-plus-extension length, and
/// carries the extension record but no mint state yet.
pub open spec fn spec_initialization_accepted(
    l: Ledger,
    token_program: PublicKeyRef,
    address: PublicKeyRef,
) -> bool {
    &&& has_account(l.accounts@, address)
    &&& account_at(l.accounts@, address).owner == token_program
    &&& account_at(l.accounts@, address).length == MINT_ACCOUNT_SPACE
    &&& account_at(l.accounts@, address).data is FeeConfigured
}

/// The error a rejected finalization reports: ownership, layout, then write
/// order (a second initialization, or a missing extension record).
pub open spec fn spec_initialization_error(
    l: Ledger,
    token_program: PublicKeyRef,
    address: PublicKeyRef,
) -> ErrorKind {
    if !has_account(l.accounts@, address) || account_at(l.accounts@, address).owner
        != token_program {
        ErrorKind::Ownership { ownership: OwnershipError::NotOwnedByTokenProgram }
    } else if account_at(l.accounts@, address).length != MINT_ACCOUNT_SPACE {
        ErrorKind::Resource { resource: ResourceError::AccountSizeMismatch }
    } else if account_at(l.accounts@, address).data is Mint {
        ErrorKind::Ordering { ordering: OrderingError::MintAlreadyInitialized }
    } else {
        ErrorKind::Ordering { ordering: OrderingError::ExtensionNotConfigured }
    }
}

/// The account after a successful finalization: the extension record kept,
/// the base mint record written once, supply starting at zero.
pub open spec fn initialized_account(
    a: Account,
    decimals: u8,
    mint_authority: PublicKeyRef,
    freeze_authority: Option<PublicKeyRef>,
) -> Account {
    Account {
        address: a.address,
        lamports: a.lamports,
        owner: a.owner,
        length: a.length,
        data: AccountData::Mint {
            fee_config: a.data->FeeConfigured_fee_config,
            mint_state: MintState { decimals, mint_authority, freeze_authority, supply: 0 },
        },
    }
}

impl Ledger {
    /// Account Allocator: create a fixed-size raw storage account at a free
    /// address, debit the funding authority for its balance, and assign
    /// ownership of the new account to the given program. Nothing changes on
    /// rejection.
    pub fn allocate_account(
        &mut self,
        address: PublicKeyRef,
        lamports: u64,
        space: u64,
        owner: PublicKeyRef,
    ) -> (r: Result<(), ErrorKind>)
        requires
            old(self).wf(),
        ensures
            final(self).wf(),
            (r is Ok) == spec_allocation_accepted(*old(self), address, lamports),
            r is Ok ==> {
                &&& final(self).funder_lamports == old(self).funder_lamports - lamports
                &&& final(self).accounts@ == old(self).accounts@.push(
                    allocated_account(address, lamports, space, owner),
                )
            },
            r is Err ==> {
                &&& final(self).funder_lamports == old(self).funder_lamports
                &&& final(self).accounts@ == old(self).accounts@
            },
            r matches Err(e) ==> e == spec_allocation_error(*old(self), address),
    {
        match self.find_account(address) {
            Some(i) => {
                proof {
                    lemma_account_at_index(self.accounts@, address, i as int);
                }
                if matches!(self.accounts[i].data, AccountData::Mint { .. }) {
                    return Err(
                        ErrorKind::Ordering { ordering: OrderingError::MintAlreadyInitialized },
                    );
                }
                return Err(ErrorKind::Resource { resource: ResourceError::AddressCollision });
            }
            None => {}
        }
        if self.funder_lamports < lamports {
            return Err(ErrorKind::Resource { resource: ResourceError::InsufficientFunds });
        }
        self.funder_lamports = self.funder_lamports - lamports;
        let created = Account { address, lamports, owner, length: space, data: AccountData::Raw };
        self.accounts.push(created);
        proof {
            let s0 = old(self).accounts@;
            let s1 = self.accounts@;
            assert forall|p: int, q: int|
                0 <= p < s1.len() && 0 <= q < s1.len() && p != q implies s1[p].address
                != s1[q].address by {
                if p < s0.len() && q < s0.len() {
                    assert(s0[p].address != s0[q].address);
                }
            }
        }
        Ok(())
    }

    /// Extension Configurator: write the transfer-fee record into the
    /// just-allocated, still-uninitialized account. Nothing changes on
    /// rejection.
    pub fn configure_transfer_fee(
        &mut self,
        token_program: PublicKeyRef,
        address: PublicKeyRef,
        fee_basis_points: u16,
        max_fee: u64,
        transfer_fee_authority: PublicKeyRef,
        withdraw_withheld_authority: PublicKeyRef,
    ) -> (r: Result<(), ErrorKind>)
        requires
            old(self).wf(),
        ensures
            final(self).wf(),
            (r is Ok) == spec_configuration_accepted(
                *old(self),
                token_program,
                address,
                fee_basis_points,
            ),
            r is Ok ==> {
                &&& final(self).funder_lamports == old(self).funder_lamports
                &&& final(self).accounts@ == old(self).accounts@.update(
                    account_index(old(self).accounts@, address),
                    configured_account(
                        account_at(old(self).accounts@, address),
                        fee_basis_points,
                        max_fee,
                        transfer_fee_authority,
                        withdraw_withheld_authority,
                    ),
                )
            },
            r is Err ==> {
                &&& final(self).funder_lamports == old(self).funder_lamports
                &&& final(self).accounts@ == old(self).accounts@
            },
            r matches Err(e) ==> e == spec_configuration_error(
                *old(self),
                token_program,
                address,
                fee_basis_points,
            ),
    {
        let i = match self.find_account(address) {
            Some(i) => i,
            None => {
                return Err(
                    ErrorKind::Ownership { ownership: OwnershipError::NotOwnedByTokenProgram },
                );
            }
        };
        proof {
            lemma_account_at_index(self.accounts@, address, i as int);
        }
        let a = self.accounts[i];
        if a.owner != token_program {
            return Err(ErrorKind::Ownership { ownership: OwnershipError::NotOwnedByTokenProgram });
        }
        if a.length != MINT_ACCOUNT_SPACE {
            return Err(ErrorKind::Resource { resource: ResourceError::AccountSizeMismatch });
        }
        match a.data {
            AccountData::FeeConfigured { .. } => {
                return Err(
                    ErrorKind::Ordering { ordering: OrderingError::ExtensionAlreadyConfigured },
                );
            }
            AccountData::Mint { .. } => {
                return Err(
                    ErrorKind::Ordering { ordering: OrderingError::MintAlreadyInitialized },
                );
            }
            AccountData::Raw => {}
        }
        if fee_basis_points > MAX_FEE_BASIS_POINTS {
            return Err(
                ErrorKind::Parameter { parameter: ParameterError::FeeBasisPointsExceedsMaximum },
            );
        }
        let updated = Account {
            address: a.address,
            lamports: a.lamports,
            owner: a.owner,
            length: a.length,
            data: AccountData::FeeConfigured {
                fee_config: TransferFeeConfig {
                    fee_basis_points,
                    max_fee,
                    transfer_fee_authority,
                    withdraw_withheld_authority,
                },
            },
        };
        let _ = self.accounts.remove(i);
        self.accounts.insert(i, updated);
        proof {
            let s0 = old(self).accounts@;
            let s1 = self.accounts@;
            assert(s1 =~= s0.update(i as int, updated));
            assert forall|p: int, q: int|
                0 <= p < s1.len() && 0 <= q < s1.len() && p != q implies s1[p].address
                != s1[q].address by {
                assert(s0[p].address != s0[q].address);
            }
        }
        Ok(())
    }

    /// Mint Initializer: finalize the configured account as a mint, writing
    /// decimals, authorities and a zero supply exactly once. Nothing changes
    /// on rejection.
    pub fn initialize_mint(
        &mut self,
        token_program: PublicKeyRef,
        address: PublicKeyRef,
        decimals: u8,
        mint_authority: PublicKeyRef,
        freeze_authority: Option<PublicKeyRef>,
    ) -> (r: Result<(), ErrorKind>)
        requires
            old(self).wf(),
        ensures
            final(self).wf(),
            (r is Ok) == spec_initialization_accepted(*old(self), token_program, address),
            r is Ok ==> {
                &&& final(self).funder_lamports == old(self).funder_lamports
                &&& final(self).accounts@ == old(self).accounts@.update(
                    account_index(old(self).accounts@, address),
                    initialized_account(
                        account_at(old(self).accounts@, address),
                        decimals,
                        mint_authority,
                        freeze_authority,
                    ),
                )
            },
            r is Err ==> {
                &&& final(self).funder_lamports == old(self).funder_lamports
                &&& final(self).accounts@ == old(self).accounts@
            },
            r matches Err(e) ==> e == spec_initialization_error(*old(self), token_program, address),
    {
        let i = match self.find_account(address) {
            Some(i) => i,
            None => {
                return Err(
                    ErrorKind::Ownership { ownership: OwnershipError::NotOwnedByTokenProgram },
                );
            }
        };
        proof {
            lemma_account_at_index(self.accounts@, address, i as int);
        }
        let a = self.accounts[i];
        if a.owner != token_program {
            return Err(ErrorKind::Ownership { ownership: OwnershipError::NotOwnedByTokenProgram });
        }
        if a.length != MINT_ACCOUNT_SPACE {
            return Err(ErrorKind::Resource { resource: ResourceError::AccountSizeMismatch });
        }
        let fee_config = match a.data {
            AccountData::Mint { .. } => {
                return Err(
                    ErrorKind::Ordering { ordering: OrderingError::MintAlreadyInitialized },
                );
            }
            AccountData::Raw => {
                return Err(
                    ErrorKind::Ordering { ordering: OrderingError::ExtensionNotConfigured },
                );
            }
            AccountData::FeeConfigured { fee_config } => fee_config,
        };
        let updated = Account {
            address: a.address,
            lamports: a.lamports,
            owner: a.owner,
            length: a.length,
            data: AccountData::Mint {
                fee_config,
                mint_state: MintState { decimals, mint_authority, freeze_authority, supply: 0 },
            },
        };
        let _ = self.accounts.remove(i);
        self.accounts.insert(i, updated);
        proof {
            let s0 = old(self).accounts@;
            let s1 = self.accounts@;
            assert(s1 =~= s0.update(i as int, updated));
            assert forall|p: int, q: int|
                0 <= p < s1.len() && 0 <= q < s1.len() && p != q implies s1[p].address
                != s1[q].address by {
                assert(s0[p].address != s0[q].address);
            }
        }
        Ok(())
    }
}

} // verus!
