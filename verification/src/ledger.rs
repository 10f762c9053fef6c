use vstd::prelude::*;

use crate::model::{Account, MintPhase, PublicKeyRef};

verus! {

/// No two accounts of the sequence share an address.
pub open spec fn unique_addresses(s: Seq<Account>) -> bool {
    forall|i: int, j: int|
        0 <= i < s.len() && 0 <= j < s.len() && i != j ==> s[i].address != s[j].address
}

/// Some account of the sequence sits at the address.
pub open spec fn has_account(s: Seq<Account>, address: PublicKeyRef) -> bool {
    exists|i: int| 0 <= i < s.len() && s[i].address == address
}

/// Index of the account at the address; meaningful only under
/// `has_account`, and unique under `unique_addresses`.
pub open spec fn account_index(s: Seq<Account>, address: PublicKeyRef) -> int {
    choose|i: int| 0 <= i < s.len() && s[i].address == address
}

/// The account at the address; meaningful only under `has_account`.
pub open spec fn account_at(s: Seq<Account>, address: PublicKeyRef) -> Account {
    s[account_index(s, address)]
}

/// Under unique addresses, any index holding the address is the one
/// `account_index` names.
pub proof fn lemma_account_at_index(s: Seq<Account>, address: PublicKeyRef, i: int)
    requires
        unique_addresses(s),
        0 <= i < s.len(),
        s[i].address == address,
    ensures
        has_account(s, address),
        account_index(s, address) == i,
        account_at(s, address) == s[i],
{
    assert(has_account(s, address));
    let j = account_index(s, address);
    assert(0 <= j < s.len() && s[j].address == address);
}

/// The host context a provisioning request runs against: the funding
/// authority's balance and every storage account allocated so far.
pub struct Ledger {
    /// Lamports the funding authority still holds.
    pub funder_lamports: u64,
    /// Allocated storage accounts, addresses pairwise distinct.
    pub accounts: Vec<Account>,
}

impl Ledger {
    /// Well-formedness: account addresses are pairwise distinct, as every
    /// address is claimed at most once.
    pub open spec fn wf(self) -> bool {
        unique_addresses(self.accounts@)
    }

    /// A context with no allocated accounts yet.
    pub fn new(funder_lamports: u64) -> (ledger: Ledger)
        ensures
            ledger.wf(),
            ledger.funder_lamports == funder_lamports,
            ledger.accounts@ == Seq::<Account>::empty(),
    {
        Ledger { funder_lamports, accounts: Vec::new() }
    }

    /// Index of the account at the address, if one exists.
    pub fn find_account(&self, address: PublicKeyRef) -> (r: Option<usize>)
        ensures
            match r {
                Some(i) => i < self.accounts@.len() && self.accounts@[i as int].address
                    == address,
                None => !has_account(self.accounts@, address),
            },
    {
        let n = self.accounts.len();
        let mut k: usize = 0;
        while k < n
            invariant
                n == self.accounts@.len(),
                k <= n,
                forall|j: int| 0 <= j < k ==> self.accounts@[j].address != address,
            decreases n - k,
        {
            if self.accounts[k].address == address {
                return Some(k);
            }
            k = k + 1;
        }
        None
    }

    /// Lifecycle phase of the address: `Unallocated` where no account exists,
    /// else the phase its contents encode.
    pub open spec fn spec_phase_of(self, address: PublicKeyRef) -> MintPhase {
        if has_account(self.accounts@, address) {
            account_at(self.accounts@, address).spec_phase()
        } else {
            MintPhase::Unallocated
        }
    }

    /// Lifecycle phase of the address: `Unallocated` where no account exists,
    /// else the phase its contents encode.
    pub fn phase_of(&self, address: PublicKeyRef) -> (p: MintPhase)
        requires
            self.wf(),
        ensures
            p == self.spec_phase_of(address),
    {
        match self.find_account(address) {
            Some(i) => {
                proof {
                    lemma_account_at_index(self.accounts@, address, i as int);
                }
                self.accounts[i].phase()
            }
            None => MintPhase::Unallocated,
        }
    }

    /// The account at the address, if one exists.
    pub fn account_of(&self, address: PublicKeyRef) -> (r: Option<Account>)
        requires
            self.wf(),
        ensures
            match r {
                Some(a) => has_account(self.accounts@, address) && a == account_at(
                    self.accounts@,
                    address,
                ),
                None => !has_account(self.accounts@, address),
            },
    {
        match self.find_account(address) {
            Some(i) => {
                proof {
                    lemma_account_at_index(self.accounts@, address, i as int);
                }
                Some(self.accounts[i])
            }
            None => None,
        }
    }
}

} // verus!
