use vstd::hash_map::HashMapWithView;
use vstd::prelude::*;

use crate::ledger::{
    credit, debit, deposit_error, release_error, spec_escrow_address, spec_escrow_bump, transfer_error,
    transfer_post,
};
use crate::types::{Escrow, EscrowEntry, EscrowError, TokenAccount};

verus! {

broadcast use vstd::std_specs::hash::group_hash_axioms;

/// What the program holds: the ledger's token accounts by key, and the open
/// escrows (each with its vault) by derived address.
pub struct ProgramState {
    pub accounts: Map<u64, TokenAccount>,
    pub escrows: Map<u128, EscrowEntry>,
}

/// An escrow stored at `address` is stored at the address its own
/// initializer and seed derive, keeps the canonicalization byte of that
/// derivation, is open, and holds a positive deposit and a positive
/// expected amount.
pub open spec fn entry_wf(address: u128, e: EscrowEntry) -> bool {
    &&& address == spec_escrow_address(e.escrow.initializer, e.escrow.seed)
    &&& e.escrow.bump == spec_escrow_bump(e.escrow.initializer, e.escrow.seed)
    &&& !e.escrow.is_completed
    &&& e.escrow.expected_taker_amount > 0
    &&& e.vault_amount > 0
}

impl ProgramState {
    pub open spec fn wf(self) -> bool {
        forall|a: u128| #[trigger] self.escrows.contains_key(a) ==> entry_wf(a, self.escrows[a])
    }
}

/// The ledger and the escrow store, updated one whole operation at a time.
pub struct EscrowProgram {
    accounts: HashMapWithView<u64, TokenAccount>,
    escrows: HashMapWithView<u128, EscrowEntry>,
}

impl View for EscrowProgram {
    type V = ProgramState;

    closed spec fn view(&self) -> ProgramState {
        ProgramState { accounts: self.accounts@, escrows: self.escrows@ }
    }
}

impl EscrowProgram {
    /// A program with no accounts and no escrows.
    pub fn new() -> (r: Self)
        ensures
            r@.accounts == Map::<u64, TokenAccount>::empty(),
            r@.escrows == Map::<u128, EscrowEntry>::empty(),
            r@.wf(),
    {
        EscrowProgram { accounts: HashMapWithView::new(), escrows: HashMapWithView::new() }
    }

    /// Opens a token account at `key`; fails with `AlreadyExists` when one
    /// stands there already.
    pub fn open_account(&mut self, key: u64, mint: u64, owner: u64, amount: u64) -> (r: Result<
        (),
        EscrowError,
    >)
        ensures
            r == (if old(self)@.accounts.contains_key(key) {
                Err::<(), EscrowError>(EscrowError::AlreadyExists)
            } else {
                Ok::<(), EscrowError>(())
            }),
            r is Ok ==> final(self)@ == (ProgramState {
                accounts: old(self)@.accounts.insert(
                    key,
                    TokenAccount { mint, owner, amount },
                ),
                escrows: old(self)@.escrows,
            }),
            r is Err ==> final(self)@ == old(self)@,
    {
        if self.accounts.contains_key(&key) {
            return Err(EscrowError::AlreadyExists);
        }
        self.accounts.insert(key, TokenAccount { mint, owner, amount });
        Ok(())
    }

    /// The account at `key`, if any.
    pub fn account(&self, key: u64) -> (r: Option<TokenAccount>)
        ensures
            r == (if self@.accounts.contains_key(key) {
                Some(self@.accounts[key])
            } else {
                None
            }),
    {
        match self.accounts.get(&key) {
            Some(a) => Some(*a),
            None => None,
        }
    }

    /// The balance of the account at `key`, if any.
    pub fn balance(&self, key: u64) -> (r: Option<u64>)
        ensures
            r == (if self@.accounts.contains_key(key) {
                Some(self@.accounts[key].amount)
            } else {
                None
            }),
    {
        match self.accounts.get(&key) {
            Some(a) => Some(a.amount),
            None => None,
        }
    }

    /// The escrow entry at `address`, if any.
    pub fn entry(&self, address: u128) -> (r: Option<EscrowEntry>)
        ensures
            r == (if self@.escrows.contains_key(address) {
                Some(self@.escrows[address])
            } else {
                None
            }),
    {
        match self.escrows.get(&address) {
            Some(e) => Some(*e),
            None => None,
        }
    }

    /// The escrow record at `address`, if any.
    pub fn escrow(&self, address: u128) -> (r: Option<Escrow>)
        ensures
            r == (if self@.escrows.contains_key(address) {
                Some(self@.escrows[address].escrow)
            } else {
                None
            }),
    {
        match self.escrows.get(&address) {
            Some(e) => Some(e.escrow),
            None => None,
        }
    }

    /// The balance of the vault of the escrow at `address`, if any.
    pub fn vault_balance(&self, address: u128) -> (r: Option<u64>)
        ensures
            r == (if self@.escrows.contains_key(address) {
                Some(self@.escrows[address].vault_amount)
            } else {
                None
            }),
    {
        match self.escrows.get(&address) {
            Some(e) => Some(e.vault_amount),
            None => None,
        }
    }

    pub(crate) fn set_account(&mut self, key: u64, a: TokenAccount)
        ensures
            final(self)@.accounts == old(self)@.accounts.insert(key, a),
            final(self)@.escrows == old(self)@.escrows,
    {
        self.accounts.insert(key, a);
    }

    pub(crate) fn debit_account(&mut self, key: u64, amount: u64)
        requires
            old(self)@.accounts.contains_key(key),
            old(self)@.accounts[key].amount >= amount,
        ensures
            final(self)@.accounts == debit(old(self)@.accounts, key, amount),
            final(self)@.escrows == old(self)@.escrows,
    {
        let a = *self.accounts.get(&key).unwrap();
        self.set_account(key, TokenAccount { mint: a.mint, owner: a.owner, amount: a.amount - amount });
    }

    pub(crate) fn credit_account(&mut self, key: u64, amount: u64)
        requires
            old(self)@.accounts.contains_key(key),
            old(self)@.accounts[key].amount + amount <= u64::MAX,
        ensures
            final(self)@.accounts == credit(old(self)@.accounts, key, amount),
            final(self)@.escrows == old(self)@.escrows,
    {
        let a = *self.accounts.get(&key).unwrap();
        self.set_account(key, TokenAccount { mint: a.mint, owner: a.owner, amount: a.amount + amount });
    }

    pub(crate) fn insert_entry(&mut self, address: u128, e: EscrowEntry)
        ensures
            final(self)@.escrows == old(self)@.escrows.insert(address, e),
            final(self)@.accounts == old(self)@.accounts,
    {
        self.escrows.insert(address, e);
    }

    pub(crate) fn remove_entry(&mut self, address: u128)
        ensures
            final(self)@.escrows == old(self)@.escrows.remove(address),
            final(self)@.accounts == old(self)@.accounts,
    {
        let _ = self.escrows.remove(&address);
    }

    /// Why a deposit into a vault would be refused, as `deposit_error` says.
    pub fn check_deposit(&self, from: u64, mint: u64, authority: u64, amount: u64) -> (r: Option<
        EscrowError,
    >)
        ensures
            r == deposit_error(self@.accounts, from, mint, authority, amount),
    {
        match self.accounts.get(&from) {
            None => Some(EscrowError::NotFound),
            Some(a) => {
                if a.mint != mint {
                    Some(EscrowError::MintMismatch)
                } else if a.amount < amount {
                    Some(EscrowError::InsufficientFunds)
                } else if a.owner != authority {
                    Some(EscrowError::Unauthorized)
                } else {
                    None
                }
            },
        }
    }

    /// Why a release from a vault would be refused, as `release_error` says.
    pub fn check_release(&self, to: u64, mint: u64, amount: u64) -> (r: Option<EscrowError>)
        ensures
            r == release_error(self@.accounts, to, mint, amount),
    {
        match self.accounts.get(&to) {
            None => Some(EscrowError::NotFound),
            Some(a) => {
                if a.mint != mint {
                    Some(EscrowError::MintMismatch)
                } else if a.amount > u64::MAX - amount {
                    Some(EscrowError::Overflow)
                } else {
                    None
                }
            },
        }
    }

    /// Why a transfer between two accounts would be refused, as
    /// `transfer_error` says.
    pub fn check_transfer(&self, from: u64, to: u64, authority: u64, amount: u64) -> (r: Option<
        EscrowError,
    >)
        ensures
            r == transfer_error(self@.accounts, from, to, authority, amount),
    {
        let src = match self.accounts.get(&from) {
            None => {
                return Some(EscrowError::NotFound);
            },
            Some(a) => *a,
        };
        let dst = match self.accounts.get(&to) {
            None => {
                return Some(EscrowError::NotFound);
            },
            Some(a) => *a,
        };
        if src.mint != dst.mint {
            Some(EscrowError::MintMismatch)
        } else if src.amount < amount {
            Some(EscrowError::InsufficientFunds)
        } else if src.owner != authority {
            Some(EscrowError::Unauthorized)
        } else if from != to && dst.amount > u64::MAX - amount {
            Some(EscrowError::Overflow)
        } else {
            None
        }
    }

    /// Moves `amount` from `from` to `to`, once `check_transfer` has let it
    /// through.
    pub(crate) fn apply_transfer(&mut self, from: u64, to: u64, authority: u64, amount: u64)
        requires
            transfer_error(old(self)@.accounts, from, to, authority, amount) == None::<EscrowError>,
        ensures
            final(self)@.accounts == transfer_post(old(self)@.accounts, from, to, amount),
            final(self)@.escrows == old(self)@.escrows,
    {
        if from != to {
            self.debit_account(from, amount);
            self.credit_account(to, amount);
        }
    }
}

} // verus!
