use vstd::prelude::*;

use crate::types::{Escrow, EscrowError, TokenAccount};

verus! {

/// One more than the largest seed: the escrow address keeps the initializer
/// in its high half and the seed in its low half.
pub open spec fn seed_space() -> int {
    0x1_0000_0000_0000_0000
}

/// The escrow address derived from `("escrow", initializer, seed)`.
pub open spec fn spec_escrow_address(initializer: u64, seed: u64) -> u128 {
    (initializer as int * seed_space() + seed as int) as u128
}

/// Two distinct `(initializer, seed)` pairs never share an escrow address.
pub proof fn lemma_escrow_address_injective(i1: u64, s1: u64, i2: u64, s2: u64)
    ensures
        spec_escrow_address(i1, s1) == spec_escrow_address(i2, s2) <==> (i1 == i2 && s1 == s2),
{
    let b = seed_space();
    if i1 as int * b + s1 as int == i2 as int * b + s2 as int {
        assert(i1 == i2 && s1 == s2) by (nonlinear_arith)
            requires
                i1 as int * b + s1 as int == i2 as int * b + s2 as int,
                b == 0x1_0000_0000_0000_0000int,
                0 <= s1 < b,
                0 <= s2 < b,
                0 <= i1,
                0 <= i2,
        ;
    }
}

/// Derives the address of the escrow of `initializer` under `seed`.
pub fn escrow_address(initializer: u64, seed: u64) -> (r: u128)
    ensures
        r == spec_escrow_address(initializer, seed),
{
    assert((initializer as int) * seed_space() + (seed as int) <= u128::MAX) by (nonlinear_arith)
        requires
            0 <= initializer <= u64::MAX,
            0 <= seed <= u64::MAX,
            seed_space() == u64::MAX + 1,
    ;
    (initializer as u128) * 0x1_0000_0000_0000_0000u128 + (seed as u128)
}

/// The values from which the program reconstructs its authority over a
/// vault: the escrow's initializer, seed and bump.
#[derive(Clone, Copy, Debug, PartialEq, Eq)]
pub struct SignerSeeds {
    pub initializer: u64,
    pub seed: u64,
    pub bump: u8,
}

/// The canonicalization byte that the derivation pairs with the escrow
/// address of `(initializer, seed)`.
pub open spec fn spec_escrow_bump(initializer: u64, seed: u64) -> u8 {
    (255 - (initializer % 256 + seed % 256) % 256) as u8
}

/// Derives the escrow address of `(initializer, seed)` together with its
/// canonicalization byte.
pub fn derive_escrow(initializer: u64, seed: u64) -> (r: (u128, u8))
    ensures
        r == (spec_escrow_address(initializer, seed), spec_escrow_bump(initializer, seed)),
{
    let address = escrow_address(initializer, seed);
    let bump = 255u8 - (((initializer % 256) + (seed % 256)) % 256) as u8;
    (address, bump)
}

/// Whether `seeds` reproduce the derivation of `address`: the address and
/// the canonicalization byte both come out of the presented initializer and
/// seed.
pub open spec fn spec_seeds_authorize(seeds: SignerSeeds, address: u128) -> bool {
    spec_escrow_address(seeds.initializer, seeds.seed) == address && seeds.bump
        == spec_escrow_bump(seeds.initializer, seeds.seed)
}

/// The signer seeds stored in an escrow record.
pub fn signer_seeds(escrow: &Escrow) -> (r: SignerSeeds)
    ensures
        r == (SignerSeeds { initializer: escrow.initializer, seed: escrow.seed, bump: escrow.bump }),
{
    SignerSeeds { initializer: escrow.initializer, seed: escrow.seed, bump: escrow.bump }
}

/// Checks a presented set of signer seeds against the address whose
/// authority they claim; any mismatch of seed or bump refuses.
pub fn seeds_authorize(seeds: &SignerSeeds, address: u128) -> (r: bool)
    ensures
        r == spec_seeds_authorize(*seeds, address),
{
    let (derived, bump) = derive_escrow(seeds.initializer, seeds.seed);
    derived == address && seeds.bump == bump
}

/// The accounts after `amount` leaves `key`.
pub open spec fn debit(m: Map<u64, TokenAccount>, key: u64, amount: u64) -> Map<u64, TokenAccount> {
    m.insert(
        key,
        TokenAccount { mint: m[key].mint, owner: m[key].owner, amount: (m[key].amount - amount) as u64 },
    )
}

/// The accounts after `amount` arrives at `key`.
pub open spec fn credit(m: Map<u64, TokenAccount>, key: u64, amount: u64) -> Map<u64, TokenAccount> {
    m.insert(
        key,
        TokenAccount { mint: m[key].mint, owner: m[key].owner, amount: (m[key].amount + amount) as u64 },
    )
}

/// Why a deposit of `amount` of `mint` from `from`, signed by `authority`,
/// into a vault is refused; `None` when it goes through.
pub open spec fn deposit_error(
    m: Map<u64, TokenAccount>,
    from: u64,
    mint: u64,
    authority: u64,
    amount: u64,
) -> Option<EscrowError> {
    if !m.contains_key(from) {
        Some(EscrowError::NotFound)
    } else if m[from].mint != mint {
        Some(EscrowError::MintMismatch)
    } else if m[from].amount < amount {
        Some(EscrowError::InsufficientFunds)
    } else if m[from].owner != authority {
        Some(EscrowError::Unauthorized)
    } else {
        None
    }
}

/// Why a release of a vault's `amount` of `mint` to `to` is refused; `None`
/// when it goes through.
pub open spec fn release_error(m: Map<u64, TokenAccount>, to: u64, mint: u64, amount: u64) -> Option<
    EscrowError,
> {
    if !m.contains_key(to) {
        Some(EscrowError::NotFound)
    } else if m[to].mint != mint {
        Some(EscrowError::MintMismatch)
    } else if m[to].amount + amount > u64::MAX {
        Some(EscrowError::Overflow)
    } else {
        None
    }
}

/// Why a transfer of `amount` from `from` to `to`, signed by `authority`,
/// is refused; `None` when it goes through.
pub open spec fn transfer_error(
    m: Map<u64, TokenAccount>,
    from: u64,
    to: u64,
    authority: u64,
    amount: u64,
) -> Option<EscrowError> {
    if !m.contains_key(from) || !m.contains_key(to) {
        Some(EscrowError::NotFound)
    } else if m[from].mint != m[to].mint {
        Some(EscrowError::MintMismatch)
    } else if m[from].amount < amount {
        Some(EscrowError::InsufficientFunds)
    } else if m[from].owner != authority {
        Some(EscrowError::Unauthorized)
    } else if from != to && m[to].amount + amount > u64::MAX {
        Some(EscrowError::Overflow)
    } else {
        None
    }
}

/// The accounts after a transfer of `amount` from `from` to `to`; a transfer
/// to the same account changes nothing.
pub open spec fn transfer_post(m: Map<u64, TokenAccount>, from: u64, to: u64, amount: u64) -> Map<
    u64,
    TokenAccount,
> {
    if from == to {
        m
    } else {
        credit(debit(m, from, amount), to, amount)
    }
}

} // verus!
