use vstd::prelude::*;

use crate::ledger::{
    credit, debit, deposit_error, derive_escrow, release_error, seeds_authorize, signer_seeds,
    spec_escrow_address, spec_escrow_bump, spec_seeds_authorize, transfer_error, transfer_post,
    SignerSeeds,
};
use crate::program::{EscrowProgram, ProgramState};
use crate::types::{
    CancelEscrow, Escrow, EscrowEntry, EscrowError, Exchange, InitializeEscrow, TokenAccount,
};

verus! {

/// Why `initialize_escrow` is refused on state `s`; `None` when it succeeds.
pub open spec fn initialize_error(
    s: ProgramState,
    ctx: InitializeEscrow,
    initializer_amount: u64,
    taker_amount: u64,
    seed: u64,
) -> Option<EscrowError> {
    if s.escrows.contains_key(spec_escrow_address(ctx.initializer, seed)) {
        Some(EscrowError::AlreadyExists)
    } else if initializer_amount == 0 || taker_amount == 0 {
        Some(EscrowError::InvalidAmount)
    } else {
        deposit_error(
            s.accounts,
            ctx.initializer_deposit_token_account,
            ctx.mint,
            ctx.initializer,
            initializer_amount,
        )
    }
}

/// The record that `initialize_escrow` writes.
pub open spec fn new_entry(
    ctx: InitializeEscrow,
    initializer_amount: u64,
    taker_amount: u64,
    seed: u64,
) -> EscrowEntry {
    EscrowEntry {
        escrow: Escrow {
            initializer: ctx.initializer,
            initializer_token_account: ctx.initializer_deposit_token_account,
            expected_taker_amount: taker_amount,
            seed,
            is_completed: false,
            created_at: ctx.unix_timestamp,
            bump: spec_escrow_bump(ctx.initializer, seed),
        },
        vault_mint: ctx.mint,
        vault_amount: initializer_amount,
    }
}

/// The state after a successful `initialize_escrow`: the deposit has left
/// the initializer's account and sits in the new escrow's vault.
pub open spec fn initialize_post(
    s: ProgramState,
    ctx: InitializeEscrow,
    initializer_amount: u64,
    taker_amount: u64,
    seed: u64,
) -> ProgramState {
    ProgramState {
        accounts: debit(s.accounts, ctx.initializer_deposit_token_account, initializer_amount),
        escrows: s.escrows.insert(
            spec_escrow_address(ctx.initializer, seed),
            new_entry(ctx, initializer_amount, taker_amount, seed),
        ),
    }
}

/// The signer seeds that an escrow record presents for its vault.
pub open spec fn record_seeds(e: Escrow) -> SignerSeeds {
    SignerSeeds { initializer: e.initializer, seed: e.seed, bump: e.bump }
}

/// Why `cancel_escrow` is refused on state `s`; `None` when it succeeds.
/// Only the recorded initializer may cancel, and the refund goes only to
/// the account the escrow recorded at creation.
pub open spec fn cancel_error(s: ProgramState, ctx: CancelEscrow) -> Option<EscrowError> {
    if !s.escrows.contains_key(ctx.escrow) {
        Some(EscrowError::NotFound)
    } else if s.escrows[ctx.escrow].escrow.initializer != ctx.initializer {
        Some(EscrowError::Unauthorized)
    } else if s.escrows[ctx.escrow].escrow.is_completed {
        Some(EscrowError::EscrowAlreadyCompleted)
    } else if ctx.initializer_deposit_token_account
        != s.escrows[ctx.escrow].escrow.initializer_token_account {
        Some(EscrowError::Unauthorized)
    } else if !spec_seeds_authorize(record_seeds(s.escrows[ctx.escrow].escrow), ctx.escrow) {
        Some(EscrowError::Unauthorized)
    } else {
        release_error(
            s.accounts,
            ctx.initializer_deposit_token_account,
            s.escrows[ctx.escrow].vault_mint,
            s.escrows[ctx.escrow].vault_amount,
        )
    }
}

/// The state after a successful `cancel_escrow`: the vault's balance is back
/// in the initializer's account and the escrow is closed.
pub open spec fn cancel_post(s: ProgramState, ctx: CancelEscrow) -> ProgramState {
    ProgramState {
        accounts: credit(
            s.accounts,
            ctx.initializer_deposit_token_account,
            s.escrows[ctx.escrow].vault_amount,
        ),
        escrows: s.escrows.remove(ctx.escrow),
    }
}

/// The accounts once the vault has been released to the taker.
pub open spec fn exchange_after_release(s: ProgramState, ctx: Exchange) -> Map<u64, TokenAccount> {
    credit(s.accounts, ctx.taker_receive_token_account, s.escrows[ctx.escrow].vault_amount)
}

/// Why `exchange` is refused on state `s`; `None` when it succeeds. The
/// counter-asset goes only to an account that the escrow's initializer owns.
pub open spec fn exchange_error(s: ProgramState, ctx: Exchange) -> Option<EscrowError> {
    if !s.escrows.contains_key(ctx.escrow) {
        Some(EscrowError::NotFound)
    } else if s.escrows[ctx.escrow].escrow.initializer != ctx.initializer {
        Some(EscrowError::Unauthorized)
    } else if s.escrows[ctx.escrow].escrow.is_completed {
        Some(EscrowError::EscrowAlreadyCompleted)
    } else if !spec_seeds_authorize(record_seeds(s.escrows[ctx.escrow].escrow), ctx.escrow) {
        Some(EscrowError::Unauthorized)
    } else if !s.accounts.contains_key(ctx.initializer_receive_token_account) {
        Some(EscrowError::NotFound)
    } else if s.accounts[ctx.initializer_receive_token_account].owner
        != s.escrows[ctx.escrow].escrow.initializer {
        Some(EscrowError::Unauthorized)
    } else if release_error(
        s.accounts,
        ctx.taker_receive_token_account,
        s.escrows[ctx.escrow].vault_mint,
        s.escrows[ctx.escrow].vault_amount,
    ) is Some {
        release_error(
            s.accounts,
            ctx.taker_receive_token_account,
            s.escrows[ctx.escrow].vault_mint,
            s.escrows[ctx.escrow].vault_amount,
        )
    } else {
        transfer_error(
            exchange_after_release(s, ctx),
            ctx.taker_deposit_token_account,
            ctx.initializer_receive_token_account,
            ctx.taker,
            s.escrows[ctx.escrow].escrow.expected_taker_amount,
        )
    }
}

/// The state after a successful `exchange`: the vault's balance is with the
/// taker, the recorded expected amount has gone from the taker to the
/// initializer, and the escrow is closed.
pub open spec fn exchange_post(s: ProgramState, ctx: Exchange) -> ProgramState {
    ProgramState {
        accounts: transfer_post(
            exchange_after_release(s, ctx),
            ctx.taker_deposit_token_account,
            ctx.initializer_receive_token_account,
            s.escrows[ctx.escrow].escrow.expected_taker_amount,
        ),
        escrows: s.escrows.remove(ctx.escrow),
    }
}

/// Opens an escrow: refuses an address that is taken (whatever the amounts),
/// checks both amounts, allocates the record at the address derived from the
/// initializer and `seed` with that derivation's canonicalization byte, and
/// moves `initializer_amount`
/// from the initializer's deposit account into the escrow's vault. On any
/// failure nothing changes.
pub fn initialize_escrow(
    program: &mut EscrowProgram,
    ctx: &InitializeEscrow,
    initializer_amount: u64,
    taker_amount: u64,
    seed: u64,
) -> (r: Result<(), EscrowError>)
    ensures
        match r {
            Ok(()) => initialize_error(old(program)@, *ctx, initializer_amount, taker_amount, seed)
                == None::<EscrowError> && final(program)@ == initialize_post(
                old(program)@,
                *ctx,
                initializer_amount,
                taker_amount,
                seed,
            ),
            Err(e) => initialize_error(
                old(program)@,
                *ctx,
                initializer_amount,
                taker_amount,
                seed,
            ) == Some(e) && final(program)@ == old(program)@,
        },
{
    let (address, bump) = derive_escrow(ctx.initializer, seed);
    if program.entry(address).is_some() {
        return Err(EscrowError::AlreadyExists);
    }
    if initializer_amount == 0 || taker_amount == 0 {
        return Err(EscrowError::InvalidAmount);
    }
    let from = ctx.initializer_deposit_token_account;
    if let Some(e) = program.check_deposit(from, ctx.mint, ctx.initializer, initializer_amount) {
        return Err(e);
    }
    let escrow = Escrow {
        initializer: ctx.initializer,
        initializer_token_account: from,
        expected_taker_amount: taker_amount,
        seed,
        is_completed: false,
        created_at: ctx.unix_timestamp,
        bump,
    };
    program.debit_account(from, initializer_amount);
    program.insert_entry(
        address,
        EscrowEntry { escrow, vault_mint: ctx.mint, vault_amount: initializer_amount },
    );
    proof {
        assert(final(program)@ == initialize_post(
            old(program)@,
            *ctx,
            initializer_amount,
            taker_amount,
            seed,
        ));
    }
    Ok(())
}

/// Moves a vault's whole balance to `to`. The program holds no key for the
/// vault: it may move the funds only while presenting seeds that reproduce
/// the derivation of the vault's escrow address.
fn release_vault(
    program: &mut EscrowProgram,
    entry: &EscrowEntry,
    address: u128,
    seeds: &SignerSeeds,
    to: u64,
) -> (r: Result<(), EscrowError>)
    requires
        spec_seeds_authorize(*seeds, address),
    ensures
        match r {
            Ok(()) => release_error(old(program)@.accounts, to, entry.vault_mint, entry.vault_amount)
                == None::<EscrowError> && final(program)@.accounts == credit(
                old(program)@.accounts,
                to,
                entry.vault_amount,
            ) && final(program)@.escrows == old(program)@.escrows,
            Err(e) => final(program)@ == old(program)@ && release_error(
                old(program)@.accounts,
                to,
                entry.vault_mint,
                entry.vault_amount,
            ) == Some(e),
        },
{
    if let Some(e) = program.check_release(to, entry.vault_mint, entry.vault_amount) {
        return Err(e);
    }
    program.credit_account(to, entry.vault_amount);
    Ok(())
}

/// Cancels an open escrow: only its initializer may, the vault's whole
/// balance goes back to the deposit account the escrow recorded, and the
/// escrow is closed. On any failure nothing changes.
pub fn cancel_escrow(program: &mut EscrowProgram, ctx: &CancelEscrow) -> (r: Result<(), EscrowError>)
    ensures
        match r {
            Ok(()) => cancel_error(old(program)@, *ctx) == None::<EscrowError> && final(program)@
                == cancel_post(old(program)@, *ctx),
            Err(e) => cancel_error(old(program)@, *ctx) == Some(e) && final(program)@
                == old(program)@,
        },
{
    let entry = match program.entry(ctx.escrow) {
        None => {
            return Err(EscrowError::NotFound);
        },
        Some(e) => e,
    };
    if entry.escrow.initializer != ctx.initializer {
        return Err(EscrowError::Unauthorized);
    }
    if entry.escrow.is_completed {
        return Err(EscrowError::EscrowAlreadyCompleted);
    }
    if ctx.initializer_deposit_token_account != entry.escrow.initializer_token_account {
        return Err(EscrowError::Unauthorized);
    }
    let seeds = signer_seeds(&entry.escrow);
    if !seeds_authorize(&seeds, ctx.escrow) {
        return Err(EscrowError::Unauthorized);
    }
    release_vault(program, &entry, ctx.escrow, &seeds, ctx.initializer_deposit_token_account)?;
    program.remove_entry(ctx.escrow);
    proof {
        assert(final(program)@ == cancel_post(old(program)@, *ctx));
    }
    Ok(())
}

/// Fulfils an open escrow: the vault's whole balance goes to the taker, the
/// recorded expected amount goes from the taker to an account of the
/// initializer, and the escrow is closed. Either both legs happen or, on
/// any failure, nothing changes.
pub fn exchange(program: &mut EscrowProgram, ctx: &Exchange) -> (r: Result<(), EscrowError>)
    ensures
        match r {
            Ok(()) => exchange_error(old(program)@, *ctx) == None::<EscrowError> && final(program)@
                == exchange_post(old(program)@, *ctx),
            Err(e) => exchange_error(old(program)@, *ctx) == Some(e) && final(program)@
                == old(program)@,
        },
{
    let entry = match program.entry(ctx.escrow) {
        None => {
            return Err(EscrowError::NotFound);
        },
        Some(e) => e,
    };
    if entry.escrow.initializer != ctx.initializer {
        return Err(EscrowError::Unauthorized);
    }
    if entry.escrow.is_completed {
        return Err(EscrowError::EscrowAlreadyCompleted);
    }
    let seeds = signer_seeds(&entry.escrow);
    if !seeds_authorize(&seeds, ctx.escrow) {
        return Err(EscrowError::Unauthorized);
    }
    let to = ctx.initializer_receive_token_account;
    match program.account(to) {
        None => {
            return Err(EscrowError::NotFound);
        },
        Some(a) => {
            if a.owner != entry.escrow.initializer {
                return Err(EscrowError::Unauthorized);
            }
        },
    }
    let receive = ctx.taker_receive_token_account;
    let before = program.account(receive);
    release_vault(program, &entry, ctx.escrow, &seeds, receive)?;
    let expected = entry.escrow.expected_taker_amount;
    let from = ctx.taker_deposit_token_account;
    if let Some(e) = program.check_transfer(from, to, ctx.taker, expected) {
        // The second leg is refused: undo the first.
        let restored = before.unwrap();
        program.set_account(receive, restored);
        proof {
            assert(final(program)@.accounts =~= old(program)@.accounts);
        }
        return Err(e);
    }
    program.apply_transfer(from, to, ctx.taker, expected);
    program.remove_entry(ctx.escrow);
    proof {
        assert(final(program)@ == exchange_post(old(program)@, *ctx));
    }
    Ok(())
}

} // verus!
