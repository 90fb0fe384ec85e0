use vstd::prelude::*;

use crate::escrow::{
    cancel_error, cancel_post, exchange_after_release, exchange_error, exchange_post,
    initialize_error, initialize_post,
};
use crate::ledger::{lemma_escrow_address_injective, release_error, spec_escrow_address};
use crate::program::ProgramState;
use crate::types::{CancelEscrow, EscrowError, Exchange, InitializeEscrow};

verus! {

/// Every successful operation keeps the program's invariant: each stored
/// escrow sits at its own derived address, is open, and holds a positive
/// deposit and a positive expected amount.
pub proof fn lemma_operations_preserve_wf(
    s: ProgramState,
    init: InitializeEscrow,
    initializer_amount: u64,
    taker_amount: u64,
    seed: u64,
    cancel: CancelEscrow,
    exch: Exchange,
)
    requires
        s.wf(),
    ensures
        initialize_error(s, init, initializer_amount, taker_amount, seed) == None::<EscrowError>
            ==> initialize_post(s, init, initializer_amount, taker_amount, seed).wf(),
        cancel_error(s, cancel) == None::<EscrowError> ==> cancel_post(s, cancel).wf(),
        exchange_error(s, exch) == None::<EscrowError> ==> exchange_post(s, exch).wf(),
{
}

/// Creation is refused as `AlreadyExists`, whatever its amounts, exactly
/// when an escrow already stands at the address of the pair
/// `(initializer, seed)`. After one creation succeeds, a second one for the
/// same pair fails with `AlreadyExists` whatever its amounts, while a
/// creation for any other pair is refused as `AlreadyExists` only where it
/// already was before, and its success leaves the first escrow as it was.
pub proof fn lemma_create_once_per_pair(
    s: ProgramState,
    ctx1: InitializeEscrow,
    amount1: u64,
    expected1: u64,
    seed1: u64,
    ctx2: InitializeEscrow,
    amount2: u64,
    expected2: u64,
    seed2: u64,
)
    ensures
        (initialize_error(s, ctx2, amount2, expected2, seed2) == Some(EscrowError::AlreadyExists))
            <==> s.escrows.contains_key(spec_escrow_address(ctx2.initializer, seed2)),
        initialize_error(s, ctx1, amount1, expected1, seed1) == None::<EscrowError> ==> {
            let s1 = initialize_post(s, ctx1, amount1, expected1, seed1);
            &&& (ctx2.initializer == ctx1.initializer && seed2 == seed1) ==> initialize_error(
                s1,
                ctx2,
                amount2,
                expected2,
                seed2,
            ) == Some(EscrowError::AlreadyExists)
            &&& (ctx2.initializer != ctx1.initializer || seed2 != seed1) ==> ((initialize_error(
                s1,
                ctx2,
                amount2,
                expected2,
                seed2,
            ) == Some(EscrowError::AlreadyExists)) <==> s.escrows.contains_key(
                spec_escrow_address(ctx2.initializer, seed2),
            ))
            &&& ((ctx2.initializer != ctx1.initializer || seed2 != seed1) && initialize_error(
                s1,
                ctx2,
                amount2,
                expected2,
                seed2,
            ) == None::<EscrowError>) ==> initialize_post(
                s1,
                ctx2,
                amount2,
                expected2,
                seed2,
            ).escrows[spec_escrow_address(ctx1.initializer, seed1)] == s1.escrows[spec_escrow_address(
                ctx1.initializer,
                seed1,
            )]
        },
{
    lemma_escrow_address_injective(ctx1.initializer, seed1, ctx2.initializer, seed2);
}

/// A creation for a free `(initializer, seed)` pair with a zero deposit or a
/// zero expected amount is refused as `InvalidAmount`.
pub proof fn lemma_zero_amount_invalid(
    s: ProgramState,
    ctx: InitializeEscrow,
    initializer_amount: u64,
    taker_amount: u64,
    seed: u64,
)
    requires
        !s.escrows.contains_key(spec_escrow_address(ctx.initializer, seed)),
        initializer_amount == 0 || taker_amount == 0,
    ensures
        initialize_error(s, ctx, initializer_amount, taker_amount, seed) == Some(
            EscrowError::InvalidAmount,
        ),
{
}

/// A creation with positive amounts, for a free `(initializer, seed)` pair,
/// drawing on an account of the initializer that holds the deposited asset
/// and enough of it, succeeds; the new escrow is open, its vault holds
/// exactly the deposit, and the deposit has left the initializer's account.
pub proof fn lemma_create_funds_vault(
    s: ProgramState,
    ctx: InitializeEscrow,
    initializer_amount: u64,
    taker_amount: u64,
    seed: u64,
)
    requires
        initializer_amount > 0,
        taker_amount > 0,
        !s.escrows.contains_key(spec_escrow_address(ctx.initializer, seed)),
        s.accounts.contains_key(ctx.initializer_deposit_token_account),
        s.accounts[ctx.initializer_deposit_token_account].mint == ctx.mint,
        s.accounts[ctx.initializer_deposit_token_account].owner == ctx.initializer,
        s.accounts[ctx.initializer_deposit_token_account].amount >= initializer_amount,
    ensures
        initialize_error(s, ctx, initializer_amount, taker_amount, seed) == None::<EscrowError>,
        ({
            let s1 = initialize_post(s, ctx, initializer_amount, taker_amount, seed);
            let a = spec_escrow_address(ctx.initializer, seed);
            let from = ctx.initializer_deposit_token_account;
            &&& s1.escrows.contains_key(a)
            &&& s1.escrows[a].vault_amount == initializer_amount
            &&& s1.escrows[a].escrow.expected_taker_amount == taker_amount
            &&& !s1.escrows[a].escrow.is_completed
            &&& s1.accounts[from].amount == s.accounts[from].amount - initializer_amount
        }),
{
}

/// A cancel signed by anyone but the escrow's initializer is refused as
/// `Unauthorized`.
pub proof fn lemma_cancel_by_stranger_unauthorized(s: ProgramState, ctx: CancelEscrow)
    requires
        s.escrows.contains_key(ctx.escrow),
        s.escrows[ctx.escrow].escrow.initializer != ctx.initializer,
    ensures
        cancel_error(s, ctx) == Some(EscrowError::Unauthorized),
{
}

/// A cancel of an open escrow, signed by its initializer and refunding to
/// the deposit account the escrow recorded, succeeds whenever that account
/// still holds the vault's asset and the refund fits in its balance. It
/// credits the vault's whole balance to that account and closes the
/// escrow; any later cancel or exchange of the same escrow is refused as
/// `NotFound`.
pub proof fn lemma_cancel_refunds_and_closes(
    s: ProgramState,
    ctx: CancelEscrow,
    later_cancel: CancelEscrow,
    later_exchange: Exchange,
)
    requires
        s.wf(),
        s.escrows.contains_key(ctx.escrow),
        s.escrows[ctx.escrow].escrow.initializer == ctx.initializer,
        ctx.initializer_deposit_token_account == s.escrows[ctx.escrow].escrow.initializer_token_account,
        s.accounts.contains_key(ctx.initializer_deposit_token_account),
        s.accounts[ctx.initializer_deposit_token_account].mint == s.escrows[ctx.escrow].vault_mint,
        s.accounts[ctx.initializer_deposit_token_account].amount
            + s.escrows[ctx.escrow].vault_amount <= u64::MAX,
        later_cancel.escrow == ctx.escrow,
        later_exchange.escrow == ctx.escrow,
    ensures
        cancel_error(s, ctx) == None::<EscrowError>,
        ({
            let s1 = cancel_post(s, ctx);
            let to = ctx.initializer_deposit_token_account;
            &&& s1.accounts[to].amount == s.accounts[to].amount + s.escrows[ctx.escrow].vault_amount
            &&& !s1.escrows.contains_key(ctx.escrow)
            &&& cancel_error(s1, later_cancel) == Some(EscrowError::NotFound)
            &&& exchange_error(s1, later_exchange) == Some(EscrowError::NotFound)
        }),
{
}

/// An exchange of an open escrow succeeds whenever the named initializer is
/// the recorded one, the receiving account holds the vault's asset and the
/// initializer's account the taker's, the taker owns the paying account and
/// holds at least the recorded expected amount there, and no credit
/// overflows. It credits the vault's whole balance to the taker's receiving
/// account, moves exactly the recorded expected amount (no value the taker
/// names) from the taker's deposit account to the initializer's account,
/// and closes the escrow; any later exchange or cancel of the same escrow
/// is refused as `NotFound`.
pub proof fn lemma_exchange_swaps_and_closes(
    s: ProgramState,
    ctx: Exchange,
    later_exchange: Exchange,
    later_cancel: CancelEscrow,
)
    requires
        s.wf(),
        s.escrows.contains_key(ctx.escrow),
        s.escrows[ctx.escrow].escrow.initializer == ctx.initializer,
        s.accounts.contains_key(ctx.taker_receive_token_account),
        s.accounts.contains_key(ctx.taker_deposit_token_account),
        s.accounts.contains_key(ctx.initializer_receive_token_account),
        s.accounts[ctx.initializer_receive_token_account].owner == ctx.initializer,
        s.accounts[ctx.taker_receive_token_account].mint == s.escrows[ctx.escrow].vault_mint,
        s.accounts[ctx.taker_deposit_token_account].mint
            == s.accounts[ctx.initializer_receive_token_account].mint,
        s.accounts[ctx.taker_deposit_token_account].owner == ctx.taker,
        s.accounts[ctx.taker_deposit_token_account].amount
            >= s.escrows[ctx.escrow].escrow.expected_taker_amount,
        s.accounts[ctx.taker_receive_token_account].amount + s.escrows[ctx.escrow].vault_amount
            <= u64::MAX,
        s.accounts[ctx.initializer_receive_token_account].amount
            + s.escrows[ctx.escrow].escrow.expected_taker_amount <= u64::MAX,
        ctx.taker_deposit_token_account != ctx.taker_receive_token_account,
        ctx.taker_deposit_token_account != ctx.initializer_receive_token_account,
        ctx.taker_receive_token_account != ctx.initializer_receive_token_account,
        later_exchange.escrow == ctx.escrow,
        later_cancel.escrow == ctx.escrow,
    ensures
        exchange_error(s, ctx) == None::<EscrowError>,
        ({
            let s1 = exchange_post(s, ctx);
            let e = s.escrows[ctx.escrow];
            let recv = ctx.taker_receive_token_account;
            let dep = ctx.taker_deposit_token_account;
            let init = ctx.initializer_receive_token_account;
            &&& s1.accounts[recv].amount == s.accounts[recv].amount + e.vault_amount
            &&& s1.accounts[dep].amount == s.accounts[dep].amount - e.escrow.expected_taker_amount
            &&& s1.accounts[init].amount == s.accounts[init].amount
                + e.escrow.expected_taker_amount
            &&& !s1.escrows.contains_key(ctx.escrow)
            &&& exchange_error(s1, later_exchange) == Some(EscrowError::NotFound)
            &&& cancel_error(s1, later_cancel) == Some(EscrowError::NotFound)
        }),
{
}

/// An exchange whose taker holds less of the counter-asset than the
/// recorded expected amount is refused.
pub proof fn lemma_exchange_short_taker_fails(s: ProgramState, ctx: Exchange)
    requires
        s.escrows.contains_key(ctx.escrow),
        ctx.taker_deposit_token_account != ctx.taker_receive_token_account,
        s.accounts.contains_key(ctx.taker_deposit_token_account),
        s.accounts[ctx.taker_deposit_token_account].amount < s.escrows[ctx.escrow].escrow.expected_taker_amount,
    ensures
        exchange_error(s, ctx) != None::<EscrowError>,
{
    let m = exchange_after_release(s, ctx);
    if release_error(
        s.accounts,
        ctx.taker_receive_token_account,
        s.escrows[ctx.escrow].vault_mint,
        s.escrows[ctx.escrow].vault_amount,
    ) is None {
        assert(m[ctx.taker_deposit_token_account] == s.accounts[ctx.taker_deposit_token_account]);
    }
}

} // verus!
