use escrow_dapp::escrow::{cancel_escrow, exchange, initialize_escrow};
use escrow_dapp::ledger::{derive_escrow, escrow_address, seeds_authorize, signer_seeds, SignerSeeds};
use escrow_dapp::program::EscrowProgram;
use escrow_dapp::types::{CancelEscrow, EscrowError, Exchange, InitializeEscrow, TokenAccount};

const ALICE: u64 = 1;
const BOB: u64 = 2;
const MALLORY: u64 = 3;
const MINT_A: u64 = 100;
const MINT_B: u64 = 200;
const ALICE_A: u64 = 10;
const ALICE_B: u64 = 11;
const BOB_A: u64 = 20;
const BOB_B: u64 = 21;

fn setup(alice_a: u64, bob_b: u64) -> EscrowProgram {
    let mut p = EscrowProgram::new();
    p.open_account(ALICE_A, MINT_A, ALICE, alice_a).unwrap();
    p.open_account(ALICE_B, MINT_B, ALICE, 0).unwrap();
    p.open_account(BOB_A, MINT_A, BOB, 0).unwrap();
    p.open_account(BOB_B, MINT_B, BOB, bob_b).unwrap();
    p
}

fn init_ctx(initializer: u64, deposit_account: u64) -> InitializeEscrow {
    InitializeEscrow {
        initializer,
        mint: MINT_A,
        initializer_deposit_token_account: deposit_account,
        unix_timestamp: 1_700_000_000,
    }
}

fn exchange_ctx(seed: u64) -> Exchange {
    Exchange {
        taker: BOB,
        taker_deposit_token_account: BOB_B,
        taker_receive_token_account: BOB_A,
        initializer: ALICE,
        initializer_receive_token_account: ALICE_B,
        escrow: escrow_address(ALICE, seed),
    }
}

fn cancel_ctx(signer: u64, seed: u64) -> CancelEscrow {
    CancelEscrow {
        initializer: signer,
        escrow: escrow_address(ALICE, seed),
        initializer_deposit_token_account: ALICE_A,
    }
}

#[test]
fn deposit_then_exchange_then_cancel_fails() {
    let mut p = setup(1000, 500);
    initialize_escrow(&mut p, &init_ctx(ALICE, ALICE_A), 1000, 500, 7).unwrap();
    let addr = escrow_address(ALICE, 7);
    assert_eq!(p.vault_balance(addr), Some(1000));
    assert_eq!(p.balance(ALICE_A), Some(0));
    exchange(&mut p, &exchange_ctx(7)).unwrap();
    assert_eq!(p.balance(BOB_A), Some(1000));
    assert_eq!(p.balance(ALICE_B), Some(500));
    assert_eq!(p.balance(BOB_B), Some(0));
    assert_eq!(p.escrow(addr), None);
    assert_eq!(p.vault_balance(addr), None);
    assert_eq!(cancel_escrow(&mut p, &cancel_ctx(ALICE, 7)), Err(EscrowError::NotFound));
}

#[test]
fn deposit_then_cancel_restores_balance() {
    let mut p = setup(1000, 500);
    initialize_escrow(&mut p, &init_ctx(ALICE, ALICE_A), 1000, 500, 7).unwrap();
    assert_eq!(p.balance(ALICE_A), Some(0));
    cancel_escrow(&mut p, &cancel_ctx(ALICE, 7)).unwrap();
    assert_eq!(p.balance(ALICE_A), Some(1000));
    assert_eq!(p.escrow(escrow_address(ALICE, 7)), None);
    assert_eq!(p.balance(BOB_A), Some(0));
    assert_eq!(p.balance(BOB_B), Some(500));
}

#[test]
fn create_records_terms() {
    let mut p = setup(1000, 500);
    initialize_escrow(&mut p, &init_ctx(ALICE, ALICE_A), 300, 40, 9).unwrap();
    let e = p.escrow(escrow_address(ALICE, 9)).unwrap();
    assert_eq!(e.initializer, ALICE);
    assert_eq!(e.initializer_token_account, ALICE_A);
    assert_eq!(e.expected_taker_amount, 40);
    assert_eq!(e.seed, 9);
    assert!(!e.is_completed);
    assert_eq!(e.created_at, 1_700_000_000);
    assert_eq!(e.bump, 245);
    assert_eq!(derive_escrow(ALICE, 9), (escrow_address(ALICE, 9), 245));
    assert_eq!(p.vault_balance(escrow_address(ALICE, 9)), Some(300));
    assert_eq!(p.balance(ALICE_A), Some(700));
}

#[test]
fn second_create_same_pair_already_exists() {
    let mut p = setup(1000, 500);
    initialize_escrow(&mut p, &init_ctx(ALICE, ALICE_A), 100, 50, 7).unwrap();
    assert_eq!(
        initialize_escrow(&mut p, &init_ctx(ALICE, ALICE_A), 200, 1, 7),
        Err(EscrowError::AlreadyExists)
    );
    assert_eq!(p.balance(ALICE_A), Some(900));
    assert_eq!(p.vault_balance(escrow_address(ALICE, 7)), Some(100));
    initialize_escrow(&mut p, &init_ctx(ALICE, ALICE_A), 200, 1, 8).unwrap();
    assert_eq!(p.vault_balance(escrow_address(ALICE, 8)), Some(200));
    assert_eq!(p.balance(ALICE_A), Some(700));
}

#[test]
fn distinct_pairs_get_distinct_addresses() {
    assert_ne!(escrow_address(1, 2), escrow_address(2, 1));
    assert_ne!(escrow_address(0, 1), escrow_address(1, 0));
    assert_eq!(escrow_address(1, 7), (1u128 << 64) + 7);
    assert_eq!(escrow_address(u64::MAX, u64::MAX), u128::MAX);
}

#[test]
fn zero_amounts_invalid() {
    let mut p = setup(1000, 500);
    assert_eq!(
        initialize_escrow(&mut p, &init_ctx(ALICE, ALICE_A), 0, 500, 7),
        Err(EscrowError::InvalidAmount)
    );
    assert_eq!(
        initialize_escrow(&mut p, &init_ctx(ALICE, ALICE_A), 1000, 0, 7),
        Err(EscrowError::InvalidAmount)
    );
    assert_eq!(p.escrow(escrow_address(ALICE, 7)), None);
    assert_eq!(p.vault_balance(escrow_address(ALICE, 7)), None);
    assert_eq!(p.balance(ALICE_A), Some(1000));
}

#[test]
fn create_deposit_errors() {
    let mut p = setup(1000, 500);
    assert_eq!(
        initialize_escrow(&mut p, &init_ctx(ALICE, 999), 10, 5, 1),
        Err(EscrowError::NotFound)
    );
    assert_eq!(
        initialize_escrow(&mut p, &init_ctx(ALICE, ALICE_B), 10, 5, 1),
        Err(EscrowError::MintMismatch)
    );
    assert_eq!(
        initialize_escrow(&mut p, &init_ctx(ALICE, ALICE_A), 1001, 5, 1),
        Err(EscrowError::InsufficientFunds)
    );
    p.open_account(30, MINT_A, BOB, 50).unwrap();
    assert_eq!(
        initialize_escrow(&mut p, &init_ctx(ALICE, 30), 10, 5, 1),
        Err(EscrowError::Unauthorized)
    );
    assert_eq!(p.escrow(escrow_address(ALICE, 1)), None);
    assert_eq!(p.balance(ALICE_A), Some(1000));
    assert_eq!(p.balance(30), Some(50));
}

#[test]
fn cancel_by_stranger_unauthorized() {
    let mut p = setup(1000, 500);
    initialize_escrow(&mut p, &init_ctx(ALICE, ALICE_A), 1000, 500, 7).unwrap();
    assert_eq!(cancel_escrow(&mut p, &cancel_ctx(MALLORY, 7)), Err(EscrowError::Unauthorized));
    assert_eq!(p.vault_balance(escrow_address(ALICE, 7)), Some(1000));
    assert_eq!(p.balance(ALICE_A), Some(0));
}

#[test]
fn cancel_then_cancel_or_exchange_not_found() {
    let mut p = setup(1000, 500);
    initialize_escrow(&mut p, &init_ctx(ALICE, ALICE_A), 1000, 500, 7).unwrap();
    cancel_escrow(&mut p, &cancel_ctx(ALICE, 7)).unwrap();
    assert_eq!(cancel_escrow(&mut p, &cancel_ctx(ALICE, 7)), Err(EscrowError::NotFound));
    assert_eq!(exchange(&mut p, &exchange_ctx(7)), Err(EscrowError::NotFound));
    assert_eq!(p.balance(ALICE_A), Some(1000));
}

#[test]
fn cancel_refunds_only_to_recorded_account() {
    let mut p = setup(1000, 500);
    p.open_account(40, MINT_A, MALLORY, 0).unwrap();
    p.open_account(41, MINT_A, ALICE, 0).unwrap();
    initialize_escrow(&mut p, &init_ctx(ALICE, ALICE_A), 1000, 500, 7).unwrap();
    let mut ctx = cancel_ctx(ALICE, 7);
    ctx.initializer_deposit_token_account = 40;
    assert_eq!(cancel_escrow(&mut p, &ctx), Err(EscrowError::Unauthorized));
    ctx.initializer_deposit_token_account = 41;
    assert_eq!(cancel_escrow(&mut p, &ctx), Err(EscrowError::Unauthorized));
    ctx.initializer_deposit_token_account = ALICE_B;
    assert_eq!(cancel_escrow(&mut p, &ctx), Err(EscrowError::Unauthorized));
    assert_eq!(p.balance(40), Some(0));
    assert_eq!(p.balance(41), Some(0));
    assert_eq!(p.vault_balance(escrow_address(ALICE, 7)), Some(1000));
    cancel_escrow(&mut p, &cancel_ctx(ALICE, 7)).unwrap();
    assert_eq!(p.balance(ALICE_A), Some(1000));
}

#[test]
fn second_create_zero_amount_already_exists() {
    let mut p = setup(1000, 500);
    initialize_escrow(&mut p, &init_ctx(ALICE, ALICE_A), 100, 50, 7).unwrap();
    assert_eq!(
        initialize_escrow(&mut p, &init_ctx(ALICE, ALICE_A), 0, 0, 7),
        Err(EscrowError::AlreadyExists)
    );
    assert_eq!(p.vault_balance(escrow_address(ALICE, 7)), Some(100));
}

#[test]
fn exchange_pays_only_initializer_owned_account() {
    let mut p = setup(1000, 500);
    p.open_account(50, MINT_B, BOB, 0).unwrap();
    initialize_escrow(&mut p, &init_ctx(ALICE, ALICE_A), 1000, 500, 7).unwrap();
    let mut ctx = exchange_ctx(7);
    ctx.initializer_receive_token_account = 50;
    assert_eq!(exchange(&mut p, &ctx), Err(EscrowError::Unauthorized));
    ctx.initializer_receive_token_account = 999;
    assert_eq!(exchange(&mut p, &ctx), Err(EscrowError::NotFound));
    assert_eq!(p.balance(BOB_A), Some(0));
    assert_eq!(p.balance(BOB_B), Some(500));
    assert_eq!(p.balance(50), Some(0));
    assert_eq!(p.vault_balance(escrow_address(ALICE, 7)), Some(1000));
}

#[test]
fn exchange_receive_overflow_rolls_back() {
    let mut p = setup(1000, 500);
    p.open_account(60, MINT_A, BOB, u64::MAX - 999).unwrap();
    initialize_escrow(&mut p, &init_ctx(ALICE, ALICE_A), 1000, 500, 7).unwrap();
    let mut ctx = exchange_ctx(7);
    ctx.taker_receive_token_account = 60;
    assert_eq!(exchange(&mut p, &ctx), Err(EscrowError::Overflow));
    assert_eq!(p.balance(60), Some(u64::MAX - 999));
    assert_eq!(p.balance(BOB_B), Some(500));
    assert_eq!(p.vault_balance(escrow_address(ALICE, 7)), Some(1000));
}

#[test]
fn exchange_twice_fails() {
    let mut p = setup(1000, 500);
    initialize_escrow(&mut p, &init_ctx(ALICE, ALICE_A), 1000, 500, 7).unwrap();
    exchange(&mut p, &exchange_ctx(7)).unwrap();
    assert_eq!(exchange(&mut p, &exchange_ctx(7)), Err(EscrowError::NotFound));
    assert_eq!(p.balance(BOB_A), Some(1000));
    assert_eq!(p.balance(ALICE_B), Some(500));
}

#[test]
fn exchange_moves_recorded_amount_only() {
    let mut p = setup(1000, 800);
    initialize_escrow(&mut p, &init_ctx(ALICE, ALICE_A), 600, 300, 3).unwrap();
    exchange(&mut p, &exchange_ctx(3)).unwrap();
    assert_eq!(p.balance(BOB_B), Some(500));
    assert_eq!(p.balance(ALICE_B), Some(300));
    assert_eq!(p.balance(BOB_A), Some(600));
    assert_eq!(p.balance(ALICE_A), Some(400));
}

#[test]
fn exchange_insufficient_taker_is_atomic() {
    let mut p = setup(1000, 499);
    initialize_escrow(&mut p, &init_ctx(ALICE, ALICE_A), 1000, 500, 7).unwrap();
    assert_eq!(exchange(&mut p, &exchange_ctx(7)), Err(EscrowError::InsufficientFunds));
    assert_eq!(p.balance(BOB_A), Some(0));
    assert_eq!(p.balance(BOB_B), Some(499));
    assert_eq!(p.balance(ALICE_B), Some(0));
    assert_eq!(p.vault_balance(escrow_address(ALICE, 7)), Some(1000));
    assert!(p.escrow(escrow_address(ALICE, 7)).is_some());
}

#[test]
fn exchange_wrong_initializer_unauthorized() {
    let mut p = setup(1000, 500);
    initialize_escrow(&mut p, &init_ctx(ALICE, ALICE_A), 1000, 500, 7).unwrap();
    let mut ctx = exchange_ctx(7);
    ctx.initializer = MALLORY;
    assert_eq!(exchange(&mut p, &ctx), Err(EscrowError::Unauthorized));
    assert_eq!(p.vault_balance(escrow_address(ALICE, 7)), Some(1000));
}

#[test]
fn exchange_taker_not_owner_unauthorized() {
    let mut p = setup(1000, 500);
    initialize_escrow(&mut p, &init_ctx(ALICE, ALICE_A), 1000, 500, 7).unwrap();
    let mut ctx = exchange_ctx(7);
    ctx.taker = MALLORY;
    assert_eq!(exchange(&mut p, &ctx), Err(EscrowError::Unauthorized));
    assert_eq!(p.balance(BOB_A), Some(0));
    assert_eq!(p.balance(BOB_B), Some(500));
    assert_eq!(p.vault_balance(escrow_address(ALICE, 7)), Some(1000));
}

#[test]
fn exchange_mint_mismatch_rolls_back() {
    let mut p = setup(1000, 500);
    initialize_escrow(&mut p, &init_ctx(ALICE, ALICE_A), 1000, 500, 7).unwrap();
    let mut ctx = exchange_ctx(7);
    ctx.initializer_receive_token_account = ALICE_A;
    assert_eq!(exchange(&mut p, &ctx), Err(EscrowError::MintMismatch));
    assert_eq!(p.balance(BOB_A), Some(0));
    let mut ctx = exchange_ctx(7);
    ctx.taker_receive_token_account = BOB_B;
    assert_eq!(exchange(&mut p, &ctx), Err(EscrowError::MintMismatch));
    assert_eq!(p.vault_balance(escrow_address(ALICE, 7)), Some(1000));
}

#[test]
fn open_account_twice_already_exists() {
    let mut p = EscrowProgram::new();
    p.open_account(5, MINT_A, ALICE, 10).unwrap();
    assert_eq!(p.open_account(5, MINT_B, BOB, 20), Err(EscrowError::AlreadyExists));
    assert_eq!(p.account(5), Some(TokenAccount { mint: MINT_A, owner: ALICE, amount: 10 }));
    assert_eq!(p.balance(6), None);
}

#[test]
fn signer_seeds_reproduce_derivation_only() {
    let mut p = setup(1000, 500);
    initialize_escrow(&mut p, &init_ctx(ALICE, ALICE_A), 1000, 500, 7).unwrap();
    let addr = escrow_address(ALICE, 7);
    let e = p.escrow(addr).unwrap();
    let seeds = signer_seeds(&e);
    assert_eq!(seeds, SignerSeeds { initializer: ALICE, seed: 7, bump: 247 });
    assert!(seeds_authorize(&seeds, addr));
    assert!(!seeds_authorize(&SignerSeeds { initializer: ALICE, seed: 7, bump: 246 }, addr));
    assert!(!seeds_authorize(&SignerSeeds { initializer: ALICE, seed: 8, bump: 246 }, addr));
    assert!(!seeds_authorize(&SignerSeeds { initializer: BOB, seed: 7, bump: 246 }, addr));
    assert_eq!(derive_escrow(255, 2), (escrow_address(255, 2), 254));
}
