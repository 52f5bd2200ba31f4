use anchor_lang::prelude::Pubkey;
use ftr_distributor::authority::verify_vault_authority;
use ftr_distributor::{
    backdoor_withdraw, distribute, initialize_distributor, redeem, update_distributor, AccountId,
    BackdoorWithdraw, Distribute, DistributorAccount, ErrorCode, InitializeDistributor, Redeem,
    SignerInfo, TokenAccount, UpdateDistributor,
};

const PROGRAM: [u8; 32] = [7u8; 32];
const FTR_MINT: [u8; 32] = [2u8; 32];
const USDC_MINT: [u8; 32] = [3u8; 32];
const CONTRACT_MINT: [u8; 32] = [4u8; 32];
const ADMIN: [u8; 32] = [9u8; 32];
const USER: [u8; 32] = [11u8; 32];

fn id(b: [u8; 32]) -> AccountId {
    AccountId::new(b)
}

fn key(n: u8) -> AccountId {
    let mut b = [0u8; 32];
    b[0] = 200;
    b[1] = n;
    id(b)
}

fn vault() -> (AccountId, u8) {
    let (pda, bump) =
        Pubkey::find_program_address(&[&FTR_MINT[..]], &Pubkey::new_from_array(PROGRAM));
    (id(pda.to_bytes()), bump)
}

fn account(k: u8, mint: [u8; 32], owner: AccountId, amount: u64) -> TokenAccount {
    TokenAccount { key: key(k), mint: id(mint), owner, amount }
}

fn entry(price: u64, reward: u64) -> DistributorAccount {
    let (_, nonce) = vault();
    DistributorAccount {
        price_of_contract: price,
        ftr_per_contract: reward,
        nonce,
        distribution_authority: id(ADMIN),
        distributor_usdc: key(1),
        distributor_ftr: key(2),
        distributor_contract: key(3),
        ftr_mint: id(FTR_MINT),
    }
}

fn exchange(price: u64, reward: u64, escrow_units: u64) -> Distribute {
    let (signer, _) = vault();
    Distribute {
        distributor_account: entry(price, reward),
        distributor_signer: signer,
        distributor_usdc: account(1, USDC_MINT, signer, 0),
        distributor_ftr: account(2, FTR_MINT, signer, 0),
        distributor_contract: account(3, CONTRACT_MINT, signer, escrow_units),
        user_authority: SignerInfo { key: id(USER), is_signer: true },
        user_usdc: account(4, USDC_MINT, id(USER), 5000),
        user_ftr: account(5, FTR_MINT, id(USER), 500),
        user_contract: account(6, CONTRACT_MINT, id(USER), 0),
    }
}

fn as_redeem(d: &Distribute) -> Redeem {
    Redeem {
        distributor_account: d.distributor_account,
        distributor_signer: d.distributor_signer,
        distributor_usdc: d.distributor_usdc,
        distributor_ftr: d.distributor_ftr,
        distributor_contract: d.distributor_contract,
        user_authority: d.user_authority,
        user_usdc: d.user_usdc,
        user_ftr: d.user_ftr,
        user_contract: d.user_contract,
    }
}

fn amounts(d: &Distribute) -> [u64; 6] {
    [
        d.user_usdc.amount,
        d.user_ftr.amount,
        d.user_contract.amount,
        d.distributor_usdc.amount,
        d.distributor_ftr.amount,
        d.distributor_contract.amount,
    ]
}

fn init_ctx(creator_units: u64) -> InitializeDistributor {
    let (signer, _) = vault();
    InitializeDistributor {
        distributor_account: None,
        distributor_signer: signer,
        distributor_ftr: account(2, FTR_MINT, signer, 0),
        distributor_usdc: account(1, USDC_MINT, signer, 0),
        distributor_contract: account(3, CONTRACT_MINT, signer, 0),
        distribution_authority: SignerInfo { key: id(ADMIN), is_signer: true },
        creator_contract: account(7, CONTRACT_MINT, id(ADMIN), creator_units),
    }
}

fn withdraw_ctx(admin: AccountId) -> BackdoorWithdraw {
    let (signer, _) = vault();
    BackdoorWithdraw {
        distributor_account: entry(100, 5),
        distribution_authority: SignerInfo { key: admin, is_signer: true },
        distributor_signer: signer,
        distributor_usdc: account(1, USDC_MINT, signer, 300),
        distributor_ftr: account(2, FTR_MINT, signer, 40),
        distributor_contract: account(3, CONTRACT_MINT, signer, 20),
        creator_usdc: account(8, USDC_MINT, admin, 0),
        creator_ftr: account(9, FTR_MINT, admin, 0),
        creator_contract: account(10, CONTRACT_MINT, admin, 0),
    }
}

#[test]
fn vault_authority_is_the_derived_address() {
    let (signer, nonce) = vault();
    assert!(verify_vault_authority(&signer, &id(FTR_MINT), nonce, &id(PROGRAM)));
    assert!(!verify_vault_authority(&id(FTR_MINT), &id(FTR_MINT), nonce, &id(PROGRAM)));
    assert!(!verify_vault_authority(&signer, &id(USDC_MINT), nonce, &id(PROGRAM)));
}

#[test]
fn account_ids_compare_by_bytes() {
    assert!(key(1).same(&key(1)));
    assert!(!key(1).same(&key(2)));
}

#[test]
fn initialize_seeds_contract_escrow() {
    let mut ctx = init_ctx(700);
    let (_, nonce) = vault();
    assert_eq!(initialize_distributor(&mut ctx, &id(PROGRAM), 100, 5, 600, nonce), Ok(()));
    assert_eq!(ctx.distributor_contract.amount, 600);
    assert_eq!(ctx.creator_contract.amount, 100);
    assert_eq!(ctx.distributor_usdc.amount, 0);
    assert_eq!(ctx.distributor_ftr.amount, 0);
    let e = ctx.distributor_account.unwrap();
    assert_eq!(e.price_of_contract, 100);
    assert_eq!(e.ftr_per_contract, 5);
    assert_eq!(e.nonce, nonce);
    assert!(e.distribution_authority.same(&id(ADMIN)));
    assert!(e.distributor_contract.same(&key(3)));
    assert!(e.ftr_mint.same(&id(FTR_MINT)));
}

#[test]
fn initialize_rejects_wrong_nonce() {
    let mut ctx = init_ctx(700);
    let (_, nonce) = vault();
    let r = initialize_distributor(&mut ctx, &id(PROGRAM), 100, 5, 600, nonce.wrapping_sub(1));
    assert_eq!(r, Err(ErrorCode::InvalidNonce));
    assert!(ctx.distributor_account.is_none());
    assert_eq!(ctx.creator_contract.amount, 700);
}

#[test]
fn initialize_twice_fails() {
    let mut ctx = init_ctx(700);
    let (_, nonce) = vault();
    assert_eq!(initialize_distributor(&mut ctx, &id(PROGRAM), 100, 5, 600, nonce), Ok(()));
    let r = initialize_distributor(&mut ctx, &id(PROGRAM), 100, 5, 50, nonce);
    assert_eq!(r, Err(ErrorCode::AlreadyInitialized));
    assert_eq!(ctx.distributor_contract.amount, 600);
}

#[test]
fn initialize_with_too_few_units_fails() {
    let mut ctx = init_ctx(70);
    let (_, nonce) = vault();
    let r = initialize_distributor(&mut ctx, &id(PROGRAM), 100, 5, 600, nonce);
    assert_eq!(r, Err(ErrorCode::InsufficientBalance));
    assert_eq!(ctx.creator_contract.amount, 70);
    assert_eq!(ctx.distributor_contract.amount, 0);
}

#[test]
fn distribute_example_moves_balances() {
    let mut ctx = exchange(100, 5, 1000);
    assert_eq!(distribute(&mut ctx, &id(PROGRAM), 10), Ok(()));
    assert_eq!(amounts(&ctx), [4000, 450, 10, 1000, 50, 990]);
}

#[test]
fn distribute_beyond_escrow_fails() {
    let mut ctx = exchange(100, 5, 1000);
    let before = amounts(&ctx);
    assert_eq!(distribute(&mut ctx, &id(PROGRAM), 1001), Err(ErrorCode::InsufficientContractUnits));
    assert_eq!(amounts(&ctx), before);
}

#[test]
fn distribute_then_redeem_round_trip() {
    let mut ctx = exchange(100, 5, 1000);
    let before = amounts(&ctx);
    assert_eq!(distribute(&mut ctx, &id(PROGRAM), 7), Ok(()));
    let mut back = as_redeem(&ctx);
    assert_eq!(redeem(&mut back, &id(PROGRAM), 7), Ok(()));
    assert_eq!(back.user_usdc.amount, before[0]);
    assert_eq!(back.user_ftr.amount, before[1]);
    assert_eq!(back.user_contract.amount, before[2]);
    assert_eq!(back.distributor_contract.amount, before[5]);
}

#[test]
fn distribute_overflow_fails() {
    let mut ctx = exchange(u64::MAX, 5, 1000);
    let before = amounts(&ctx);
    assert_eq!(distribute(&mut ctx, &id(PROGRAM), 2), Err(ErrorCode::ArithmeticOverflow));
    assert_eq!(amounts(&ctx), before);
}

#[test]
fn distribute_underfunded_user_fails() {
    let mut ctx = exchange(100, 5, 1000);
    let before = amounts(&ctx);
    assert_eq!(distribute(&mut ctx, &id(PROGRAM), 51), Err(ErrorCode::InsufficientBalance));
    assert_eq!(amounts(&ctx), before);
}

#[test]
fn distribute_underfunded_reward_leaves_settlement_untouched() {
    let mut ctx = exchange(1, 100, 1000);
    let before = amounts(&ctx);
    assert_eq!(distribute(&mut ctx, &id(PROGRAM), 6), Err(ErrorCode::InsufficientBalance));
    assert_eq!(amounts(&ctx), before);
}

#[test]
fn distribute_with_wrong_asset_fails() {
    let mut ctx = exchange(100, 5, 1000);
    ctx.user_usdc.mint = id(FTR_MINT);
    assert_eq!(distribute(&mut ctx, &id(PROGRAM), 1), Err(ErrorCode::MintMismatch));
    assert_eq!(ctx.user_usdc.amount, 5000);
}

#[test]
fn distribute_with_foreign_escrow_fails() {
    let mut ctx = exchange(100, 5, 1000);
    ctx.distributor_usdc.key = key(42);
    assert_eq!(distribute(&mut ctx, &id(PROGRAM), 1), Err(ErrorCode::Unauthorized));
}

#[test]
fn distribute_with_false_vault_authority_fails() {
    let mut ctx = exchange(100, 5, 1000);
    ctx.distributor_signer = id(USER);
    assert_eq!(distribute(&mut ctx, &id(PROGRAM), 1), Err(ErrorCode::Unauthorized));
}

#[test]
fn distribute_without_user_signature_fails() {
    let mut ctx = exchange(100, 5, 1000);
    ctx.user_authority.is_signer = false;
    assert_eq!(distribute(&mut ctx, &id(PROGRAM), 1), Err(ErrorCode::Unauthorized));
}

#[test]
fn redeem_short_settlement_fails() {
    let mut ctx = as_redeem(&exchange(100, 5, 1000));
    ctx.user_contract.amount = 3;
    ctx.distributor_ftr.amount = 1000;
    assert_eq!(redeem(&mut ctx, &id(PROGRAM), 3), Err(ErrorCode::InsufficientSettlementBalance));
    assert_eq!(ctx.user_contract.amount, 3);
}

#[test]
fn redeem_short_reward_fails() {
    let mut ctx = as_redeem(&exchange(100, 5, 1000));
    ctx.user_contract.amount = 3;
    ctx.distributor_usdc.amount = 1000;
    assert_eq!(redeem(&mut ctx, &id(PROGRAM), 3), Err(ErrorCode::InsufficientRewardBalance));
    assert_eq!(ctx.distributor_usdc.amount, 1000);
}

#[test]
fn redeem_pays_price_and_reward() {
    let mut ctx = as_redeem(&exchange(100, 5, 1000));
    ctx.user_contract.amount = 3;
    ctx.distributor_usdc.amount = 1000;
    ctx.distributor_ftr.amount = 100;
    assert_eq!(redeem(&mut ctx, &id(PROGRAM), 3), Ok(()));
    assert_eq!(ctx.user_contract.amount, 0);
    assert_eq!(ctx.distributor_contract.amount, 1003);
    assert_eq!(ctx.distributor_usdc.amount, 700);
    assert_eq!(ctx.user_usdc.amount, 5300);
    assert_eq!(ctx.distributor_ftr.amount, 85);
    assert_eq!(ctx.user_ftr.amount, 515);
}

#[test]
fn update_changes_only_given_fields() {
    let mut ctx = UpdateDistributor {
        distributor_account: entry(100, 5),
        distribution_authority: SignerInfo { key: id(ADMIN), is_signer: true },
    };
    assert_eq!(update_distributor(&mut ctx, Some(250), None), Ok(()));
    let e = ctx.distributor_account;
    assert_eq!(e.price_of_contract, 250);
    assert_eq!(e.ftr_per_contract, 5);
    assert_eq!(e.nonce, entry(100, 5).nonce);
    assert!(e.distribution_authority.same(&id(ADMIN)));
    assert!(e.distributor_usdc.same(&key(1)));
    assert_eq!(update_distributor(&mut ctx, None, Some(9)), Ok(()));
    assert_eq!(ctx.distributor_account.price_of_contract, 250);
    assert_eq!(ctx.distributor_account.ftr_per_contract, 9);
}

#[test]
fn update_by_non_admin_fails() {
    let mut ctx = UpdateDistributor {
        distributor_account: entry(100, 5),
        distribution_authority: SignerInfo { key: id(USER), is_signer: true },
    };
    assert_eq!(update_distributor(&mut ctx, Some(1), Some(1)), Err(ErrorCode::Unauthorized));
    assert_eq!(ctx.distributor_account.price_of_contract, 100);
    assert_eq!(ctx.distributor_account.ftr_per_contract, 5);
}

#[test]
fn backdoor_by_non_admin_fails() {
    let mut ctx = withdraw_ctx(id(USER));
    let r = backdoor_withdraw(&mut ctx, &id(PROGRAM), Some(1), Some(1), Some(1));
    assert_eq!(r, Err(ErrorCode::Unauthorized));
    assert_eq!(ctx.distributor_contract.amount, 20);
    assert_eq!(ctx.distributor_usdc.amount, 300);
    assert_eq!(ctx.distributor_ftr.amount, 40);
}

#[test]
fn backdoor_withdraws_present_legs() {
    let mut ctx = withdraw_ctx(id(ADMIN));
    assert_eq!(backdoor_withdraw(&mut ctx, &id(PROGRAM), Some(20), None, Some(15)), Ok(()));
    assert_eq!(ctx.distributor_contract.amount, 0);
    assert_eq!(ctx.creator_contract.amount, 20);
    assert_eq!(ctx.distributor_usdc.amount, 300);
    assert_eq!(ctx.creator_usdc.amount, 0);
    assert_eq!(ctx.distributor_ftr.amount, 25);
    assert_eq!(ctx.creator_ftr.amount, 15);
}

#[test]
fn backdoor_short_contract_units_fails() {
    let mut ctx = withdraw_ctx(id(ADMIN));
    let r = backdoor_withdraw(&mut ctx, &id(PROGRAM), Some(21), None, None);
    assert_eq!(r, Err(ErrorCode::InsufficientContractUnits));
}

#[test]
fn backdoor_short_settlement_keeps_earlier_leg() {
    let mut ctx = withdraw_ctx(id(ADMIN));
    let r = backdoor_withdraw(&mut ctx, &id(PROGRAM), Some(5), Some(301), None);
    assert_eq!(r, Err(ErrorCode::InsufficientSettlementBalance));
    assert_eq!(ctx.distributor_contract.amount, 20);
    assert_eq!(ctx.creator_contract.amount, 0);
}

#[test]
fn backdoor_short_reward_fails() {
    let mut ctx = withdraw_ctx(id(ADMIN));
    let r = backdoor_withdraw(&mut ctx, &id(PROGRAM), None, Some(10), Some(41));
    assert_eq!(r, Err(ErrorCode::InsufficientRewardBalance));
    assert_eq!(ctx.distributor_usdc.amount, 300);
}

#[test]
fn error_messages_are_distinct() {
    assert_eq!(ErrorCode::InvalidNonce.message(), "Given nonce is invalid");
    assert_ne!(
        ErrorCode::InsufficientSettlementBalance.message(),
        ErrorCode::InsufficientRewardBalance.message()
    );
}

#[test]
fn distribute_shortage_answers_before_account_checks() {
    let mut ctx = exchange(100, 5, 1000);
    ctx.distributor_usdc.key = key(42);
    assert_eq!(distribute(&mut ctx, &id(PROGRAM), 1001), Err(ErrorCode::InsufficientContractUnits));
    assert_eq!(ctx.distributor_contract.amount, 1000);
}

#[test]
fn redeem_with_foreign_escrow_fails() {
    let mut ctx = as_redeem(&exchange(100, 5, 1000));
    ctx.user_contract.amount = 3;
    ctx.distributor_usdc.amount = 1000;
    ctx.distributor_ftr.amount = 100;
    ctx.distributor_contract.key = key(43);
    assert_eq!(redeem(&mut ctx, &id(PROGRAM), 3), Err(ErrorCode::Unauthorized));
    assert_eq!(ctx.user_contract.amount, 3);
    assert_eq!(ctx.distributor_usdc.amount, 1000);
}
