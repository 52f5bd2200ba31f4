use vstd::prelude::*;

use crate::account::AccountId;
use crate::authority::derived_address;
use crate::distributor::{
    backdoor_withdraw_outcome, distribute_outcome, initialize_outcome, redeem_outcome,
    updated_entry, BackdoorWithdraw, Distribute,
    DistributorAccount, InitializeDistributor, Redeem,
};
use crate::error::ErrorCode;

verus! {

/// A valid initialization succeeds, credits the contract escrow with exactly the seed amount,
/// takes it from the administrator's contract-unit account, and changes no other balance.
/// Valid means: an empty slot, escrow accounts owned by the vault authority that the nonce
/// derives, a signing administrator who owns the seed account and holds enough units of the
/// escrow's asset, and an escrow balance that can take them.
pub proof fn lemma_initialize_moves_only_seed(
    ctx: InitializeDistributor,
    program_id: AccountId,
    price: u64,
    ftr: u64,
    units: u64,
    nonce: u8,
)
    requires
        ctx.distributor_account is None,
        derived_address(ctx.distributor_ftr.mint@, nonce, program_id@) == Some(ctx.distributor_signer@),
        ctx.distributor_ftr.owner == ctx.distributor_signer,
        ctx.distributor_usdc.owner == ctx.distributor_signer,
        ctx.distributor_contract.owner == ctx.distributor_signer,
        ctx.distribution_authority.is_signer,
        ctx.creator_contract.owner == ctx.distribution_authority.key,
        ctx.creator_contract.mint == ctx.distributor_contract.mint,
        ctx.creator_contract.amount >= units,
        ctx.distributor_contract.amount + units <= u64::MAX,
    ensures
        initialize_outcome(ctx, program_id, price, ftr, units, nonce) is Ok,
        ({
            let next = initialize_outcome(ctx, program_id, price, ftr, units, nonce)->Ok_0;
            &&& next.distributor_contract.amount == ctx.distributor_contract.amount + units
            &&& next.creator_contract.amount == ctx.creator_contract.amount - units
            &&& next.distributor_usdc == ctx.distributor_usdc
            &&& next.distributor_ftr == ctx.distributor_ftr
            &&& next.distributor_contract.key == ctx.distributor_contract.key
            &&& next.creator_contract.key == ctx.creator_contract.key
        }),
{
}

/// The accounts of a `redeem` by the same user against the same distributor, in the state
/// that a `distribute` left.
pub open spec fn redeem_accounts(d: Distribute) -> Redeem {
    Redeem {
        distributor_account: d.distributor_account,
        distributor_signer: d.distributor_signer,
        distributor_usdc: d.distributor_usdc,
        distributor_ftr: d.distributor_ftr,
        distributor_contract: d.distributor_contract,
        user_authority: d.user_authority,
        user_usdc: d.user_usdc,
        user_ftr: d.user_ftr,
        user_contract: d.user_contract,
    }
}

/// Buying units and at once redeeming as many, with no update in between, succeeds and gives
/// the user back exactly the settlement, reward and contract-unit balances they started with.
pub proof fn lemma_distribute_then_redeem_restores_user(ctx: Distribute, program_id: AccountId, units: u64)
    requires
        units > 0,
        distribute_outcome(ctx, program_id, units) is Ok,
    ensures
        ({
            let after = distribute_outcome(ctx, program_id, units)->Ok_0;
            let back = redeem_outcome(redeem_accounts(after), program_id, units);
            &&& back is Ok
            &&& back->Ok_0.user_usdc == ctx.user_usdc
            &&& back->Ok_0.user_ftr == ctx.user_ftr
            &&& back->Ok_0.user_contract == ctx.user_contract
        }),
{
}

/// An update keeps the administrator, the nonce, the reward asset and the three escrow
/// identities, and changes the price or the reward amount only where a new one is given.
pub proof fn lemma_update_keeps_identity(entry: DistributorAccount, price: Option<u64>, ftr: Option<u64>)
    ensures
        ({
            let next = updated_entry(entry, price, ftr);
            &&& next.distribution_authority == entry.distribution_authority
            &&& next.nonce == entry.nonce
            &&& next.ftr_mint == entry.ftr_mint
            &&& next.distributor_usdc == entry.distributor_usdc
            &&& next.distributor_ftr == entry.distributor_ftr
            &&& next.distributor_contract == entry.distributor_contract
            &&& next.price_of_contract == (if price is Some { price->Some_0 } else { entry.price_of_contract })
            &&& next.ftr_per_contract == (if ftr is Some { ftr->Some_0 } else { entry.ftr_per_contract })
        }),
{
}

/// A `distribute` asking for more units than the contract escrow holds fails with
/// `InsufficientContractUnits`.
pub proof fn lemma_distribute_beyond_escrow_fails(ctx: Distribute, program_id: AccountId, units: u64)
    requires
        units > ctx.distributor_contract.amount,
    ensures
        distribute_outcome(ctx, program_id, units) == Err::<Distribute, ErrorCode>(
            ErrorCode::InsufficientContractUnits,
        ),
{
}

/// A withdrawal by anyone but the entry's administrator fails with `Unauthorized`.
pub proof fn lemma_withdraw_by_non_admin_fails(
    ctx: BackdoorWithdraw,
    program_id: AccountId,
    contracts: Option<u64>,
    usdc: Option<u64>,
    ftr: Option<u64>,
)
    requires
        ctx.distribution_authority.key != ctx.distributor_account.distribution_authority,
    ensures
        backdoor_withdraw_outcome(ctx, program_id, contracts, usdc, ftr) == Err::<
            BackdoorWithdraw,
            ErrorCode,
        >(ErrorCode::Unauthorized),
{
}

} // verus!
