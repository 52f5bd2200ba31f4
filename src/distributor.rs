use vstd::prelude::*;

use crate::account::{AccountId, SignerInfo, TokenAccount};
use crate::authority::{derived_address, verify_vault_authority};
use crate::error::ErrorCode;
use crate::ledger::{credited, debited, transfer, transfer_failure};

verus! {

/// The persistent configuration of one distributor.
#[derive(Clone, Copy, Debug)]
pub struct DistributorAccount {
    /// Settlement currency paid for one contract unit.
    pub price_of_contract: u64,
    /// Reward currency paid for one contract unit.
    pub ftr_per_contract: u64,
    /// Bump that, with `ftr_mint`, derives the vault authority; fixed at creation.
    pub nonce: u8,
    /// The administrator, who alone may reconfigure and withdraw.
    pub distribution_authority: AccountId,
    /// Escrow balance of settlement currency.
    pub distributor_usdc: AccountId,
    /// Escrow balance of reward currency.
    pub distributor_ftr: AccountId,
    /// Escrow balance of contract units.
    pub distributor_contract: AccountId,
    /// Asset type of the reward currency; the seed of the vault authority.
    pub ftr_mint: AccountId,
}

/// The accounts that `initialize_distributor` reads and writes.
#[derive(Clone, Copy, Debug)]
pub struct InitializeDistributor {
    /// The storage slot of the new entry: `None` while it is empty.
    pub distributor_account: Option<DistributorAccount>,
    pub distributor_signer: AccountId,
    pub distributor_ftr: TokenAccount,
    pub distributor_usdc: TokenAccount,
    pub distributor_contract: TokenAccount,
    pub distribution_authority: SignerInfo,
    pub creator_contract: TokenAccount,
}

/// The accounts that `update_distributor` reads and writes.
#[derive(Clone, Copy, Debug)]
pub struct UpdateDistributor {
    pub distributor_account: DistributorAccount,
    pub distribution_authority: SignerInfo,
}

/// The accounts that `distribute` reads and writes.
#[derive(Clone, Copy, Debug)]
pub struct Distribute {
    pub distributor_account: DistributorAccount,
    pub distributor_signer: AccountId,
    pub distributor_usdc: TokenAccount,
    pub distributor_ftr: TokenAccount,
    pub distributor_contract: TokenAccount,
    pub user_authority: SignerInfo,
    pub user_usdc: TokenAccount,
    pub user_ftr: TokenAccount,
    pub user_contract: TokenAccount,
}

/// The accounts that `redeem` reads and writes.
#[derive(Clone, Copy, Debug)]
pub struct Redeem {
    pub distributor_account: DistributorAccount,
    pub distributor_signer: AccountId,
    pub distributor_usdc: TokenAccount,
    pub distributor_ftr: TokenAccount,
    pub distributor_contract: TokenAccount,
    pub user_authority: SignerInfo,
    pub user_usdc: TokenAccount,
    pub user_ftr: TokenAccount,
    pub user_contract: TokenAccount,
}

/// The accounts that `backdoor_withdraw` reads and writes.
#[derive(Clone, Copy, Debug)]
pub struct BackdoorWithdraw {
    pub distributor_account: DistributorAccount,
    pub distribution_authority: SignerInfo,
    pub distributor_signer: AccountId,
    pub distributor_usdc: TokenAccount,
    pub distributor_ftr: TokenAccount,
    pub distributor_contract: TokenAccount,
    pub creator_usdc: TokenAccount,
    pub creator_ftr: TokenAccount,
    pub creator_contract: TokenAccount,
}

/// `Ok` where nothing is refused, else the refusal as an error.
pub open spec fn as_result(f: Option<ErrorCode>) -> Result<(), ErrorCode> {
    match f {
        Some(e) => Err(e),
        None => Ok(()),
    }
}

/// Why the escrow accounts and the vault authority handed to an operation are refused, if they
/// are: they must be the entry's escrow accounts, the authority must be the one derived from
/// the entry's seed and nonce, and it must own all three.
pub open spec fn vault_failure(
    entry: DistributorAccount,
    signer: AccountId,
    usdc: TokenAccount,
    ftr: TokenAccount,
    contract: TokenAccount,
    program_id: AccountId,
) -> Option<ErrorCode> {
    if usdc.key != entry.distributor_usdc || ftr.key != entry.distributor_ftr || contract.key
        != entry.distributor_contract {
        Some(ErrorCode::Unauthorized)
    } else if derived_address(entry.ftr_mint@, entry.nonce, program_id@) != Some(signer@) {
        Some(ErrorCode::Unauthorized)
    } else if usdc.owner != signer || ftr.owner != signer || contract.owner != signer {
        Some(ErrorCode::Unauthorized)
    } else {
        None
    }
}

/// Why a party's three personal accounts are refused, if they are: the party must sign and
/// own all three.
pub open spec fn party_failure(
    party: SignerInfo,
    usdc: TokenAccount,
    ftr: TokenAccount,
    contract: TokenAccount,
) -> Option<ErrorCode> {
    if !party.is_signer {
        Some(ErrorCode::Unauthorized)
    } else if usdc.owner != party.key || ftr.owner != party.key || contract.owner != party.key {
        Some(ErrorCode::Unauthorized)
    } else {
        None
    }
}

fn check_vault(
    entry: &DistributorAccount,
    signer: &AccountId,
    usdc: &TokenAccount,
    ftr: &TokenAccount,
    contract: &TokenAccount,
    program_id: &AccountId,
) -> (r: Result<(), ErrorCode>)
    ensures
        r == as_result(vault_failure(*entry, *signer, *usdc, *ftr, *contract, *program_id)),
{
    if !usdc.key.same(&entry.distributor_usdc) || !ftr.key.same(&entry.distributor_ftr)
        || !contract.key.same(&entry.distributor_contract) {
        return Err(ErrorCode::Unauthorized);
    }
    if !verify_vault_authority(signer, &entry.ftr_mint, entry.nonce, program_id) {
        return Err(ErrorCode::Unauthorized);
    }
    if !usdc.owner.same(signer) || !ftr.owner.same(signer) || !contract.owner.same(signer) {
        return Err(ErrorCode::Unauthorized);
    }
    Ok(())
}

fn check_party(party: &SignerInfo, usdc: &TokenAccount, ftr: &TokenAccount, contract: &TokenAccount) -> (r: Result<(), ErrorCode>)
    ensures
        r == as_result(party_failure(*party, *usdc, *ftr, *contract)),
{
    if !party.is_signer {
        return Err(ErrorCode::Unauthorized);
    }
    if !usdc.owner.same(&party.key) || !ftr.owner.same(&party.key) || !contract.owner.same(&party.key) {
        return Err(ErrorCode::Unauthorized);
    }
    Ok(())
}

/// Why one leg of an administrative withdrawal is refused, if it is. An absent amount is no leg.
pub open spec fn withdraw_leg_failure(
    amount: Option<u64>,
    from: TokenAccount,
    to: TokenAccount,
    signer: AccountId,
    short: ErrorCode,
) -> Option<ErrorCode> {
    match amount {
        None => None,
        Some(n) => if n > from.amount {
            Some(short)
        } else {
            transfer_failure(from, to, n, signer)
        },
    }
}

/// The escrow account after one leg of an administrative withdrawal.
pub open spec fn withdrawn_from(amount: Option<u64>, from: TokenAccount) -> TokenAccount {
    match amount {
        None => from,
        Some(n) => debited(from, n),
    }
}

/// The administrator's account after one leg of an administrative withdrawal.
pub open spec fn withdrawn_to(amount: Option<u64>, to: TokenAccount) -> TokenAccount {
    match amount {
        None => to,
        Some(n) => credited(to, n),
    }
}

/// What `backdoor_withdraw` leaves behind, or the error it fails with.
pub open spec fn backdoor_withdraw_outcome(
    ctx: BackdoorWithdraw,
    program_id: AccountId,
    contracts: Option<u64>,
    usdc: Option<u64>,
    ftr: Option<u64>,
) -> Result<BackdoorWithdraw, ErrorCode> {
    let entry = ctx.distributor_account;
    let admin = ctx.distribution_authority;
    let signer = ctx.distributor_signer;
    let vault = vault_failure(
        entry,
        signer,
        ctx.distributor_usdc,
        ctx.distributor_ftr,
        ctx.distributor_contract,
        program_id,
    );
    let contract_leg = withdraw_leg_failure(
        contracts,
        ctx.distributor_contract,
        ctx.creator_contract,
        signer,
        ErrorCode::InsufficientContractUnits,
    );
    let usdc_leg = withdraw_leg_failure(
        usdc,
        ctx.distributor_usdc,
        ctx.creator_usdc,
        signer,
        ErrorCode::InsufficientSettlementBalance,
    );
    let ftr_leg = withdraw_leg_failure(
        ftr,
        ctx.distributor_ftr,
        ctx.creator_ftr,
        signer,
        ErrorCode::InsufficientRewardBalance,
    );
    if admin.key != entry.distribution_authority || !admin.is_signer {
        Err(ErrorCode::Unauthorized)
    } else if vault is Some {
        Err(vault->Some_0)
    } else if ctx.creator_usdc.owner != admin.key || ctx.creator_ftr.owner != admin.key
        || ctx.creator_contract.owner != admin.key {
        Err(ErrorCode::Unauthorized)
    } else if contract_leg is Some {
        Err(contract_leg->Some_0)
    } else if usdc_leg is Some {
        Err(usdc_leg->Some_0)
    } else if ftr_leg is Some {
        Err(ftr_leg->Some_0)
    } else {
        Ok(
            BackdoorWithdraw {
                distributor_contract: withdrawn_from(contracts, ctx.distributor_contract),
                creator_contract: withdrawn_to(contracts, ctx.creator_contract),
                distributor_usdc: withdrawn_from(usdc, ctx.distributor_usdc),
                creator_usdc: withdrawn_to(usdc, ctx.creator_usdc),
                distributor_ftr: withdrawn_from(ftr, ctx.distributor_ftr),
                creator_ftr: withdrawn_to(ftr, ctx.creator_ftr),
                ..ctx
            },
        )
    }
}

fn withdraw_leg(
    amount: Option<u64>,
    from: &mut TokenAccount,
    to: &mut TokenAccount,
    signer: &AccountId,
    short: ErrorCode,
) -> (r: Result<(), ErrorCode>)
    ensures
        match withdraw_leg_failure(amount, *old(from), *old(to), *signer, short) {
            Some(e) => r == Err::<(), ErrorCode>(e) && *final(from) == *old(from) && *final(to)
                == *old(to),
            None => r is Ok && *final(from) == withdrawn_from(amount, *old(from)) && *final(to)
                == withdrawn_to(amount, *old(to)),
        },
{
    match amount {
        None => Ok(()),
        Some(n) => {
            if n > from.amount {
                return Err(short);
            }
            transfer(from, to, n, signer)
        },
    }
}

/// The administrator moves any of the three escrow balances to their own accounts. Each
/// amount is optional and checked against its escrow balance; the vault authority signs each
/// transfer. Either every present leg happens or, on the first failure, nothing changes.
pub fn backdoor_withdraw(
    ctx: &mut BackdoorWithdraw,
    program_id: &AccountId,
    no_of_contracts_to_withdraw: Option<u64>,
    amount_of_usdc_to_withdraw: Option<u64>,
    amount_of_ftr_to_withdraw: Option<u64>,
) -> (r: Result<(), ErrorCode>)
    ensures
        match backdoor_withdraw_outcome(
            *old(ctx),
            *program_id,
            no_of_contracts_to_withdraw,
            amount_of_usdc_to_withdraw,
            amount_of_ftr_to_withdraw,
        ) {
            Ok(next) => r is Ok && *final(ctx) == next,
            Err(e) => r == Err::<(), ErrorCode>(e) && *final(ctx) == *old(ctx),
        },
{
    let entry = ctx.distributor_account;
    let admin = ctx.distribution_authority;
    let signer = ctx.distributor_signer;
    if !admin.key.same(&entry.distribution_authority) || !admin.is_signer {
        return Err(ErrorCode::Unauthorized);
    }
    if let Err(e) = check_vault(
        &entry,
        &signer,
        &ctx.distributor_usdc,
        &ctx.distributor_ftr,
        &ctx.distributor_contract,
        program_id,
    ) {
        return Err(e);
    }
    if !ctx.creator_usdc.owner.same(&admin.key) || !ctx.creator_ftr.owner.same(&admin.key)
        || !ctx.creator_contract.owner.same(&admin.key) {
        return Err(ErrorCode::Unauthorized);
    }
    let mut vault_contract = ctx.distributor_contract;
    let mut admin_contract = ctx.creator_contract;
    if let Err(e) = withdraw_leg(
        no_of_contracts_to_withdraw,
        &mut vault_contract,
        &mut admin_contract,
        &signer,
        ErrorCode::InsufficientContractUnits,
    ) {
        return Err(e);
    }
    let mut vault_usdc = ctx.distributor_usdc;
    let mut admin_usdc = ctx.creator_usdc;
    if let Err(e) = withdraw_leg(
        amount_of_usdc_to_withdraw,
        &mut vault_usdc,
        &mut admin_usdc,
        &signer,
        ErrorCode::InsufficientSettlementBalance,
    ) {
        return Err(e);
    }
    let mut vault_ftr = ctx.distributor_ftr;
    let mut admin_ftr = ctx.creator_ftr;
    if let Err(e) = withdraw_leg(
        amount_of_ftr_to_withdraw,
        &mut vault_ftr,
        &mut admin_ftr,
        &signer,
        ErrorCode::InsufficientRewardBalance,
    ) {
        return Err(e);
    }
    ctx.distributor_contract = vault_contract;
    ctx.creator_contract = admin_contract;
    ctx.distributor_usdc = vault_usdc;
    ctx.creator_usdc = admin_usdc;
    ctx.distributor_ftr = vault_ftr;
    ctx.creator_ftr = admin_ftr;
    Ok(())
}

/// What `distribute` leaves behind, or the error it fails with.
pub open spec fn distribute_outcome(ctx: Distribute, program_id: AccountId, units: u64) -> Result<
    Distribute,
    ErrorCode,
> {
    let entry = ctx.distributor_account;
    let signer = ctx.distributor_signer;
    let user = ctx.user_authority.key;
    let vault = vault_failure(
        entry,
        signer,
        ctx.distributor_usdc,
        ctx.distributor_ftr,
        ctx.distributor_contract,
        program_id,
    );
    let party = party_failure(ctx.user_authority, ctx.user_usdc, ctx.user_ftr, ctx.user_contract);
    let cost = entry.price_of_contract * units;
    let reward = entry.ftr_per_contract * units;
    let pay = transfer_failure(ctx.user_usdc, ctx.distributor_usdc, cost as u64, user);
    let pay_reward = transfer_failure(ctx.user_ftr, ctx.distributor_ftr, reward as u64, user);
    let deliver = transfer_failure(ctx.distributor_contract, ctx.user_contract, units, signer);
    if ctx.distributor_contract.amount < units {
        Err(ErrorCode::InsufficientContractUnits)
    } else if vault is Some {
        Err(vault->Some_0)
    } else if party is Some {
        Err(party->Some_0)
    } else if cost > u64::MAX || reward > u64::MAX {
        Err(ErrorCode::ArithmeticOverflow)
    } else if pay is Some {
        Err(pay->Some_0)
    } else if pay_reward is Some {
        Err(pay_reward->Some_0)
    } else if deliver is Some {
        Err(deliver->Some_0)
    } else {
        Ok(
            Distribute {
                user_usdc: debited(ctx.user_usdc, cost as u64),
                distributor_usdc: credited(ctx.distributor_usdc, cost as u64),
                user_ftr: debited(ctx.user_ftr, reward as u64),
                distributor_ftr: credited(ctx.distributor_ftr, reward as u64),
                distributor_contract: debited(ctx.distributor_contract, units),
                user_contract: credited(ctx.user_contract, units),
                ..ctx
            },
        )
    }
}

/// A user buys `no_of_contracts_required` contract units: they pay the price in settlement
/// currency and the reward amount in reward currency into escrow, and the vault sends them the
/// units. Either all three transfers happen or, on the first failure, nothing changes.
pub fn distribute(ctx: &mut Distribute, program_id: &AccountId, no_of_contracts_required: u64) -> (r: Result<(), ErrorCode>)
    ensures
        match distribute_outcome(*old(ctx), *program_id, no_of_contracts_required) {
            Ok(next) => r is Ok && *final(ctx) == next,
            Err(e) => r == Err::<(), ErrorCode>(e) && *final(ctx) == *old(ctx),
        },
{
    let entry = ctx.distributor_account;
    let signer = ctx.distributor_signer;
    let user = ctx.user_authority.key;
    // Checked first for a clear diagnosis, although the transfer would refuse it too.
    if ctx.distributor_contract.amount < no_of_contracts_required {
        return Err(ErrorCode::InsufficientContractUnits);
    }
    if let Err(e) = check_vault(
        &entry,
        &signer,
        &ctx.distributor_usdc,
        &ctx.distributor_ftr,
        &ctx.distributor_contract,
        program_id,
    ) {
        return Err(e);
    }
    if let Err(e) = check_party(&ctx.user_authority, &ctx.user_usdc, &ctx.user_ftr, &ctx.user_contract) {
        return Err(e);
    }
    let amount_in_usdc = match entry.price_of_contract.checked_mul(no_of_contracts_required) {
        Some(v) => v,
        None => return Err(ErrorCode::ArithmeticOverflow),
    };
    let amount_in_ftr = match entry.ftr_per_contract.checked_mul(no_of_contracts_required) {
        Some(v) => v,
        None => return Err(ErrorCode::ArithmeticOverflow),
    };
    let mut user_usdc = ctx.user_usdc;
    let mut vault_usdc = ctx.distributor_usdc;
    if let Err(e) = transfer(&mut user_usdc, &mut vault_usdc, amount_in_usdc, &user) {
        return Err(e);
    }
    let mut user_ftr = ctx.user_ftr;
    let mut vault_ftr = ctx.distributor_ftr;
    if let Err(e) = transfer(&mut user_ftr, &mut vault_ftr, amount_in_ftr, &user) {
        return Err(e);
    }
    let mut vault_contract = ctx.distributor_contract;
    let mut user_contract = ctx.user_contract;
    if let Err(e) = transfer(&mut vault_contract, &mut user_contract, no_of_contracts_required, &signer) {
        return Err(e);
    }
    ctx.user_usdc = user_usdc;
    ctx.distributor_usdc = vault_usdc;
    ctx.user_ftr = user_ftr;
    ctx.distributor_ftr = vault_ftr;
    ctx.distributor_contract = vault_contract;
    ctx.user_contract = user_contract;
    Ok(())
}

/// What `redeem` leaves behind, or the error it fails with.
pub open spec fn redeem_outcome(ctx: Redeem, program_id: AccountId, units: u64) -> Result<Redeem, ErrorCode> {
    let entry = ctx.distributor_account;
    let signer = ctx.distributor_signer;
    let user = ctx.user_authority.key;
    let vault = vault_failure(
        entry,
        signer,
        ctx.distributor_usdc,
        ctx.distributor_ftr,
        ctx.distributor_contract,
        program_id,
    );
    let party = party_failure(ctx.user_authority, ctx.user_usdc, ctx.user_ftr, ctx.user_contract);
    let cost = entry.price_of_contract * units;
    let reward = entry.ftr_per_contract * units;
    let give = transfer_failure(ctx.user_contract, ctx.distributor_contract, units, user);
    let refund = transfer_failure(ctx.distributor_usdc, ctx.user_usdc, cost as u64, signer);
    let refund_reward = transfer_failure(ctx.distributor_ftr, ctx.user_ftr, reward as u64, signer);
    if vault is Some {
        Err(vault->Some_0)
    } else if party is Some {
        Err(party->Some_0)
    } else if cost > u64::MAX || reward > u64::MAX {
        Err(ErrorCode::ArithmeticOverflow)
    } else if ctx.distributor_usdc.amount < cost {
        Err(ErrorCode::InsufficientSettlementBalance)
    } else if ctx.distributor_ftr.amount < reward {
        Err(ErrorCode::InsufficientRewardBalance)
    } else if give is Some {
        Err(give->Some_0)
    } else if refund is Some {
        Err(refund->Some_0)
    } else if refund_reward is Some {
        Err(refund_reward->Some_0)
    } else {
        Ok(
            Redeem {
                user_contract: debited(ctx.user_contract, units),
                distributor_contract: credited(ctx.distributor_contract, units),
                distributor_usdc: debited(ctx.distributor_usdc, cost as u64),
                user_usdc: credited(ctx.user_usdc, cost as u64),
                distributor_ftr: debited(ctx.distributor_ftr, reward as u64),
                user_ftr: credited(ctx.user_ftr, reward as u64),
                ..ctx
            },
        )
    }
}

/// A user sells `no_of_contracts_redeemed` contract units back: the units go into escrow and
/// the vault pays out their price in settlement currency and their reward amount in reward
/// currency. Either all three transfers happen or, on the first failure, nothing changes.
pub fn redeem(ctx: &mut Redeem, program_id: &AccountId, no_of_contracts_redeemed: u64) -> (r: Result<(), ErrorCode>)
    ensures
        match redeem_outcome(*old(ctx), *program_id, no_of_contracts_redeemed) {
            Ok(next) => r is Ok && *final(ctx) == next,
            Err(e) => r == Err::<(), ErrorCode>(e) && *final(ctx) == *old(ctx),
        },
{
    let entry = ctx.distributor_account;
    let signer = ctx.distributor_signer;
    let user = ctx.user_authority.key;
    if let Err(e) = check_vault(
        &entry,
        &signer,
        &ctx.distributor_usdc,
        &ctx.distributor_ftr,
        &ctx.distributor_contract,
        program_id,
    ) {
        return Err(e);
    }
    if let Err(e) = check_party(&ctx.user_authority, &ctx.user_usdc, &ctx.user_ftr, &ctx.user_contract) {
        return Err(e);
    }
    let amount_in_usdc = match entry.price_of_contract.checked_mul(no_of_contracts_redeemed) {
        Some(v) => v,
        None => return Err(ErrorCode::ArithmeticOverflow),
    };
    let amount_in_ftr = match entry.ftr_per_contract.checked_mul(no_of_contracts_redeemed) {
        Some(v) => v,
        None => return Err(ErrorCode::ArithmeticOverflow),
    };
    if ctx.distributor_usdc.amount < amount_in_usdc {
        return Err(ErrorCode::InsufficientSettlementBalance);
    }
    if ctx.distributor_ftr.amount < amount_in_ftr {
        return Err(ErrorCode::InsufficientRewardBalance);
    }
    let mut user_contract = ctx.user_contract;
    let mut vault_contract = ctx.distributor_contract;
    if let Err(e) = transfer(&mut user_contract, &mut vault_contract, no_of_contracts_redeemed, &user) {
        return Err(e);
    }
    let mut vault_usdc = ctx.distributor_usdc;
    let mut user_usdc = ctx.user_usdc;
    if let Err(e) = transfer(&mut vault_usdc, &mut user_usdc, amount_in_usdc, &signer) {
        return Err(e);
    }
    let mut vault_ftr = ctx.distributor_ftr;
    let mut user_ftr = ctx.user_ftr;
    if let Err(e) = transfer(&mut vault_ftr, &mut user_ftr, amount_in_ftr, &signer) {
        return Err(e);
    }
    ctx.user_contract = user_contract;
    ctx.distributor_contract = vault_contract;
    ctx.distributor_usdc = vault_usdc;
    ctx.user_usdc = user_usdc;
    ctx.distributor_ftr = vault_ftr;
    ctx.user_ftr = user_ftr;
    Ok(())
}

/// The entry that a successful initialization writes.
pub open spec fn new_entry(ctx: InitializeDistributor, price: u64, ftr: u64, nonce: u8) -> DistributorAccount {
    DistributorAccount {
        price_of_contract: price,
        ftr_per_contract: ftr,
        nonce,
        distribution_authority: ctx.distribution_authority.key,
        distributor_usdc: ctx.distributor_usdc.key,
        distributor_ftr: ctx.distributor_ftr.key,
        distributor_contract: ctx.distributor_contract.key,
        ftr_mint: ctx.distributor_ftr.mint,
    }
}

/// What `initialize_distributor` leaves behind, or the error it fails with.
pub open spec fn initialize_outcome(
    ctx: InitializeDistributor,
    program_id: AccountId,
    price: u64,
    ftr: u64,
    units: u64,
    nonce: u8,
) -> Result<InitializeDistributor, ErrorCode> {
    let signer = ctx.distributor_signer;
    let admin = ctx.distribution_authority;
    let seed = transfer_failure(ctx.creator_contract, ctx.distributor_contract, units, admin.key);
    if ctx.distributor_account is Some {
        Err(ErrorCode::AlreadyInitialized)
    } else if ctx.distributor_ftr.owner != signer || ctx.distributor_usdc.owner != signer
        || ctx.distributor_contract.owner != signer {
        Err(ErrorCode::Unauthorized)
    } else if !admin.is_signer || ctx.creator_contract.owner != admin.key {
        Err(ErrorCode::Unauthorized)
    } else if derived_address(ctx.distributor_ftr.mint@, nonce, program_id@) != Some(signer@) {
        Err(ErrorCode::InvalidNonce)
    } else if seed is Some {
        Err(seed->Some_0)
    } else {
        Ok(
            InitializeDistributor {
                distributor_account: Some(new_entry(ctx, price, ftr, nonce)),
                creator_contract: debited(ctx.creator_contract, units),
                distributor_contract: credited(ctx.distributor_contract, units),
                ..ctx
            },
        )
    }
}

impl InitializeDistributor {
    /// Checks that `nonce`, with the reward asset as seed, derives the claimed vault authority.
    pub fn accounts(ctx: &InitializeDistributor, program_id: &AccountId, nonce: u8) -> (r: Result<(), ErrorCode>)
        ensures
            r == (if derived_address(ctx.distributor_ftr.mint@, nonce, program_id@) == Some(
                ctx.distributor_signer@,
            ) {
                Ok::<(), ErrorCode>(())
            } else {
                Err(ErrorCode::InvalidNonce)
            }),
    {
        if !verify_vault_authority(&ctx.distributor_signer, &ctx.distributor_ftr.mint, nonce, program_id) {
            return Err(ErrorCode::InvalidNonce);
        }
        Ok(())
    }
}

/// Creates a distributor in an empty slot: records its configuration and escrow accounts, and
/// moves `no_of_contracts` contract units from the administrator into the contract escrow.
pub fn initialize_distributor(
    ctx: &mut InitializeDistributor,
    program_id: &AccountId,
    price_of_contract: u64,
    ftr_per_contract: u64,
    no_of_contracts: u64,
    nonce: u8,
) -> (r: Result<(), ErrorCode>)
    ensures
        match initialize_outcome(
            *old(ctx),
            *program_id,
            price_of_contract,
            ftr_per_contract,
            no_of_contracts,
            nonce,
        ) {
            Ok(next) => r is Ok && *final(ctx) == next,
            Err(e) => r == Err::<(), ErrorCode>(e) && *final(ctx) == *old(ctx),
        },
{
    if ctx.distributor_account.is_some() {
        return Err(ErrorCode::AlreadyInitialized);
    }
    let signer = ctx.distributor_signer;
    let admin = ctx.distribution_authority;
    if !ctx.distributor_ftr.owner.same(&signer) || !ctx.distributor_usdc.owner.same(&signer)
        || !ctx.distributor_contract.owner.same(&signer) {
        return Err(ErrorCode::Unauthorized);
    }
    if !admin.is_signer || !ctx.creator_contract.owner.same(&admin.key) {
        return Err(ErrorCode::Unauthorized);
    }
    if let Err(e) = InitializeDistributor::accounts(ctx, program_id, nonce) {
        return Err(e);
    }
    let mut creator_contract = ctx.creator_contract;
    let mut vault_contract = ctx.distributor_contract;
    if let Err(e) = transfer(&mut creator_contract, &mut vault_contract, no_of_contracts, &admin.key) {
        return Err(e);
    }
    ctx.distributor_account = Some(
        DistributorAccount {
            price_of_contract,
            ftr_per_contract,
            nonce,
            distribution_authority: admin.key,
            distributor_usdc: ctx.distributor_usdc.key,
            distributor_ftr: ctx.distributor_ftr.key,
            distributor_contract: ctx.distributor_contract.key,
            ftr_mint: ctx.distributor_ftr.mint,
        },
    );
    ctx.creator_contract = creator_contract;
    ctx.distributor_contract = vault_contract;
    Ok(())
}

/// The entry after an update: each supplied field replaced, the rest kept.
pub open spec fn updated_entry(entry: DistributorAccount, price: Option<u64>, ftr: Option<u64>) -> DistributorAccount {
    DistributorAccount {
        price_of_contract: match price {
            Some(p) => p,
            None => entry.price_of_contract,
        },
        ftr_per_contract: match ftr {
            Some(f) => f,
            None => entry.ftr_per_contract,
        },
        ..entry
    }
}

/// The administrator replaces the price and the reward amount per unit, each only when given.
/// Fails with `Unauthorized`, changing nothing, unless the entry's administrator signed.
pub fn update_distributor(
    ctx: &mut UpdateDistributor,
    price_of_contract: Option<u64>,
    ftr_per_contract: Option<u64>,
) -> (r: Result<(), ErrorCode>)
    ensures
        if old(ctx).distribution_authority.key == old(ctx).distributor_account.distribution_authority
            && old(ctx).distribution_authority.is_signer {
            r is Ok && final(ctx).distribution_authority == old(ctx).distribution_authority
                && final(ctx).distributor_account == updated_entry(
                old(ctx).distributor_account,
                price_of_contract,
                ftr_per_contract,
            )
        } else {
            r == Err::<(), ErrorCode>(ErrorCode::Unauthorized) && *final(ctx) == *old(ctx)
        },
{
    if !ctx.distribution_authority.key.same(&ctx.distributor_account.distribution_authority)
        || !ctx.distribution_authority.is_signer {
        return Err(ErrorCode::Unauthorized);
    }
    if let Some(price) = price_of_contract {
        ctx.distributor_account.price_of_contract = price;
    }
    if let Some(ftr) = ftr_per_contract {
        ctx.distributor_account.ftr_per_contract = ftr;
    }
    Ok(())
}

} // verus!
