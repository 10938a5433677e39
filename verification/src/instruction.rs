//! One construction for each operation: from the market, the constant
//! accounts and the operation's own accounts and arguments to the request
//! that the engine expects, with every account at its position.
//!
//! Each construction has a spec function of the same arguments that says
//! what the request is, and returns exactly that. A construction that names
//! an instance fails with `InvalidInstanceIndex` where the market has no
//! instance at that index, and reads nothing beyond the list.

use crate::account::{
    optional_accounts, page_accounts, push_optional, push_pages, readonly, segments_from,
    writable, AccountMeta, Instruction, InstructionView,
};
use crate::context::{DiscountAccount, MarketContext, PositionInfo};
use crate::error::RequestError;
use crate::pubkey::{ConstantAccounts, Pubkey};
use crate::schema::{encode, OperationKind, PerpInstruction};
use crate::wire::text_fits;
use vstd::prelude::*;

verus! {

/// What a construction returned, with the request as its view.
pub open spec fn request_view(built: Result<Instruction, RequestError>) -> Result<
    InstructionView,
    RequestError,
> {
    match built {
        Ok(request) => Ok(request@),
        Err(e) => Err(e),
    }
}

/// The request that closes a position: the eleven fixed accounts, the pages
/// of the position's instance, then the optional segments; or
/// `InvalidInstanceIndex` where the market has no such instance.
pub open spec fn close_position_request(
    ctx: &MarketContext,
    known: &ConstantAccounts,
    position_info: &PositionInfo,
    closing_collateral: u64,
    closing_v_coin: u64,
    position_index: u16,
    predicted_entry_price: u64,
    maximum_slippage_margin: u64,
    discount_account: Option<&DiscountAccount>,
    referrer_account_opt: Option<Pubkey>,
) -> Result<InstructionView, RequestError> {
    if !ctx.has_instance(position_info.instance_index) {
        Err(RequestError::InvalidInstanceIndex)
    } else {
        let instance = ctx.instance_at(position_info.instance_index);
        Ok(
            InstructionView {
                program_id: ctx.audaces_protocol_program_id,
                accounts: seq![
                    readonly(known.token_program, false),
                    readonly(known.clock, false),
                    writable(ctx.market_account, false),
                    writable(instance.instance_account, false),
                    readonly(ctx.market_signer_account, false),
                    writable(ctx.market_vault, false),
                    writable(ctx.bonfida_bnb, false),
                    readonly(ctx.oracle_account, false),
                    readonly(position_info.user_account_owner, true),
                    writable(position_info.user_account, false),
                    readonly(known.trade_label, false),
                ] + page_accounts(instance.memory_pages@) + optional_accounts(
                    discount_account,
                    referrer_account_opt,
                ),
                data: encode(
                    OperationKind::ClosePosition {
                        position_index,
                        closing_collateral,
                        closing_v_coin,
                        predicted_entry_price,
                        maximum_slippage_margin,
                    },
                ),
            },
        )
    }
}

/// Builds the request that closes a position, wholly or in part.
pub fn close_position(
    ctx: &MarketContext,
    known: &ConstantAccounts,
    position_info: &PositionInfo,
    closing_collateral: u64,
    closing_v_coin: u64,
    position_index: u16,
    predicted_entry_price: u64,
    maximum_slippage_margin: u64,
    discount_account: Option<&DiscountAccount>,
    referrer_account_opt: Option<Pubkey>,
) -> (built: Result<Instruction, RequestError>)
    ensures
        request_view(built) == close_position_request(
            ctx,
            known,
            position_info,
            closing_collateral,
            closing_v_coin,
            position_index,
            predicted_entry_price,
            maximum_slippage_margin,
            discount_account,
            referrer_account_opt,
        ),
        built is Ok <==> ctx.has_instance(position_info.instance_index),
        built matches Err(e) ==> e == RequestError::InvalidInstanceIndex,
        built matches Ok(request) ==> segments_from(
            request@.accounts,
            11,
            ctx.instance_at(position_info.instance_index).memory_pages@,
            optional_accounts(discount_account, referrer_account_opt),
        ),
{
    let instance = match ctx.instance(position_info.instance_index) {
        Ok(instance) => instance,
        Err(e) => {
            return Err(e);
        },
    };
    let instruction_data = PerpInstruction::ClosePosition {
        position_index,
        closing_collateral,
        closing_v_coin,
        predicted_entry_price,
        maximum_slippage_margin,
    };
    let data = instruction_data.to_vec();
    let mut accounts: Vec<AccountMeta> = Vec::new();
    accounts.push(AccountMeta::new_readonly(known.token_program, false));
    accounts.push(AccountMeta::new_readonly(known.clock, false));
    accounts.push(AccountMeta::new(ctx.market_account, false));
    accounts.push(AccountMeta::new(instance.instance_account, false));
    accounts.push(AccountMeta::new_readonly(ctx.market_signer_account, false));
    accounts.push(AccountMeta::new(ctx.market_vault, false));
    accounts.push(AccountMeta::new(ctx.bonfida_bnb, false));
    accounts.push(AccountMeta::new_readonly(ctx.oracle_account, false));
    accounts.push(AccountMeta::new_readonly(position_info.user_account_owner, true));
    accounts.push(AccountMeta::new(position_info.user_account, false));
    accounts.push(AccountMeta::new_readonly(known.trade_label, false));
    push_pages(&mut accounts, instance.memory_pages.as_slice());
    push_optional(&mut accounts, discount_account, referrer_account_opt);
    assert(accounts@ =~= close_position_request(
        ctx,
        known,
        position_info,
        closing_collateral,
        closing_v_coin,
        position_index,
        predicted_entry_price,
        maximum_slippage_margin,
        discount_account,
        referrer_account_opt,
    )->Ok_0.accounts);
    Ok(Instruction { program_id: ctx.audaces_protocol_program_id, accounts, data })
}

/// The request that opens a position: the eleven fixed accounts, the pages of
/// the position's instance, then the optional segments; or
/// `InvalidInstanceIndex` where the market has no such instance.
pub open spec fn open_position_request(
    ctx: &MarketContext,
    known: &ConstantAccounts,
    position: &PositionInfo,
    collateral: u64,
    leverage: u64,
    predicted_entry_price: u64,
    maximum_slippage_margin: u64,
    discount_account_opt: Option<&DiscountAccount>,
    referrer_account_opt: Option<Pubkey>,
) -> Result<InstructionView, RequestError> {
    if !ctx.has_instance(position.instance_index) {
        Err(RequestError::InvalidInstanceIndex)
    } else {
        let instance = ctx.instance_at(position.instance_index);
        Ok(
            InstructionView {
                program_id: ctx.audaces_protocol_program_id,
                accounts: seq![
                    readonly(known.token_program, false),
                    readonly(known.clock, false),
                    writable(ctx.market_account, false),
                    writable(instance.instance_account, false),
                    readonly(ctx.market_signer_account, false),
                    writable(ctx.market_vault, false),
                    writable(ctx.bonfida_bnb, false),
                    readonly(position.user_account_owner, true),
                    writable(position.user_account, false),
                    readonly(known.trade_label, false),
                    readonly(ctx.oracle_account, false),
                ] + page_accounts(instance.memory_pages@) + optional_accounts(
                    discount_account_opt,
                    referrer_account_opt,
                ),
                data: encode(
                    OperationKind::OpenPosition {
                        side: position.side,
                        collateral,
                        instance_index: position.instance_index,
                        leverage,
                        predicted_entry_price,
                        maximum_slippage_margin,
                    },
                ),
            },
        )
    }
}

/// Builds the request that opens a position on the side and in the instance
/// that `position` names.
pub fn open_position(
    ctx: &MarketContext,
    known: &ConstantAccounts,
    position: &PositionInfo,
    collateral: u64,
    leverage: u64,
    predicted_entry_price: u64,
    maximum_slippage_margin: u64,
    discount_account_opt: Option<&DiscountAccount>,
    referrer_account_opt: Option<Pubkey>,
) -> (built: Result<Instruction, RequestError>)
    ensures
        request_view(built) == open_position_request(
            ctx,
            known,
            position,
            collateral,
            leverage,
            predicted_entry_price,
            maximum_slippage_margin,
            discount_account_opt,
            referrer_account_opt,
        ),
        built is Ok <==> ctx.has_instance(position.instance_index),
        built matches Err(e) ==> e == RequestError::InvalidInstanceIndex,
        built matches Ok(request) ==> segments_from(
            request@.accounts,
            11,
            ctx.instance_at(position.instance_index).memory_pages@,
            optional_accounts(discount_account_opt, referrer_account_opt),
        ),
{
    let instance = match ctx.instance(position.instance_index) {
        Ok(instance) => instance,
        Err(e) => {
            return Err(e);
        },
    };
    let instruction_data = PerpInstruction::OpenPosition {
        side: position.side,
        collateral,
        instance_index: position.instance_index,
        leverage,
        predicted_entry_price,
        maximum_slippage_margin,
    };
    let data = instruction_data.to_vec();
    let mut accounts: Vec<AccountMeta> = Vec::new();
    accounts.push(AccountMeta::new_readonly(known.token_program, false));
    accounts.push(AccountMeta::new_readonly(known.clock, false));
    accounts.push(AccountMeta::new(ctx.market_account, false));
    accounts.push(AccountMeta::new(instance.instance_account, false));
    accounts.push(AccountMeta::new_readonly(ctx.market_signer_account, false));
    accounts.push(AccountMeta::new(ctx.market_vault, false));
    accounts.push(AccountMeta::new(ctx.bonfida_bnb, false));
    accounts.push(AccountMeta::new_readonly(position.user_account_owner, true));
    accounts.push(AccountMeta::new(position.user_account, false));
    accounts.push(AccountMeta::new_readonly(known.trade_label, false));
    accounts.push(AccountMeta::new_readonly(ctx.oracle_account, false));
    push_pages(&mut accounts, instance.memory_pages.as_slice());
    push_optional(&mut accounts, discount_account_opt, referrer_account_opt);
    assert(accounts@ =~= open_position_request(
        ctx,
        known,
        position,
        collateral,
        leverage,
        predicted_entry_price,
        maximum_slippage_margin,
        discount_account_opt,
        referrer_account_opt,
    )->Ok_0.accounts);
    Ok(Instruction { program_id: ctx.audaces_protocol_program_id, accounts, data })
}

/// The request that adds collateral to a position: the eleven fixed accounts,
/// the pages of the instance, then the optional segments; or
/// `InvalidInstanceIndex` where the market has no such instance.
pub open spec fn increase_position_request(
    ctx: &MarketContext,
    known: &ConstantAccounts,
    add_collateral: u64,
    leverage: u64,
    instance_index: u8,
    position_index: u16,
    position_owner: Pubkey,
    open_positions_account: Pubkey,
    predicted_entry_price: u64,
    maximum_slippage_margin: u64,
    discount_account_opt: Option<&DiscountAccount>,
    referrer_account_opt: Option<Pubkey>,
) -> Result<InstructionView, RequestError> {
    if !ctx.has_instance(instance_index) {
        Err(RequestError::InvalidInstanceIndex)
    } else {
        let instance = ctx.instance_at(instance_index);
        Ok(
            InstructionView {
                program_id: ctx.audaces_protocol_program_id,
                accounts: seq![
                    readonly(known.token_program, false),
                    readonly(known.clock, false),
                    writable(ctx.market_account, false),
                    readonly(ctx.market_signer_account, false),
                    writable(ctx.market_vault, false),
                    writable(ctx.bonfida_bnb, false),
                    writable(instance.instance_account, false),
                    readonly(position_owner, true),
                    writable(open_positions_account, false),
                    readonly(known.trade_label, false),
                    readonly(ctx.oracle_account, false),
                ] + page_accounts(instance.memory_pages@) + optional_accounts(
                    discount_account_opt,
                    referrer_account_opt,
                ),
                data: encode(
                    OperationKind::IncreasePosition {
                        add_collateral,
                        instance_index,
                        leverage,
                        position_index,
                        predicted_entry_price,
                        maximum_slippage_margin,
                    },
                ),
            },
        )
    }
}

/// Builds the request that adds collateral to a position.
pub fn increase_position(
    ctx: &MarketContext,
    known: &ConstantAccounts,
    add_collateral: u64,
    leverage: u64,
    instance_index: u8,
    position_index: u16,
    position_owner: Pubkey,
    open_positions_account: Pubkey,
    predicted_entry_price: u64,
    maximum_slippage_margin: u64,
    discount_account_opt: Option<&DiscountAccount>,
    referrer_account_opt: Option<Pubkey>,
) -> (built: Result<Instruction, RequestError>)
    ensures
        request_view(built) == increase_position_request(
            ctx,
            known,
            add_collateral,
            leverage,
            instance_index,
            position_index,
            position_owner,
            open_positions_account,
            predicted_entry_price,
            maximum_slippage_margin,
            discount_account_opt,
            referrer_account_opt,
        ),
        built is Ok <==> ctx.has_instance(instance_index),
        built matches Err(e) ==> e == RequestError::InvalidInstanceIndex,
        built matches Ok(request) ==> segments_from(
            request@.accounts,
            11,
            ctx.instance_at(instance_index).memory_pages@,
            optional_accounts(discount_account_opt, referrer_account_opt),
        ),
{
    let instance = match ctx.instance(instance_index) {
        Ok(instance) => instance,
        Err(e) => {
            return Err(e);
        },
    };
    let instruction_data = PerpInstruction::IncreasePosition {
        add_collateral,
        instance_index,
        leverage,
        position_index,
        predicted_entry_price,
        maximum_slippage_margin,
    };
    let data = instruction_data.to_vec();
    let mut accounts: Vec<AccountMeta> = Vec::new();
    accounts.push(AccountMeta::new_readonly(known.token_program, false));
    accounts.push(AccountMeta::new_readonly(known.clock, false));
    accounts.push(AccountMeta::new(ctx.market_account, false));
    accounts.push(AccountMeta::new_readonly(ctx.market_signer_account, false));
    accounts.push(AccountMeta::new(ctx.market_vault, false));
    accounts.push(AccountMeta::new(ctx.bonfida_bnb, false));
    accounts.push(AccountMeta::new(instance.instance_account, false));
    accounts.push(AccountMeta::new_readonly(position_owner, true));
    accounts.push(AccountMeta::new(open_positions_account, false));
    accounts.push(AccountMeta::new_readonly(known.trade_label, false));
    accounts.push(AccountMeta::new_readonly(ctx.oracle_account, false));
    push_pages(&mut accounts, instance.memory_pages.as_slice());
    push_optional(&mut accounts, discount_account_opt, referrer_account_opt);
    assert(accounts@ =~= increase_position_request(
        ctx,
        known,
        add_collateral,
        leverage,
        instance_index,
        position_index,
        position_owner,
        open_positions_account,
        predicted_entry_price,
        maximum_slippage_margin,
        discount_account_opt,
        referrer_account_opt,
    )->Ok_0.accounts);
    Ok(Instruction { program_id: ctx.audaces_protocol_program_id, accounts, data })
}

/// The request that rebalances an instance: the ten fixed accounts, of which
/// the fourth is the account of the market's first instance, then the pages
/// of the instance at the index; or `InvalidInstanceIndex` where the market
/// has no instance at the index.
pub open spec fn rebalance_request(
    ctx: &MarketContext,
    known: &ConstantAccounts,
    user_account: Pubkey,
    user_account_owner: Pubkey,
    instance_index: u8,
    collateral: u64,
) -> Result<InstructionView, RequestError> {
    if !ctx.has_instance(instance_index) {
        Err(RequestError::InvalidInstanceIndex)
    } else {
        let instance = ctx.instance_at(instance_index);
        Ok(
            InstructionView {
                program_id: ctx.audaces_protocol_program_id,
                accounts: seq![
                    readonly(known.token_program, false),
                    readonly(known.clock, false),
                    writable(ctx.market_account, false),
                    writable(ctx.instances@[0].instance_account, false),
                    readonly(ctx.market_signer_account, false),
                    writable(ctx.market_vault, false),
                    writable(ctx.bonfida_bnb, false),
                    readonly(user_account_owner, true),
                    writable(user_account, false),
                    readonly(ctx.admin_account, true),
                ] + page_accounts(instance.memory_pages@),
                data: encode(
                    OperationKind::Rebalance {
                        collateral,
                        instance_index,
                    },
                ),
            },
        )
    }
}

/// Builds the request that rebalances an instance. The instance account it
/// names is that of the market's first instance; the pages are those of the
/// instance at `instance_index`.
pub fn rebalance(
    ctx: &MarketContext,
    known: &ConstantAccounts,
    user_account: Pubkey,
    user_account_owner: Pubkey,
    instance_index: u8,
    collateral: u64,
) -> (built: Result<Instruction, RequestError>)
    ensures
        request_view(built) == rebalance_request(
            ctx,
            known,
            user_account,
            user_account_owner,
            instance_index,
            collateral,
        ),
        built is Ok <==> ctx.has_instance(instance_index),
        built matches Err(e) ==> e == RequestError::InvalidInstanceIndex,
        built matches Ok(request) ==> segments_from(
            request@.accounts,
            10,
            ctx.instance_at(instance_index).memory_pages@,
            Seq::empty(),
        ),
{
    let instance = match ctx.instance(instance_index) {
        Ok(instance) => instance,
        Err(e) => {
            return Err(e);
        },
    };
    let instruction_data = PerpInstruction::Rebalance {
        collateral,
        instance_index,
    };
    let data = instruction_data.to_vec();
    let mut accounts: Vec<AccountMeta> = Vec::new();
    accounts.push(AccountMeta::new_readonly(known.token_program, false));
    accounts.push(AccountMeta::new_readonly(known.clock, false));
    accounts.push(AccountMeta::new(ctx.market_account, false));
    accounts.push(AccountMeta::new(ctx.instances[0].instance_account, false));
    accounts.push(AccountMeta::new_readonly(ctx.market_signer_account, false));
    accounts.push(AccountMeta::new(ctx.market_vault, false));
    accounts.push(AccountMeta::new(ctx.bonfida_bnb, false));
    accounts.push(AccountMeta::new_readonly(user_account_owner, true));
    accounts.push(AccountMeta::new(user_account, false));
    accounts.push(AccountMeta::new_readonly(ctx.admin_account, true));
    push_pages(&mut accounts, instance.memory_pages.as_slice());
    assert(accounts@ =~= rebalance_request(
        ctx,
        known,
        user_account,
        user_account_owner,
        instance_index,
        collateral,
    )->Ok_0.accounts);
    Ok(Instruction { program_id: ctx.audaces_protocol_program_id, accounts, data })
}

/// The request that cranks liquidation in an instance: the nine fixed
/// accounts, then the pages of the instance; or `InvalidInstanceIndex` where
/// the market has no such instance.
pub open spec fn crank_liquidation_request(
    ctx: &MarketContext,
    known: &ConstantAccounts,
    instance_index: u8,
    target_token_account: Pubkey,
) -> Result<InstructionView, RequestError> {
    if !ctx.has_instance(instance_index) {
        Err(RequestError::InvalidInstanceIndex)
    } else {
        let instance = ctx.instance_at(instance_index);
        Ok(
            InstructionView {
                program_id: ctx.audaces_protocol_program_id,
                accounts: seq![
                    readonly(known.token_program, false),
                    writable(ctx.market_account, false),
                    writable(instance.instance_account, false),
                    readonly(ctx.market_signer_account, false),
                    writable(ctx.bonfida_bnb, false),
                    writable(ctx.market_vault, false),
                    readonly(ctx.oracle_account, false),
                    writable(target_token_account, false),
                    readonly(known.liquidation_label, false),
                ] + page_accounts(instance.memory_pages@),
                data: encode(
                    OperationKind::CrankLiquidation {
                        instance_index,
                    },
                ),
            },
        )
    }
}

/// Builds the request that liquidates the losing positions of an instance and
/// pays the reward to the target account.
pub fn crank_liquidation(
    ctx: &MarketContext,
    known: &ConstantAccounts,
    instance_index: u8,
    target_token_account: Pubkey,
) -> (built: Result<Instruction, RequestError>)
    ensures
        request_view(built) == crank_liquidation_request(
            ctx,
            known,
            instance_index,
            target_token_account,
        ),
        built is Ok <==> ctx.has_instance(instance_index),
        built matches Err(e) ==> e == RequestError::InvalidInstanceIndex,
        built matches Ok(request) ==> segments_from(
            request@.accounts,
            9,
            ctx.instance_at(instance_index).memory_pages@,
            Seq::empty(),
        ),
{
    let instance = match ctx.instance(instance_index) {
        Ok(instance) => instance,
        Err(e) => {
            return Err(e);
        },
    };
    let instruction_data = PerpInstruction::CrankLiquidation {
        instance_index,
    };
    let data = instruction_data.to_vec();
    let mut accounts: Vec<AccountMeta> = Vec::new();
    accounts.push(AccountMeta::new_readonly(known.token_program, false));
    accounts.push(AccountMeta::new(ctx.market_account, false));
    accounts.push(AccountMeta::new(instance.instance_account, false));
    accounts.push(AccountMeta::new_readonly(ctx.market_signer_account, false));
    accounts.push(AccountMeta::new(ctx.bonfida_bnb, false));
    accounts.push(AccountMeta::new(ctx.market_vault, false));
    accounts.push(AccountMeta::new_readonly(ctx.oracle_account, false));
    accounts.push(AccountMeta::new(target_token_account, false));
    accounts.push(AccountMeta::new_readonly(known.liquidation_label, false));
    push_pages(&mut accounts, instance.memory_pages.as_slice());
    assert(accounts@ =~= crank_liquidation_request(
        ctx,
        known,
        instance_index,
        target_token_account,
    )->Ok_0.accounts);
    Ok(Instruction { program_id: ctx.audaces_protocol_program_id, accounts, data })
}

/// The request that collects garbage in an instance: the six fixed accounts,
/// then the pages of the instance; or `InvalidInstanceIndex` where the market
/// has no such instance.
pub open spec fn collect_garbage_request(
    ctx: &MarketContext,
    known: &ConstantAccounts,
    instance_index: u8,
    max_iterations: u64,
    target_token_account: Pubkey,
) -> Result<InstructionView, RequestError> {
    if !ctx.has_instance(instance_index) {
        Err(RequestError::InvalidInstanceIndex)
    } else {
        let instance = ctx.instance_at(instance_index);
        Ok(
            InstructionView {
                program_id: ctx.audaces_protocol_program_id,
                accounts: seq![
                    readonly(known.token_program, false),
                    writable(ctx.market_account, false),
                    writable(instance.instance_account, false),
                    writable(ctx.market_vault, false),
                    readonly(ctx.market_signer_account, false),
                    writable(target_token_account, false),
                ] + page_accounts(instance.memory_pages@),
                data: encode(
                    OperationKind::CollectGarbage {
                        instance_index,
                        max_iterations,
                    },
                ),
            },
        )
    }
}

/// Builds the request that frees the slots of closed positions in an
/// instance's pages and pays the reward to the target account.
pub fn collect_garbage(
    ctx: &MarketContext,
    known: &ConstantAccounts,
    instance_index: u8,
    max_iterations: u64,
    target_token_account: Pubkey,
) -> (built: Result<Instruction, RequestError>)
    ensures
        request_view(built) == collect_garbage_request(
            ctx,
            known,
            instance_index,
            max_iterations,
            target_token_account,
        ),
        built is Ok <==> ctx.has_instance(instance_index),
        built matches Err(e) ==> e == RequestError::InvalidInstanceIndex,
        built matches Ok(request) ==> segments_from(
            request@.accounts,
            6,
            ctx.instance_at(instance_index).memory_pages@,
            Seq::empty(),
        ),
{
    let instance = match ctx.instance(instance_index) {
        Ok(instance) => instance,
        Err(e) => {
            return Err(e);
        },
    };
    let instruction_data = PerpInstruction::CollectGarbage {
        instance_index,
        max_iterations,
    };
    let data = instruction_data.to_vec();
    let mut accounts: Vec<AccountMeta> = Vec::new();
    accounts.push(AccountMeta::new_readonly(known.token_program, false));
    accounts.push(AccountMeta::new(ctx.market_account, false));
    accounts.push(AccountMeta::new(instance.instance_account, false));
    accounts.push(AccountMeta::new(ctx.market_vault, false));
    accounts.push(AccountMeta::new_readonly(ctx.market_signer_account, false));
    accounts.push(AccountMeta::new(target_token_account, false));
    push_pages(&mut accounts, instance.memory_pages.as_slice());
    assert(accounts@ =~= collect_garbage_request(
        ctx,
        known,
        instance_index,
        max_iterations,
        target_token_account,
    )->Ok_0.accounts);
    Ok(Instruction { program_id: ctx.audaces_protocol_program_id, accounts, data })
}

/// The request that creates a market: the market, the clock, the oracle, the
/// admin and the vault; or `EncodingError` where the symbol is too long for a
/// length prefix.
pub open spec fn create_market_request(
    ctx: &MarketContext,
    known: &ConstantAccounts,
    market_symbol: Seq<char>,
    initial_v_pc_amount: u64,
    coin_decimals: u8,
    quote_decimals: u8,
) -> Result<InstructionView, RequestError> {
    if !text_fits(market_symbol) {
        Err(RequestError::EncodingError)
    } else {
        Ok(
            InstructionView {
                program_id: ctx.audaces_protocol_program_id,
                accounts: seq![
                    writable(ctx.market_account, false),
                    readonly(known.clock, false),
                    readonly(ctx.oracle_account, false),
                    readonly(ctx.admin_account, false),
                    readonly(ctx.market_vault, false),
                ],
                data: encode(
                    OperationKind::CreateMarket {
                        signer_nonce: ctx.signer_nonce,
                        market_symbol,
                        initial_v_pc_amount,
                        coin_decimals,
                        quote_decimals,
                    },
                ),
            },
        )
    }
}

/// Builds the request that creates a market for a currency. The nonce of the
/// market's signer comes from the context.
pub fn create_market(
    ctx: &MarketContext,
    known: &ConstantAccounts,
    market_symbol: String,
    initial_v_pc_amount: u64,
    coin_decimals: u8,
    quote_decimals: u8,
) -> (built: Result<Instruction, RequestError>)
    ensures
        request_view(built) == create_market_request(
            ctx,
            known,
            market_symbol@,
            initial_v_pc_amount,
            coin_decimals,
            quote_decimals,
        ),
        built is Ok <==> text_fits(market_symbol@),
        built matches Err(e) ==> e == RequestError::EncodingError,
{
    let ghost symbol = market_symbol@;
    let instruction_data = PerpInstruction::CreateMarket {
        signer_nonce: ctx.signer_nonce,
        market_symbol,
        initial_v_pc_amount,
        coin_decimals,
        quote_decimals,
    };
    let data = match instruction_data.try_to_vec() {
        Ok(data) => data,
        Err(e) => {
            return Err(e);
        },
    };
    let mut accounts: Vec<AccountMeta> = Vec::new();
    accounts.push(AccountMeta::new(ctx.market_account, false));
    accounts.push(AccountMeta::new_readonly(known.clock, false));
    accounts.push(AccountMeta::new_readonly(ctx.oracle_account, false));
    accounts.push(AccountMeta::new_readonly(ctx.admin_account, false));
    accounts.push(AccountMeta::new_readonly(ctx.market_vault, false));
    assert(accounts@ =~= create_market_request(
        ctx,
        known,
        symbol,
        initial_v_pc_amount,
        coin_decimals,
        quote_decimals,
    )->Ok_0.accounts);
    Ok(Instruction { program_id: ctx.audaces_protocol_program_id, accounts, data })
}

/// The request that extracts funding for a user account: the five fixed
/// accounts, then the pages of the instance; or `InvalidInstanceIndex` where
/// the market has no such instance.
pub open spec fn extract_funding_request(
    ctx: &MarketContext,
    known: &ConstantAccounts,
    instance_index: u8,
    open_positions_account: Pubkey,
) -> Result<InstructionView, RequestError> {
    if !ctx.has_instance(instance_index) {
        Err(RequestError::InvalidInstanceIndex)
    } else {
        let instance = ctx.instance_at(instance_index);
        Ok(
            InstructionView {
                program_id: ctx.audaces_protocol_program_id,
                accounts: seq![
                    writable(ctx.market_account, false),
                    writable(instance.instance_account, false),
                    writable(open_positions_account, false),
                    readonly(known.funding_extraction_label, false),
                    readonly(ctx.oracle_account, false),
                ] + page_accounts(instance.memory_pages@),
                data: encode(
                    OperationKind::FundingExtraction {
                        instance_index,
                    },
                ),
            },
        )
    }
}

/// Builds the request that settles funding for a user account in an
/// instance.
pub fn extract_funding(
    ctx: &MarketContext,
    known: &ConstantAccounts,
    instance_index: u8,
    open_positions_account: Pubkey,
) -> (built: Result<Instruction, RequestError>)
    ensures
        request_view(built) == extract_funding_request(
            ctx,
            known,
            instance_index,
            open_positions_account,
        ),
        built is Ok <==> ctx.has_instance(instance_index),
        built matches Err(e) ==> e == RequestError::InvalidInstanceIndex,
        built matches Ok(request) ==> segments_from(
            request@.accounts,
            5,
            ctx.instance_at(instance_index).memory_pages@,
            Seq::empty(),
        ),
{
    let instance = match ctx.instance(instance_index) {
        Ok(instance) => instance,
        Err(e) => {
            return Err(e);
        },
    };
    let instruction_data = PerpInstruction::FundingExtraction {
        instance_index,
    };
    let data = instruction_data.to_vec();
    let mut accounts: Vec<AccountMeta> = Vec::new();
    accounts.push(AccountMeta::new(ctx.market_account, false));
    accounts.push(AccountMeta::new(instance.instance_account, false));
    accounts.push(AccountMeta::new(open_positions_account, false));
    accounts.push(AccountMeta::new_readonly(known.funding_extraction_label, false));
    accounts.push(AccountMeta::new_readonly(ctx.oracle_account, false));
    push_pages(&mut accounts, instance.memory_pages.as_slice());
    assert(accounts@ =~= extract_funding_request(
        ctx,
        known,
        instance_index,
        open_positions_account,
    )->Ok_0.accounts);
    Ok(Instruction { program_id: ctx.audaces_protocol_program_id, accounts, data })
}

/// The request that adds a page to an instance: the market, the admin, who
/// signs, the instance and the new page; or `InvalidInstanceIndex` where the
/// market has no such instance.
pub open spec fn add_page_request(
    ctx: &MarketContext,
    instance_index: u8,
    new_memory_page: Pubkey,
) -> Result<InstructionView, RequestError> {
    if !ctx.has_instance(instance_index) {
        Err(RequestError::InvalidInstanceIndex)
    } else {
        let instance = ctx.instance_at(instance_index);
        Ok(
            InstructionView {
                program_id: ctx.audaces_protocol_program_id,
                accounts: seq![
                    readonly(ctx.market_account, false),
                    readonly(ctx.admin_account, true),
                    writable(instance.instance_account, false),
                    readonly(new_memory_page, false),
                ],
                data: encode(
                    OperationKind::AddPage {
                        instance_index,
                    },
                ),
            },
        )
    }
}

/// Builds the request that adds a page to the instance at the given index.
pub fn add_page(
    ctx: &MarketContext,
    instance_index: u8,
    new_memory_page: Pubkey,
) -> (built: Result<Instruction, RequestError>)
    ensures
        request_view(built) == add_page_request(
            ctx,
            instance_index,
            new_memory_page,
        ),
        built is Ok <==> ctx.has_instance(instance_index),
        built matches Err(e) ==> e == RequestError::InvalidInstanceIndex,
{
    let instance = match ctx.instance(instance_index) {
        Ok(instance) => instance,
        Err(e) => {
            return Err(e);
        },
    };
    let instruction_data = PerpInstruction::AddPage {
        instance_index,
    };
    let data = instruction_data.to_vec();
    let mut accounts: Vec<AccountMeta> = Vec::new();
    accounts.push(AccountMeta::new_readonly(ctx.market_account, false));
    accounts.push(AccountMeta::new_readonly(ctx.admin_account, true));
    accounts.push(AccountMeta::new(instance.instance_account, false));
    accounts.push(AccountMeta::new_readonly(new_memory_page, false));
    assert(accounts@ =~= add_page_request(
        ctx,
        instance_index,
        new_memory_page,
    )->Ok_0.accounts);
    Ok(Instruction { program_id: ctx.audaces_protocol_program_id, accounts, data })
}

/// The request that withdraws from a user's budget: the token program, the
/// market, its signer, the vault, the owner of the user's account, who signs,
/// the user's account and the target.
pub open spec fn withdraw_budget_request(
    ctx: &MarketContext,
    known: &ConstantAccounts,
    amount: u64,
    target_account: Pubkey,
    open_positions_owner_account: Pubkey,
    open_positions_account: Pubkey,
) -> InstructionView {
    InstructionView {
        program_id: ctx.audaces_protocol_program_id,
        accounts: seq![
            readonly(known.token_program, false),
            writable(ctx.market_account, false),
            readonly(ctx.market_signer_account, false),
            writable(ctx.market_vault, false),
            readonly(open_positions_owner_account, true),
            writable(open_positions_account, false),
            writable(target_account, false),
        ],
        data: encode(
            OperationKind::WithdrawBudget {
                amount,
            },
        ),
    }
}

/// Builds the request that moves tokens from a user's budget to a target
/// account.
pub fn withdraw_budget(
    ctx: &MarketContext,
    known: &ConstantAccounts,
    amount: u64,
    target_account: Pubkey,
    open_positions_owner_account: Pubkey,
    open_positions_account: Pubkey,
) -> (request: Instruction)
    ensures
        request@ == withdraw_budget_request(
            ctx,
            known,
            amount,
            target_account,
            open_positions_owner_account,
            open_positions_account,
        ),
{
    let instruction_data = PerpInstruction::WithdrawBudget {
        amount,
    };
    let data = instruction_data.to_vec();
    let mut accounts: Vec<AccountMeta> = Vec::new();
    accounts.push(AccountMeta::new_readonly(known.token_program, false));
    accounts.push(AccountMeta::new(ctx.market_account, false));
    accounts.push(AccountMeta::new_readonly(ctx.market_signer_account, false));
    accounts.push(AccountMeta::new(ctx.market_vault, false));
    accounts.push(AccountMeta::new_readonly(open_positions_owner_account, true));
    accounts.push(AccountMeta::new(open_positions_account, false));
    accounts.push(AccountMeta::new(target_account, false));
    assert(accounts@ =~= withdraw_budget_request(
        ctx,
        known,
        amount,
        target_account,
        open_positions_owner_account,
        open_positions_account,
    ).accounts);
    Instruction { program_id: ctx.audaces_protocol_program_id, accounts, data }
}

/// The request that adds to a user's budget: the token program, the market,
/// the vault, the user's account, the owner of the source, who signs, and the
/// source.
pub open spec fn add_budget_request(
    ctx: &MarketContext,
    known: &ConstantAccounts,
    amount: u64,
    source_owner: Pubkey,
    source_token_account: Pubkey,
    open_positions_account: Pubkey,
) -> InstructionView {
    InstructionView {
        program_id: ctx.audaces_protocol_program_id,
        accounts: seq![
            readonly(known.token_program, false),
            writable(ctx.market_account, false),
            writable(ctx.market_vault, false),
            writable(open_positions_account, false),
            readonly(source_owner, true),
            writable(source_token_account, false),
        ],
        data: encode(
            OperationKind::AddBudget {
                amount,
            },
        ),
    }
}

/// Builds the request that moves tokens from a source account into a user's
/// budget.
pub fn add_budget(
    ctx: &MarketContext,
    known: &ConstantAccounts,
    amount: u64,
    source_owner: Pubkey,
    source_token_account: Pubkey,
    open_positions_account: Pubkey,
) -> (request: Instruction)
    ensures
        request@ == add_budget_request(
            ctx,
            known,
            amount,
            source_owner,
            source_token_account,
            open_positions_account,
        ),
{
    let instruction_data = PerpInstruction::AddBudget {
        amount,
    };
    let data = instruction_data.to_vec();
    let mut accounts: Vec<AccountMeta> = Vec::new();
    accounts.push(AccountMeta::new_readonly(known.token_program, false));
    accounts.push(AccountMeta::new(ctx.market_account, false));
    accounts.push(AccountMeta::new(ctx.market_vault, false));
    accounts.push(AccountMeta::new(open_positions_account, false));
    accounts.push(AccountMeta::new_readonly(source_owner, true));
    accounts.push(AccountMeta::new(source_token_account, false));
    assert(accounts@ =~= add_budget_request(
        ctx,
        known,
        amount,
        source_owner,
        source_token_account,
        open_positions_account,
    ).accounts);
    Instruction { program_id: ctx.audaces_protocol_program_id, accounts, data }
}

/// The request that adds an instance: the market, the admin, who signs, and
/// the new instance, then the new instance's pages.
pub open spec fn add_instance_request(
    ctx: &MarketContext,
    instance_account: Pubkey,
    memory_pages: &[Pubkey],
) -> InstructionView {
    InstructionView {
        program_id: ctx.audaces_protocol_program_id,
        accounts: seq![
            writable(ctx.market_account, false),
            writable(ctx.admin_account, true),
            writable(instance_account, false),
        ] + page_accounts(memory_pages@),
        data: encode(OperationKind::AddInstance),
    }
}

/// Builds the request that adds an instance with the given pages to a market.
pub fn add_instance(
    ctx: &MarketContext,
    instance_account: Pubkey,
    memory_pages: &[Pubkey],
) -> (request: Instruction)
    ensures
        request@ == add_instance_request(
            ctx,
            instance_account,
            memory_pages,
        ),
        segments_from(request@.accounts, 3, memory_pages@, Seq::empty()),
{
    let data = PerpInstruction::AddInstance.to_vec();
    let mut accounts: Vec<AccountMeta> = Vec::new();
    accounts.push(AccountMeta::new(ctx.market_account, false));
    accounts.push(AccountMeta::new(ctx.admin_account, true));
    accounts.push(AccountMeta::new(instance_account, false));
    push_pages(&mut accounts, memory_pages);
    assert(accounts@ =~= add_instance_request(
        ctx,
        instance_account,
        memory_pages,
    ).accounts);
    Instruction { program_id: ctx.audaces_protocol_program_id, accounts, data }
}

/// The request that moves a position between two user accounts: the owner of
/// the source, who signs, the source, the owner of the destination, who
/// signs, and the destination.
pub open spec fn transfer_position_request(
    ctx: &MarketContext,
    position_index: u16,
    source_user_account: Pubkey,
    source_user_account_owner: Pubkey,
    destination_user_account: Pubkey,
    destination_user_account_owner: Pubkey,
) -> InstructionView {
    InstructionView {
        program_id: ctx.audaces_protocol_program_id,
        accounts: seq![
            readonly(source_user_account_owner, true),
            writable(source_user_account, false),
            readonly(destination_user_account_owner, true),
            writable(destination_user_account, false),
        ],
        data: encode(
            OperationKind::TransferPosition {
                position_index,
            },
        ),
    }
}

/// Builds the request that moves a position from one user account to
/// another.
pub fn transfer_position(
    ctx: &MarketContext,
    position_index: u16,
    source_user_account: Pubkey,
    source_user_account_owner: Pubkey,
    destination_user_account: Pubkey,
    destination_user_account_owner: Pubkey,
) -> (request: Instruction)
    ensures
        request@ == transfer_position_request(
            ctx,
            position_index,
            source_user_account,
            source_user_account_owner,
            destination_user_account,
            destination_user_account_owner,
        ),
{
    let instruction_data = PerpInstruction::TransferPosition {
        position_index,
    };
    let data = instruction_data.to_vec();
    let mut accounts: Vec<AccountMeta> = Vec::new();
    accounts.push(AccountMeta::new_readonly(source_user_account_owner, true));
    accounts.push(AccountMeta::new(source_user_account, false));
    accounts.push(AccountMeta::new_readonly(destination_user_account_owner, true));
    accounts.push(AccountMeta::new(destination_user_account, false));
    assert(accounts@ =~= transfer_position_request(
        ctx,
        position_index,
        source_user_account,
        source_user_account_owner,
        destination_user_account,
        destination_user_account_owner,
    ).accounts);
    Instruction { program_id: ctx.audaces_protocol_program_id, accounts, data }
}

/// The request that replaces a market's oracle: the market, then the
/// oracle's mapping, product and price accounts.
pub open spec fn update_oracle_account_request(
    ctx: &MarketContext,
    pyth_oracle_mapping_account: Pubkey,
    pyth_oracle_product_account: Pubkey,
    pyth_oracle_price_account: Pubkey,
) -> InstructionView {
    InstructionView {
        program_id: ctx.audaces_protocol_program_id,
        accounts: seq![
            writable(ctx.market_account, false),
            readonly(pyth_oracle_mapping_account, false),
            readonly(pyth_oracle_product_account, false),
            readonly(pyth_oracle_price_account, false),
        ],
        data: encode(OperationKind::UpdateOracleAccount),
    }
}

/// Builds the request that replaces the oracle account of a market.
pub fn update_oracle_account(
    ctx: &MarketContext,
    pyth_oracle_mapping_account: Pubkey,
    pyth_oracle_product_account: Pubkey,
    pyth_oracle_price_account: Pubkey,
) -> (request: Instruction)
    ensures
        request@ == update_oracle_account_request(
            ctx,
            pyth_oracle_mapping_account,
            pyth_oracle_product_account,
            pyth_oracle_price_account,
        ),
{
    let data = PerpInstruction::UpdateOracleAccount.to_vec();
    let mut accounts: Vec<AccountMeta> = Vec::new();
    accounts.push(AccountMeta::new(ctx.market_account, false));
    accounts.push(AccountMeta::new_readonly(pyth_oracle_mapping_account, false));
    accounts.push(AccountMeta::new_readonly(pyth_oracle_product_account, false));
    accounts.push(AccountMeta::new_readonly(pyth_oracle_price_account, false));
    assert(accounts@ =~= update_oracle_account_request(
        ctx,
        pyth_oracle_mapping_account,
        pyth_oracle_product_account,
        pyth_oracle_price_account,
    ).accounts);
    Instruction { program_id: ctx.audaces_protocol_program_id, accounts, data }
}

/// The request that cranks funding: the clock, the market, the oracle and the
/// funding label.
pub open spec fn crank_funding_request(
    ctx: &MarketContext,
    known: &ConstantAccounts,
) -> InstructionView {
    InstructionView {
        program_id: ctx.audaces_protocol_program_id,
        accounts: seq![
            readonly(known.clock, false),
            writable(ctx.market_account, false),
            readonly(ctx.oracle_account, false),
            readonly(known.funding_label, false),
        ],
        data: encode(OperationKind::CrankFunding),
    }
}

/// Builds the request that records prices for the funding ratio.
pub fn crank_funding(
    ctx: &MarketContext,
    known: &ConstantAccounts,
) -> (request: Instruction)
    ensures
        request@ == crank_funding_request(
            ctx,
            known,
        ),
{
    let data = PerpInstruction::CrankFunding.to_vec();
    let mut accounts: Vec<AccountMeta> = Vec::new();
    accounts.push(AccountMeta::new_readonly(known.clock, false));
    accounts.push(AccountMeta::new(ctx.market_account, false));
    accounts.push(AccountMeta::new_readonly(ctx.oracle_account, false));
    accounts.push(AccountMeta::new_readonly(known.funding_label, false));
    assert(accounts@ =~= crank_funding_request(
        ctx,
        known,
    ).accounts);
    Instruction { program_id: ctx.audaces_protocol_program_id, accounts, data }
}

/// The request that hands a user account to a new owner: the owner, who
/// signs, the account and the new owner.
pub open spec fn transfer_user_account_request(
    ctx: &MarketContext,
    user_account: Pubkey,
    user_account_owner: Pubkey,
    new_user_account_owner: Pubkey,
) -> InstructionView {
    InstructionView {
        program_id: ctx.audaces_protocol_program_id,
        accounts: seq![
            readonly(user_account_owner, true),
            writable(user_account, false),
            readonly(new_user_account_owner, false),
        ],
        data: encode(OperationKind::TransferUserAccount),
    }
}

/// Builds the request that hands a user account to a new owner.
pub fn transfer_user_account(
    ctx: &MarketContext,
    user_account: Pubkey,
    user_account_owner: Pubkey,
    new_user_account_owner: Pubkey,
) -> (request: Instruction)
    ensures
        request@ == transfer_user_account_request(
            ctx,
            user_account,
            user_account_owner,
            new_user_account_owner,
        ),
{
    let data = PerpInstruction::TransferUserAccount.to_vec();
    let mut accounts: Vec<AccountMeta> = Vec::new();
    accounts.push(AccountMeta::new_readonly(user_account_owner, true));
    accounts.push(AccountMeta::new(user_account, false));
    accounts.push(AccountMeta::new_readonly(new_user_account_owner, false));
    assert(accounts@ =~= transfer_user_account_request(
        ctx,
        user_account,
        user_account_owner,
        new_user_account_owner,
    ).accounts);
    Instruction { program_id: ctx.audaces_protocol_program_id, accounts, data }
}

/// The request that closes a user account: the account, its owner, who signs,
/// and the account that receives what is left.
pub open spec fn close_account_request(
    ctx: &MarketContext,
    user_account: Pubkey,
    user_account_owner: Pubkey,
    lamports_target: Pubkey,
) -> InstructionView {
    InstructionView {
        program_id: ctx.audaces_protocol_program_id,
        accounts: seq![
            writable(user_account, false),
            readonly(user_account_owner, true),
            writable(lamports_target, false),
        ],
        data: encode(OperationKind::CloseAccount),
    }
}

/// Builds the request that closes a user account.
pub fn close_account(
    ctx: &MarketContext,
    user_account: Pubkey,
    user_account_owner: Pubkey,
    lamports_target: Pubkey,
) -> (request: Instruction)
    ensures
        request@ == close_account_request(
            ctx,
            user_account,
            user_account_owner,
            lamports_target,
        ),
{
    let data = PerpInstruction::CloseAccount.to_vec();
    let mut accounts: Vec<AccountMeta> = Vec::new();
    accounts.push(AccountMeta::new(user_account, false));
    accounts.push(AccountMeta::new_readonly(user_account_owner, true));
    accounts.push(AccountMeta::new(lamports_target, false));
    assert(accounts@ =~= close_account_request(
        ctx,
        user_account,
        user_account_owner,
        lamports_target,
    ).accounts);
    Instruction { program_id: ctx.audaces_protocol_program_id, accounts, data }
}

/// The request that rescales the constant product: the market and the admin,
/// who signs.
pub open spec fn change_k_request(
    ctx: &MarketContext,
    factor: u64,
) -> InstructionView {
    InstructionView {
        program_id: ctx.audaces_protocol_program_id,
        accounts: seq![
            writable(ctx.market_account, false),
            readonly(ctx.admin_account, true),
        ],
        data: encode(
            OperationKind::ChangeK {
                factor,
            },
        ),
    }
}

/// Builds the request that rescales the market's constant product.
pub fn change_k(
    ctx: &MarketContext,
    factor: u64,
) -> (request: Instruction)
    ensures
        request@ == change_k_request(
            ctx,
            factor,
        ),
{
    let instruction_data = PerpInstruction::ChangeK {
        factor,
    };
    let data = instruction_data.to_vec();
    let mut accounts: Vec<AccountMeta> = Vec::new();
    accounts.push(AccountMeta::new(ctx.market_account, false));
    accounts.push(AccountMeta::new_readonly(ctx.admin_account, true));
    assert(accounts@ =~= change_k_request(
        ctx,
        factor,
    ).accounts);
    Instruction { program_id: ctx.audaces_protocol_program_id, accounts, data }
}
/// A construction is a function of its arguments: two results whose views
/// are the same value, as the contract of each construction makes them for
/// the same arguments, are both requests or both the same error, and two
/// requests name the same program, hold the same account references in the
/// same order, and carry the same payload, byte for byte.
pub proof fn lemma_requests_agree(
    first: Result<Instruction, RequestError>,
    second: Result<Instruction, RequestError>,
)
    requires
        request_view(first) == request_view(second),
    ensures
        first is Ok <==> second is Ok,
        first matches Err(e) ==> second == Err::<Instruction, RequestError>(e),
        first matches Ok(a) ==> {
            &&& second->Ok_0.program_id == a.program_id
            &&& second->Ok_0.accounts@ == a.accounts@
            &&& second->Ok_0.data@ == a.data@
        },
{
}

/// The optional accounts of an opened position stand at the end of its
/// account list. With neither a discount account nor a referrer the list
/// ends with the pages; a discount account appends its address and its
/// owner, a referrer appends one account, and with both the pair stands
/// before the referrer: 0, 2, 1 or 3 references more, and nothing else of
/// the request changes.
pub proof fn lemma_open_position_optional_accounts(
    ctx: &MarketContext,
    known: &ConstantAccounts,
    position: &PositionInfo,
    collateral: u64,
    leverage: u64,
    predicted_entry_price: u64,
    maximum_slippage_margin: u64,
    discount_account_opt: Option<&DiscountAccount>,
    referrer_account_opt: Option<Pubkey>,
)
    requires
        ctx.has_instance(position.instance_index),
    ensures
        ({
            let with = open_position_request(
                ctx,
                known,
                position,
                collateral,
                leverage,
                predicted_entry_price,
                maximum_slippage_margin,
                discount_account_opt,
                referrer_account_opt,
            )->Ok_0;
            let without = open_position_request(
                ctx,
                known,
                position,
                collateral,
                leverage,
                predicted_entry_price,
                maximum_slippage_margin,
                None,
                None,
            )->Ok_0;
            let extra = optional_accounts(discount_account_opt, referrer_account_opt);
            &&& with.program_id == without.program_id
            &&& with.data == without.data
            &&& with.accounts == without.accounts + extra
            &&& extra == match (discount_account_opt, referrer_account_opt) {
                (None, None) => Seq::empty(),
                (Some(d), None) => seq![readonly(d.address, false), readonly(d.owner, true)],
                (None, Some(r)) => seq![writable(r, false)],
                (Some(d), Some(r)) => seq![
                    readonly(d.address, false),
                    readonly(d.owner, true),
                    writable(r, false),
                ],
            }
        }),
{
    let none: Option<&DiscountAccount> = None;
    assert(optional_accounts(none, None) =~= Seq::empty());
}

} // verus!
