//! The closed set of operations, the arguments of each, and the payload that
//! spells an operation: one byte for the kind, by order of declaration, then
//! the arguments in the order of their fields.

use crate::error::RequestError;
use crate::wire::{
    get_text, get_u16, get_u32, get_u64, group_le_len, lemma_u16_round_trip,
    lemma_u32_round_trip, lemma_u64_round_trip, put_text, put_u16, put_u64, put_u8, text_fits,
    text_le, u16_at, u16_le, u32_at, u32_le, u64_at, u64_le,
};
use vstd::prelude::*;
use vstd::utf8::{decode_utf8, encode_utf8, encode_utf8_decode_utf8, encode_utf8_valid_utf8, valid_utf8};

verus! {

broadcast use group_le_len;

/// The side of a position. On the wire it is one byte: 0 for short, 1 for
/// long.
#[derive(Clone, Copy, Debug, PartialEq, Eq)]
pub enum PositionType {
    Short,
    Long,
}

/// The byte that spells a side.
pub open spec fn side_byte(side: PositionType) -> u8 {
    match side {
        PositionType::Short => 0,
        PositionType::Long => 1,
    }
}

/// The side that a byte spells, for a byte that spells one.
pub open spec fn side_of(byte: u8) -> PositionType
    recommends
        byte <= 1,
{
    if byte == 0 {
        PositionType::Short
    } else {
        PositionType::Long
    }
}

impl PositionType {
    /// The byte that spells this side.
    pub fn to_byte(&self) -> (byte: u8)
        ensures
            byte == side_byte(*self),
    {
        match self {
            PositionType::Short => 0,
            PositionType::Long => 1,
        }
    }

    /// The side that a byte spells, or `None` for any byte above 1.
    pub fn from_byte(byte: u8) -> (side: Option<PositionType>)
        ensures
            side is Some <==> byte <= 1,
            side matches Some(s) ==> s == side_of(byte) && side_byte(s) == byte,
    {
        if byte == 0 {
            Some(PositionType::Short)
        } else if byte == 1 {
            Some(PositionType::Long)
        } else {
            None
        }
    }
}

/// An operation of the engine with its arguments. Prices and slippage
/// margins are fixed-point numbers with 32 fractional bits; they travel as
/// the integers they are stored in.
#[derive(Clone, Debug, PartialEq)]
pub enum PerpInstruction {
    /// Creates a market for a currency.
    CreateMarket {
        signer_nonce: u8,
        market_symbol: String,
        initial_v_pc_amount: u64,
        coin_decimals: u8,
        quote_decimals: u8,
    },
    /// Adds an instance to a market.
    AddInstance,
    /// Replaces the oracle account of a market.
    UpdateOracleAccount,
    /// Opens a position.
    OpenPosition {
        side: PositionType,
        collateral: u64,
        instance_index: u8,
        leverage: u64,
        predicted_entry_price: u64,
        maximum_slippage_margin: u64,
    },
    /// Adds to a user's budget.
    AddBudget { amount: u64 },
    /// Withdraws from a user's budget.
    WithdrawBudget { amount: u64 },
    /// Adds collateral to a position.
    IncreasePosition {
        add_collateral: u64,
        instance_index: u8,
        leverage: u64,
        position_index: u16,
        predicted_entry_price: u64,
        maximum_slippage_margin: u64,
    },
    /// Closes a position, wholly or in part.
    ClosePosition {
        position_index: u16,
        closing_collateral: u64,
        closing_v_coin: u64,
        predicted_entry_price: u64,
        maximum_slippage_margin: u64,
    },
    /// Frees slots of closed positions in an instance's pages.
    CollectGarbage { instance_index: u8, max_iterations: u64 },
    /// Liquidates the losing positions of an instance.
    CrankLiquidation { instance_index: u8 },
    /// Records prices for the funding ratio.
    CrankFunding,
    /// Settles funding for a user account.
    FundingExtraction { instance_index: u8 },
    /// Rescales the market's constant product.
    ChangeK { factor: u64 },
    /// Closes a user account.
    CloseAccount,
    /// Adds a page to an instance.
    AddPage { instance_index: u8 },
    /// Rebalances an instance.
    Rebalance { collateral: u64, instance_index: u8 },
    /// Hands a user account to a new owner.
    TransferUserAccount,
    /// Moves a position from one user account to another.
    TransferPosition { position_index: u16 },
}

/// What a [`PerpInstruction`] stands for: the same operation with its string
/// as a sequence of characters.
pub enum OperationKind {
    CreateMarket {
        signer_nonce: u8,
        market_symbol: Seq<char>,
        initial_v_pc_amount: u64,
        coin_decimals: u8,
        quote_decimals: u8,
    },
    AddInstance,
    UpdateOracleAccount,
    OpenPosition {
        side: PositionType,
        collateral: u64,
        instance_index: u8,
        leverage: u64,
        predicted_entry_price: u64,
        maximum_slippage_margin: u64,
    },
    AddBudget { amount: u64 },
    WithdrawBudget { amount: u64 },
    IncreasePosition {
        add_collateral: u64,
        instance_index: u8,
        leverage: u64,
        position_index: u16,
        predicted_entry_price: u64,
        maximum_slippage_margin: u64,
    },
    ClosePosition {
        position_index: u16,
        closing_collateral: u64,
        closing_v_coin: u64,
        predicted_entry_price: u64,
        maximum_slippage_margin: u64,
    },
    CollectGarbage { instance_index: u8, max_iterations: u64 },
    CrankLiquidation { instance_index: u8 },
    CrankFunding,
    FundingExtraction { instance_index: u8 },
    ChangeK { factor: u64 },
    CloseAccount,
    AddPage { instance_index: u8 },
    Rebalance { collateral: u64, instance_index: u8 },
    TransferUserAccount,
    TransferPosition { position_index: u16 },
}

impl View for PerpInstruction {
    type V = OperationKind;

    open spec fn view(&self) -> OperationKind {
        match *self {
            PerpInstruction::CreateMarket {
                signer_nonce,
                market_symbol,
                initial_v_pc_amount,
                coin_decimals,
                quote_decimals,
            } => OperationKind::CreateMarket {
                signer_nonce,
                market_symbol: market_symbol@,
                initial_v_pc_amount,
                coin_decimals,
                quote_decimals,
            },
            PerpInstruction::AddInstance => OperationKind::AddInstance,
            PerpInstruction::UpdateOracleAccount => OperationKind::UpdateOracleAccount,
            PerpInstruction::OpenPosition {
                side,
                collateral,
                instance_index,
                leverage,
                predicted_entry_price,
                maximum_slippage_margin,
            } => OperationKind::OpenPosition {
                side,
                collateral,
                instance_index,
                leverage,
                predicted_entry_price,
                maximum_slippage_margin,
            },
            PerpInstruction::AddBudget { amount } => OperationKind::AddBudget { amount },
            PerpInstruction::WithdrawBudget { amount } => OperationKind::WithdrawBudget { amount },
            PerpInstruction::IncreasePosition {
                add_collateral,
                instance_index,
                leverage,
                position_index,
                predicted_entry_price,
                maximum_slippage_margin,
            } => OperationKind::IncreasePosition {
                add_collateral,
                instance_index,
                leverage,
                position_index,
                predicted_entry_price,
                maximum_slippage_margin,
            },
            PerpInstruction::ClosePosition {
                position_index,
                closing_collateral,
                closing_v_coin,
                predicted_entry_price,
                maximum_slippage_margin,
            } => OperationKind::ClosePosition {
                position_index,
                closing_collateral,
                closing_v_coin,
                predicted_entry_price,
                maximum_slippage_margin,
            },
            PerpInstruction::CollectGarbage { instance_index, max_iterations } => {
                OperationKind::CollectGarbage { instance_index, max_iterations }
            },
            PerpInstruction::CrankLiquidation { instance_index } => {
                OperationKind::CrankLiquidation { instance_index }
            },
            PerpInstruction::CrankFunding => OperationKind::CrankFunding,
            PerpInstruction::FundingExtraction { instance_index } => {
                OperationKind::FundingExtraction { instance_index }
            },
            PerpInstruction::ChangeK { factor } => OperationKind::ChangeK { factor },
            PerpInstruction::CloseAccount => OperationKind::CloseAccount,
            PerpInstruction::AddPage { instance_index } => OperationKind::AddPage { instance_index },
            PerpInstruction::Rebalance { collateral, instance_index } => {
                OperationKind::Rebalance { collateral, instance_index }
            },
            PerpInstruction::TransferUserAccount => OperationKind::TransferUserAccount,
            PerpInstruction::TransferPosition { position_index } => {
                OperationKind::TransferPosition { position_index }
            },
        }
    }
}

impl OperationKind {
    /// The byte that names the kind: its place in the declaration, from 0.
    pub open spec fn discriminant(self) -> u8 {
        match self {
            OperationKind::CreateMarket { .. } => 0,
            OperationKind::AddInstance => 1,
            OperationKind::UpdateOracleAccount => 2,
            OperationKind::OpenPosition { .. } => 3,
            OperationKind::AddBudget { .. } => 4,
            OperationKind::WithdrawBudget { .. } => 5,
            OperationKind::IncreasePosition { .. } => 6,
            OperationKind::ClosePosition { .. } => 7,
            OperationKind::CollectGarbage { .. } => 8,
            OperationKind::CrankLiquidation { .. } => 9,
            OperationKind::CrankFunding => 10,
            OperationKind::FundingExtraction { .. } => 11,
            OperationKind::ChangeK { .. } => 12,
            OperationKind::CloseAccount => 13,
            OperationKind::AddPage { .. } => 14,
            OperationKind::Rebalance { .. } => 15,
            OperationKind::TransferUserAccount => 16,
            OperationKind::TransferPosition { .. } => 17,
        }
    }

    /// The arguments on the wire, each at its full width, in the order of the
    /// fields.
    pub open spec fn arguments(self) -> Seq<u8> {
        match self {
            OperationKind::CreateMarket {
                signer_nonce,
                market_symbol,
                initial_v_pc_amount,
                coin_decimals,
                quote_decimals,
            } => seq![signer_nonce] + text_le(market_symbol) + u64_le(initial_v_pc_amount)
                + seq![coin_decimals] + seq![quote_decimals],
            OperationKind::OpenPosition {
                side,
                collateral,
                instance_index,
                leverage,
                predicted_entry_price,
                maximum_slippage_margin,
            } => seq![side_byte(side)] + u64_le(collateral) + seq![instance_index] + u64_le(
                leverage,
            ) + u64_le(predicted_entry_price) + u64_le(maximum_slippage_margin),
            OperationKind::AddBudget { amount } => u64_le(amount),
            OperationKind::WithdrawBudget { amount } => u64_le(amount),
            OperationKind::IncreasePosition {
                add_collateral,
                instance_index,
                leverage,
                position_index,
                predicted_entry_price,
                maximum_slippage_margin,
            } => u64_le(add_collateral) + seq![instance_index] + u64_le(leverage) + u16_le(
                position_index,
            ) + u64_le(predicted_entry_price) + u64_le(maximum_slippage_margin),
            OperationKind::ClosePosition {
                position_index,
                closing_collateral,
                closing_v_coin,
                predicted_entry_price,
                maximum_slippage_margin,
            } => u16_le(position_index) + u64_le(closing_collateral) + u64_le(closing_v_coin)
                + u64_le(predicted_entry_price) + u64_le(maximum_slippage_margin),
            OperationKind::CollectGarbage { instance_index, max_iterations } => seq![
                instance_index,
            ] + u64_le(max_iterations),
            OperationKind::CrankLiquidation { instance_index } => seq![instance_index],
            OperationKind::FundingExtraction { instance_index } => seq![instance_index],
            OperationKind::ChangeK { factor } => u64_le(factor),
            OperationKind::AddPage { instance_index } => seq![instance_index],
            OperationKind::Rebalance { collateral, instance_index } => u64_le(collateral) + seq![
                instance_index,
            ],
            OperationKind::TransferPosition { position_index } => u16_le(position_index),
            OperationKind::AddInstance
            | OperationKind::UpdateOracleAccount
            | OperationKind::CrankFunding
            | OperationKind::CloseAccount
            | OperationKind::TransferUserAccount => Seq::empty(),
        }
    }

    /// Whether the operation has a payload: every operation has one but a
    /// market creation whose symbol is too long for a length prefix.
    pub open spec fn encodable(self) -> bool {
        self matches OperationKind::CreateMarket { market_symbol, .. } ==> text_fits(market_symbol)
    }
}

/// The payload of an operation: the byte of its kind, then its arguments.
pub open spec fn encode(op: OperationKind) -> Seq<u8>
    recommends
        op.encodable(),
{
    seq![op.discriminant()] + op.arguments()
}

/// The market creation that a payload spells, if it spells one: the nonce, the
/// symbol behind its length, the amount and the two decimals, and no byte
/// more.
pub open spec fn decode_create_market(bytes: Seq<u8>) -> Option<OperationKind> {
    if bytes.len() < 6 {
        None
    } else {
        let end = 6 + u32_at(bytes, 2);
        if bytes.len() == end + 10 && valid_utf8(bytes.subrange(6, end)) {
            Some(
                OperationKind::CreateMarket {
                    signer_nonce: bytes[1],
                    market_symbol: decode_utf8(bytes.subrange(6, end)),
                    initial_v_pc_amount: u64_at(bytes, end),
                    coin_decimals: bytes[end + 8],
                    quote_decimals: bytes[end + 9],
                },
            )
        } else {
            None
        }
    }
}

/// The operation that a payload spells, or `None` where it spells none: the
/// first byte names a kind, a side byte is 0 or 1, a symbol is well-formed
/// UTF-8, and the length is exactly that of the kind's arguments.
pub open spec fn decode(bytes: Seq<u8>) -> Option<OperationKind> {
    if bytes.len() == 0 {
        None
    } else if bytes[0] == 0 {
        decode_create_market(bytes)
    } else if bytes[0] == 1 && bytes.len() == 1 {
        Some(OperationKind::AddInstance)
    } else if bytes[0] == 2 && bytes.len() == 1 {
        Some(OperationKind::UpdateOracleAccount)
    } else if bytes[0] == 3 && bytes.len() == 35 && bytes[1] <= 1 {
        Some(
            OperationKind::OpenPosition {
                side: side_of(bytes[1]),
                collateral: u64_at(bytes, 2),
                instance_index: bytes[10],
                leverage: u64_at(bytes, 11),
                predicted_entry_price: u64_at(bytes, 19),
                maximum_slippage_margin: u64_at(bytes, 27),
            },
        )
    } else if bytes[0] == 4 && bytes.len() == 9 {
        Some(OperationKind::AddBudget { amount: u64_at(bytes, 1) })
    } else if bytes[0] == 5 && bytes.len() == 9 {
        Some(OperationKind::WithdrawBudget { amount: u64_at(bytes, 1) })
    } else if bytes[0] == 6 && bytes.len() == 36 {
        Some(
            OperationKind::IncreasePosition {
                add_collateral: u64_at(bytes, 1),
                instance_index: bytes[9],
                leverage: u64_at(bytes, 10),
                position_index: u16_at(bytes, 18),
                predicted_entry_price: u64_at(bytes, 20),
                maximum_slippage_margin: u64_at(bytes, 28),
            },
        )
    } else if bytes[0] == 7 && bytes.len() == 35 {
        Some(
            OperationKind::ClosePosition {
                position_index: u16_at(bytes, 1),
                closing_collateral: u64_at(bytes, 3),
                closing_v_coin: u64_at(bytes, 11),
                predicted_entry_price: u64_at(bytes, 19),
                maximum_slippage_margin: u64_at(bytes, 27),
            },
        )
    } else if bytes[0] == 8 && bytes.len() == 10 {
        Some(
            OperationKind::CollectGarbage {
                instance_index: bytes[1],
                max_iterations: u64_at(bytes, 2),
            },
        )
    } else if bytes[0] == 9 && bytes.len() == 2 {
        Some(OperationKind::CrankLiquidation { instance_index: bytes[1] })
    } else if bytes[0] == 10 && bytes.len() == 1 {
        Some(OperationKind::CrankFunding)
    } else if bytes[0] == 11 && bytes.len() == 2 {
        Some(OperationKind::FundingExtraction { instance_index: bytes[1] })
    } else if bytes[0] == 12 && bytes.len() == 9 {
        Some(OperationKind::ChangeK { factor: u64_at(bytes, 1) })
    } else if bytes[0] == 13 && bytes.len() == 1 {
        Some(OperationKind::CloseAccount)
    } else if bytes[0] == 14 && bytes.len() == 2 {
        Some(OperationKind::AddPage { instance_index: bytes[1] })
    } else if bytes[0] == 15 && bytes.len() == 10 {
        Some(OperationKind::Rebalance { collateral: u64_at(bytes, 1), instance_index: bytes[9] })
    } else if bytes[0] == 16 && bytes.len() == 1 {
        Some(OperationKind::TransferUserAccount)
    } else if bytes[0] == 17 && bytes.len() == 3 {
        Some(OperationKind::TransferPosition { position_index: u16_at(bytes, 1) })
    } else {
        None
    }
}

/// Where the parts of a market creation stand in its payload, for any bytes
/// in the place of the symbol's UTF-8 form.
proof fn lemma_create_market_layout(
    signer_nonce: u8,
    text: Seq<u8>,
    initial_v_pc_amount: u64,
    coin_decimals: u8,
    quote_decimals: u8,
)
    requires
        text.len() <= u32::MAX,
    ensures
        ({
            let bytes = seq![0u8] + (seq![signer_nonce] + (u32_le(text.len() as u32) + text)
                + u64_le(initial_v_pc_amount) + seq![coin_decimals] + seq![quote_decimals]);
            let end = 6 + text.len() as int;
            &&& bytes.len() == end + 10
            &&& bytes[0] == 0
            &&& bytes[1] == signer_nonce
            &&& u32_at(bytes, 2) == text.len()
            &&& bytes.subrange(6, end) == text
            &&& u64_at(bytes, end) == initial_v_pc_amount
            &&& bytes[end + 8] == coin_decimals
            &&& bytes[end + 9] == quote_decimals
        }),
{
    let len = text.len() as u32;
    let bytes = seq![0u8] + (seq![signer_nonce] + (u32_le(len) + text) + u64_le(
        initial_v_pc_amount,
    ) + seq![coin_decimals] + seq![quote_decimals]);
    let head = seq![0u8, signer_nonce];
    let tail = seq![coin_decimals, quote_decimals];
    assert(bytes =~= head + u32_le(len) + (text + u64_le(initial_v_pc_amount) + tail));
    lemma_u32_round_trip(head, len, text + u64_le(initial_v_pc_amount) + tail);
    assert(bytes =~= (head + u32_le(len) + text) + u64_le(initial_v_pc_amount) + tail);
    lemma_u64_round_trip(head + u32_le(len) + text, initial_v_pc_amount, tail);
    assert(bytes.subrange(6, 6 + len) =~= text);
}

/// A market creation that has a payload is read back from it.
proof fn lemma_decode_encode_create_market(op: OperationKind)
    requires
        op is CreateMarket,
        op.encodable(),
    ensures
        decode(encode(op)) == Some(op),
{
    if let OperationKind::CreateMarket {
        signer_nonce,
        market_symbol,
        initial_v_pc_amount,
        coin_decimals,
        quote_decimals,
    } = op {
        lemma_create_market_layout(
            signer_nonce,
            encode_utf8(market_symbol),
            initial_v_pc_amount,
            coin_decimals,
            quote_decimals,
        );
        encode_utf8_valid_utf8(market_symbol);
        encode_utf8_decode_utf8(market_symbol);
    }
}

/// An opening of a position is read back from its payload.
proof fn lemma_decode_encode_open_position(op: OperationKind)
    requires
        op is OpenPosition,
    ensures
        decode(encode(op)) == Some(op),
{
    let bytes = encode(op);
    match op {
        OperationKind::OpenPosition {
            side,
            collateral,
            instance_index,
            leverage,
            predicted_entry_price,
            maximum_slippage_margin,
        } => {
            let a = seq![3u8, side_byte(side)];
            let b = a + u64_le(collateral) + seq![instance_index];
            let c = b + u64_le(leverage);
            let d = c + u64_le(predicted_entry_price);
            let empty = Seq::<u8>::empty();
            assert(bytes =~= a + u64_le(collateral) + (seq![instance_index] + u64_le(leverage)
                + u64_le(predicted_entry_price) + u64_le(maximum_slippage_margin)));
            lemma_u64_round_trip(
                a,
                collateral,
                seq![instance_index] + u64_le(leverage) + u64_le(predicted_entry_price) + u64_le(
                    maximum_slippage_margin,
                ),
            );
            assert(bytes =~= b + u64_le(leverage) + (u64_le(predicted_entry_price) + u64_le(
                maximum_slippage_margin,
            )));
            lemma_u64_round_trip(
                b,
                leverage,
                u64_le(predicted_entry_price) + u64_le(maximum_slippage_margin),
            );
            assert(bytes =~= c + u64_le(predicted_entry_price) + u64_le(maximum_slippage_margin));
            lemma_u64_round_trip(c, predicted_entry_price, u64_le(maximum_slippage_margin));
            assert(bytes =~= d + u64_le(maximum_slippage_margin) + empty);
            lemma_u64_round_trip(d, maximum_slippage_margin, empty);
            assert(bytes[0] == 3);
            assert(bytes[1] == side_byte(side));
            assert(bytes[10] == instance_index);
            assert(bytes.len() == 35);
        },
        _ => {},
    }
}

/// An increase of a position is read back from its payload.
proof fn lemma_decode_encode_increase_position(op: OperationKind)
    requires
        op is IncreasePosition,
    ensures
        decode(encode(op)) == Some(op),
{
    let bytes = encode(op);
    match op {
        OperationKind::IncreasePosition {
            add_collateral,
            instance_index,
            leverage,
            position_index,
            predicted_entry_price,
            maximum_slippage_margin,
        } => {
            let a = seq![6u8];
            let b = a + u64_le(add_collateral) + seq![instance_index];
            let c = b + u64_le(leverage);
            let d = c + u16_le(position_index);
            let e = d + u64_le(predicted_entry_price);
            let empty = Seq::<u8>::empty();
            assert(bytes =~= a + u64_le(add_collateral) + (seq![instance_index] + u64_le(leverage)
                + u16_le(position_index) + u64_le(predicted_entry_price) + u64_le(
                maximum_slippage_margin,
            )));
            lemma_u64_round_trip(
                a,
                add_collateral,
                seq![instance_index] + u64_le(leverage) + u16_le(position_index) + u64_le(
                    predicted_entry_price,
                ) + u64_le(maximum_slippage_margin),
            );
            assert(bytes =~= b + u64_le(leverage) + (u16_le(position_index) + u64_le(
                predicted_entry_price,
            ) + u64_le(maximum_slippage_margin)));
            lemma_u64_round_trip(
                b,
                leverage,
                u16_le(position_index) + u64_le(predicted_entry_price) + u64_le(
                    maximum_slippage_margin,
                ),
            );
            assert(bytes =~= c + u16_le(position_index) + (u64_le(predicted_entry_price) + u64_le(
                maximum_slippage_margin,
            )));
            lemma_u16_round_trip(
                c,
                position_index,
                u64_le(predicted_entry_price) + u64_le(maximum_slippage_margin),
            );
            assert(bytes =~= d + u64_le(predicted_entry_price) + u64_le(maximum_slippage_margin));
            lemma_u64_round_trip(d, predicted_entry_price, u64_le(maximum_slippage_margin));
            assert(bytes =~= e + u64_le(maximum_slippage_margin) + empty);
            lemma_u64_round_trip(e, maximum_slippage_margin, empty);
            assert(bytes[0] == 6);
            assert(bytes[9] == instance_index);
            assert(bytes.len() == 36);
        },
        _ => {},
    }
}

/// A closing of a position is read back from its payload.
proof fn lemma_decode_encode_close_position(op: OperationKind)
    requires
        op is ClosePosition,
    ensures
        decode(encode(op)) == Some(op),
{
    let bytes = encode(op);
    match op {
        OperationKind::ClosePosition {
            position_index,
            closing_collateral,
            closing_v_coin,
            predicted_entry_price,
            maximum_slippage_margin,
        } => {
            let a = seq![7u8];
            let b = a + u16_le(position_index);
            let c = b + u64_le(closing_collateral);
            let d = c + u64_le(closing_v_coin);
            let e = d + u64_le(predicted_entry_price);
            let empty = Seq::<u8>::empty();
            assert(bytes =~= a + u16_le(position_index) + (u64_le(closing_collateral) + u64_le(
                closing_v_coin,
            ) + u64_le(predicted_entry_price) + u64_le(maximum_slippage_margin)));
            lemma_u16_round_trip(
                a,
                position_index,
                u64_le(closing_collateral) + u64_le(closing_v_coin) + u64_le(
                    predicted_entry_price,
                ) + u64_le(maximum_slippage_margin),
            );
            assert(bytes =~= b + u64_le(closing_collateral) + (u64_le(closing_v_coin) + u64_le(
                predicted_entry_price,
            ) + u64_le(maximum_slippage_margin)));
            lemma_u64_round_trip(
                b,
                closing_collateral,
                u64_le(closing_v_coin) + u64_le(predicted_entry_price) + u64_le(
                    maximum_slippage_margin,
                ),
            );
            assert(bytes =~= c + u64_le(closing_v_coin) + (u64_le(predicted_entry_price) + u64_le(
                maximum_slippage_margin,
            )));
            lemma_u64_round_trip(
                c,
                closing_v_coin,
                u64_le(predicted_entry_price) + u64_le(maximum_slippage_margin),
            );
            assert(bytes =~= d + u64_le(predicted_entry_price) + u64_le(maximum_slippage_margin));
            lemma_u64_round_trip(d, predicted_entry_price, u64_le(maximum_slippage_margin));
            assert(bytes =~= e + u64_le(maximum_slippage_margin) + empty);
            lemma_u64_round_trip(e, maximum_slippage_margin, empty);
            assert(bytes[0] == 7);
            assert(bytes.len() == 35);
        },
        _ => {},
    }
}

/// An operation without arguments is read back from its one byte.
proof fn lemma_decode_encode_bare(op: OperationKind)
    requires
        op is AddInstance || op is UpdateOracleAccount || op is CrankFunding || op is CloseAccount
            || op is TransferUserAccount,
    ensures
        decode(encode(op)) == Some(op),
{
    assert(encode(op) =~= seq![op.discriminant()]);
}

/// An operation on an instance alone is read back from its two bytes.
proof fn lemma_decode_encode_instance(op: OperationKind)
    requires
        op is CrankLiquidation || op is FundingExtraction || op is AddPage,
    ensures
        decode(encode(op)) == Some(op),
{
    let bytes = encode(op);
    assert(bytes.len() == 2);
    assert(bytes[0] == op.discriminant());
}

/// An operation with one amount is read back from its payload.
proof fn lemma_decode_encode_amount(op: OperationKind)
    requires
        op is AddBudget || op is WithdrawBudget || op is ChangeK,
    ensures
        decode(encode(op)) == Some(op),
{
    let bytes = encode(op);
    let empty = Seq::<u8>::empty();
    let amount = match op {
        OperationKind::AddBudget { amount } => amount,
        OperationKind::WithdrawBudget { amount } => amount,
        OperationKind::ChangeK { factor } => factor,
        _ => 0,
    };
    assert(bytes =~= seq![op.discriminant()] + u64_le(amount) + empty);
    lemma_u64_round_trip(seq![op.discriminant()], amount, empty);
}

/// A garbage collection, a rebalancing and a transfer of a position are read
/// back from their payloads.
proof fn lemma_decode_encode_mixed(op: OperationKind)
    requires
        op is CollectGarbage || op is Rebalance || op is TransferPosition,
    ensures
        decode(encode(op)) == Some(op),
{
    let bytes = encode(op);
    let empty = Seq::<u8>::empty();
    match op {
        OperationKind::CollectGarbage { instance_index, max_iterations } => {
            assert(bytes =~= seq![8u8, instance_index] + u64_le(max_iterations) + empty);
            lemma_u64_round_trip(seq![8u8, instance_index], max_iterations, empty);
        },
        OperationKind::Rebalance { collateral, instance_index } => {
            assert(bytes =~= seq![15u8] + u64_le(collateral) + seq![instance_index]);
            lemma_u64_round_trip(seq![15u8], collateral, seq![instance_index]);
            assert(bytes[9] == instance_index);
        },
        OperationKind::TransferPosition { position_index } => {
            assert(bytes =~= seq![17u8] + u16_le(position_index) + empty);
            lemma_u16_round_trip(seq![17u8], position_index, empty);
        },
        _ => {},
    }
}

/// Decoding inverts encoding: the payload of an operation spells that
/// operation and no other. It holds of every operation that has a payload,
/// that is of all but a market creation with a symbol too long for its
/// length prefix.
pub proof fn lemma_decode_encode(op: OperationKind)
    requires
        op.encodable(),
    ensures
        decode(encode(op)) == Some(op),
{
    match op {
        OperationKind::CreateMarket { .. } => {
            lemma_decode_encode_create_market(op);
        },
        OperationKind::OpenPosition { .. } => {
            lemma_decode_encode_open_position(op);
        },
        OperationKind::IncreasePosition { .. } => {
            lemma_decode_encode_increase_position(op);
        },
        OperationKind::ClosePosition { .. } => {
            lemma_decode_encode_close_position(op);
        },
        OperationKind::AddBudget { .. }
        | OperationKind::WithdrawBudget { .. }
        | OperationKind::ChangeK { .. } => {
            lemma_decode_encode_amount(op);
        },
        OperationKind::CollectGarbage { .. }
        | OperationKind::Rebalance { .. }
        | OperationKind::TransferPosition { .. } => {
            lemma_decode_encode_mixed(op);
        },
        OperationKind::CrankLiquidation { .. }
        | OperationKind::FundingExtraction { .. }
        | OperationKind::AddPage { .. } => {
            lemma_decode_encode_instance(op);
        },
        OperationKind::AddInstance
        | OperationKind::UpdateOracleAccount
        | OperationKind::CrankFunding
        | OperationKind::CloseAccount
        | OperationKind::TransferUserAccount => {
            lemma_decode_encode_bare(op);
        },
    }
}

/// Two operations with the same payload are the same operation.
pub proof fn lemma_encode_injective(a: OperationKind, b: OperationKind)
    requires
        a.encodable(),
        b.encodable(),
        encode(a) == encode(b),
    ensures
        a == b,
{
    lemma_decode_encode(a);
    lemma_decode_encode(b);
}

/// The first byte of a payload names the kind of its operation.
pub proof fn lemma_payload_starts_with_discriminant(op: OperationKind)
    ensures
        encode(op).len() >= 1,
        encode(op)[0] == op.discriminant(),
{
}

impl PerpInstruction {
    /// The byte that names the kind of this operation.
    pub fn discriminant(&self) -> (byte: u8)
        ensures
            byte == self@.discriminant(),
    {
        match self {
            PerpInstruction::CreateMarket { .. } => 0,
            PerpInstruction::AddInstance => 1,
            PerpInstruction::UpdateOracleAccount => 2,
            PerpInstruction::OpenPosition { .. } => 3,
            PerpInstruction::AddBudget { .. } => 4,
            PerpInstruction::WithdrawBudget { .. } => 5,
            PerpInstruction::IncreasePosition { .. } => 6,
            PerpInstruction::ClosePosition { .. } => 7,
            PerpInstruction::CollectGarbage { .. } => 8,
            PerpInstruction::CrankLiquidation { .. } => 9,
            PerpInstruction::CrankFunding => 10,
            PerpInstruction::FundingExtraction { .. } => 11,
            PerpInstruction::ChangeK { .. } => 12,
            PerpInstruction::CloseAccount => 13,
            PerpInstruction::AddPage { .. } => 14,
            PerpInstruction::Rebalance { .. } => 15,
            PerpInstruction::TransferUserAccount => 16,
            PerpInstruction::TransferPosition { .. } => 17,
        }
    }

    /// The payload of an operation that has one. Encoding fails for no such
    /// operation, so the second arm below is never taken.
    pub(crate) fn to_vec(&self) -> (bytes: Vec<u8>)
        requires
            self@.encodable(),
        ensures
            bytes@ == encode(self@),
    {
        match self.try_to_vec() {
            Ok(bytes) => bytes,
            Err(_) => Vec::new(),
        }
    }

    /// The market creation that a payload spells, or `None` where it spells
    /// none.
    fn create_market_from_slice(data: &[u8]) -> (op: Option<PerpInstruction>)
        ensures
            op is Some <==> decode_create_market(data@) is Some,
            op matches Some(v) ==> decode_create_market(data@) == Some(v@),
    {
        let len = data.len();
        if len < 16 {
            return None;
        }
        let text_len = get_u32(data, 2) as usize;
        if len - 16 != text_len {
            return None;
        }
        let end = 6 + text_len;
        match get_text(data, 6, end) {
            Some(market_symbol) => Some(
                PerpInstruction::CreateMarket {
                    signer_nonce: data[1],
                    market_symbol,
                    initial_v_pc_amount: get_u64(data, end),
                    coin_decimals: data[end + 8],
                    quote_decimals: data[end + 9],
                },
            ),
            None => None,
        }
    }

    /// The operation that a payload spells, or `None` where it spells none:
    /// where the first byte names no kind, a side byte is above 1, a symbol is
    /// not well-formed UTF-8, or the length is not that of the kind's
    /// arguments.
    pub fn try_from_slice(data: &[u8]) -> (op: Option<PerpInstruction>)
        ensures
            op is Some <==> decode(data@) is Some,
            op matches Some(v) ==> decode(data@) == Some(v@),
    {
        let len = data.len();
        if len == 0 {
            return None;
        }
        let kind = data[0];
        if kind == 0 {
            Self::create_market_from_slice(data)
        } else if kind == 1 && len == 1 {
            Some(PerpInstruction::AddInstance)
        } else if kind == 2 && len == 1 {
            Some(PerpInstruction::UpdateOracleAccount)
        } else if kind == 3 && len == 35 {
            match PositionType::from_byte(data[1]) {
                Some(side) => Some(
                    PerpInstruction::OpenPosition {
                        side,
                        collateral: get_u64(data, 2),
                        instance_index: data[10],
                        leverage: get_u64(data, 11),
                        predicted_entry_price: get_u64(data, 19),
                        maximum_slippage_margin: get_u64(data, 27),
                    },
                ),
                None => None,
            }
        } else if kind == 4 && len == 9 {
            Some(PerpInstruction::AddBudget { amount: get_u64(data, 1) })
        } else if kind == 5 && len == 9 {
            Some(PerpInstruction::WithdrawBudget { amount: get_u64(data, 1) })
        } else if kind == 6 && len == 36 {
            Some(
                PerpInstruction::IncreasePosition {
                    add_collateral: get_u64(data, 1),
                    instance_index: data[9],
                    leverage: get_u64(data, 10),
                    position_index: get_u16(data, 18),
                    predicted_entry_price: get_u64(data, 20),
                    maximum_slippage_margin: get_u64(data, 28),
                },
            )
        } else if kind == 7 && len == 35 {
            Some(
                PerpInstruction::ClosePosition {
                    position_index: get_u16(data, 1),
                    closing_collateral: get_u64(data, 3),
                    closing_v_coin: get_u64(data, 11),
                    predicted_entry_price: get_u64(data, 19),
                    maximum_slippage_margin: get_u64(data, 27),
                },
            )
        } else if kind == 8 && len == 10 {
            Some(
                PerpInstruction::CollectGarbage {
                    instance_index: data[1],
                    max_iterations: get_u64(data, 2),
                },
            )
        } else if kind == 9 && len == 2 {
            Some(PerpInstruction::CrankLiquidation { instance_index: data[1] })
        } else if kind == 10 && len == 1 {
            Some(PerpInstruction::CrankFunding)
        } else if kind == 11 && len == 2 {
            Some(PerpInstruction::FundingExtraction { instance_index: data[1] })
        } else if kind == 12 && len == 9 {
            Some(PerpInstruction::ChangeK { factor: get_u64(data, 1) })
        } else if kind == 13 && len == 1 {
            Some(PerpInstruction::CloseAccount)
        } else if kind == 14 && len == 2 {
            Some(PerpInstruction::AddPage { instance_index: data[1] })
        } else if kind == 15 && len == 10 {
            Some(
                PerpInstruction::Rebalance {
                    collateral: get_u64(data, 1),
                    instance_index: data[9],
                },
            )
        } else if kind == 16 && len == 1 {
            Some(PerpInstruction::TransferUserAccount)
        } else if kind == 17 && len == 3 {
            Some(PerpInstruction::TransferPosition { position_index: get_u16(data, 1) })
        } else {
            None
        }
    }

    /// The payload of this operation. It fails for one input only: a market
    /// creation whose symbol is longer than `u32::MAX` bytes.
    pub fn try_to_vec(&self) -> (payload: Result<Vec<u8>, RequestError>)
        ensures
            payload is Ok <==> self@.encodable(),
            payload matches Ok(bytes) ==> bytes@ == encode(self@),
            payload matches Err(e) ==> e == RequestError::EncodingError,
    {
        let mut out: Vec<u8> = Vec::new();
        put_u8(&mut out, self.discriminant());
        match self {
            PerpInstruction::CreateMarket {
                signer_nonce,
                market_symbol,
                initial_v_pc_amount,
                coin_decimals,
                quote_decimals,
            } => {
                put_u8(&mut out, *signer_nonce);
                if !put_text(&mut out, market_symbol.as_str()) {
                    return Err(RequestError::EncodingError);
                }
                put_u64(&mut out, *initial_v_pc_amount);
                put_u8(&mut out, *coin_decimals);
                put_u8(&mut out, *quote_decimals);
            },
            PerpInstruction::OpenPosition {
                side,
                collateral,
                instance_index,
                leverage,
                predicted_entry_price,
                maximum_slippage_margin,
            } => {
                put_u8(&mut out, side.to_byte());
                put_u64(&mut out, *collateral);
                put_u8(&mut out, *instance_index);
                put_u64(&mut out, *leverage);
                put_u64(&mut out, *predicted_entry_price);
                put_u64(&mut out, *maximum_slippage_margin);
            },
            PerpInstruction::AddBudget { amount } => {
                put_u64(&mut out, *amount);
            },
            PerpInstruction::WithdrawBudget { amount } => {
                put_u64(&mut out, *amount);
            },
            PerpInstruction::IncreasePosition {
                add_collateral,
                instance_index,
                leverage,
                position_index,
                predicted_entry_price,
                maximum_slippage_margin,
            } => {
                put_u64(&mut out, *add_collateral);
                put_u8(&mut out, *instance_index);
                put_u64(&mut out, *leverage);
                put_u16(&mut out, *position_index);
                put_u64(&mut out, *predicted_entry_price);
                put_u64(&mut out, *maximum_slippage_margin);
            },
            PerpInstruction::ClosePosition {
                position_index,
                closing_collateral,
                closing_v_coin,
                predicted_entry_price,
                maximum_slippage_margin,
            } => {
                put_u16(&mut out, *position_index);
                put_u64(&mut out, *closing_collateral);
                put_u64(&mut out, *closing_v_coin);
                put_u64(&mut out, *predicted_entry_price);
                put_u64(&mut out, *maximum_slippage_margin);
            },
            PerpInstruction::CollectGarbage { instance_index, max_iterations } => {
                put_u8(&mut out, *instance_index);
                put_u64(&mut out, *max_iterations);
            },
            PerpInstruction::CrankLiquidation { instance_index } => {
                put_u8(&mut out, *instance_index);
            },
            PerpInstruction::FundingExtraction { instance_index } => {
                put_u8(&mut out, *instance_index);
            },
            PerpInstruction::ChangeK { factor } => {
                put_u64(&mut out, *factor);
            },
            PerpInstruction::AddPage { instance_index } => {
                put_u8(&mut out, *instance_index);
            },
            PerpInstruction::Rebalance { collateral, instance_index } => {
                put_u64(&mut out, *collateral);
                put_u8(&mut out, *instance_index);
            },
            PerpInstruction::TransferPosition { position_index } => {
                put_u16(&mut out, *position_index);
            },
            PerpInstruction::AddInstance
            | PerpInstruction::UpdateOracleAccount
            | PerpInstruction::CrankFunding
            | PerpInstruction::CloseAccount
            | PerpInstruction::TransferUserAccount => {},
        }
        assert(out@ =~= encode(self@));
        Ok(out)
    }
}

} // verus!
