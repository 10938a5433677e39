//! Account identities, and the identities that are fixed by a well-known
//! base58 text rather than supplied by the caller.

use std::str::FromStr;
use vstd::prelude::*;

verus! {

/// The identity of an account: 32 bytes that this library never looks into.
#[derive(Clone, Copy, Debug, PartialEq, Eq, Hash)]
pub struct Pubkey {
    pub bytes: [u8; 32],
}

impl Pubkey {
    /// The identity made of the given bytes.
    pub fn new_from_array(bytes: [u8; 32]) -> (key: Pubkey)
        ensures
            key.bytes == bytes,
    {
        Pubkey { bytes }
    }

    /// The bytes of the identity.
    pub fn to_bytes(&self) -> (bytes: [u8; 32])
        ensures
            bytes == self.bytes,
    {
        self.bytes
    }
}

/// The base58 text of the token program's identity.
pub const TOKEN_PROGRAM_ADDRESS: &'static str = "TokenkegQfeZyiNwAJbNbGKPFXCWuBvf9Ss623VQ5DA";

/// The base58 text of the clock sysvar's identity.
pub const CLOCK_SYSVAR_ADDRESS: &'static str = "SysvarC1ock11111111111111111111111111111111";

/// The base58 text of the label of trades.
pub const TRADE_LABEL: &'static str = "TradeRecord11111111111111111111111111111111";

/// The base58 text of the label of liquidations.
pub const LIQUIDATION_LABEL: &'static str = "LiquidationRecord11111111111111111111111111";

/// The base58 text of the label of funding cranks.
pub const FUNDING_LABEL: &'static str = "FundingRecord1111111111111111111111111111111";

/// The base58 text of the label of funding extractions.
pub const FUNDING_EXTRACTION_LABEL: &'static str = "FundingExtraction111111111111111111111111111";

/// What `Pubkey::from_str` of `solana_program` makes of a text: the identity
/// that the text encodes in base58, or `None` where the text is no base58
/// encoding of exactly 32 bytes.
pub uninterp spec fn base58_pubkey(text: Seq<char>) -> Option<Pubkey>;

/// Calls `<solana_program::pubkey::Pubkey as FromStr>::from_str`, which
/// decodes base58 text of at most 44 characters into 32 bytes and depends on
/// nothing but the text. The contract gives that result a name and claims
/// nothing else of it: an error of either kind becomes `None`.
#[verifier::external_body]
fn parse_pubkey(text: &str) -> (key: Option<Pubkey>)
    ensures
        key == base58_pubkey(text@),
{
    match solana_program::pubkey::Pubkey::from_str(text) {
        Ok(parsed) => Some(Pubkey { bytes: parsed.to_bytes() }),
        Err(_) => None,
    }
}

/// Calls `spl_token::id`, the identity that `spl_token` declares with
/// `declare_id!` from the text [`TOKEN_PROGRAM_ADDRESS`]. The macro's
/// documentation equates what `id` returns with what `from_str` makes of the
/// same text, and the contract claims that.
#[verifier::external_body]
fn token_program_id() -> (key: Pubkey)
    ensures
        base58_pubkey(TOKEN_PROGRAM_ADDRESS@) == Some(key),
{
    Pubkey { bytes: spl_token::id().to_bytes() }
}

/// Calls `solana_program::sysvar::clock::id`, the identity declared with
/// `declare_id!` from the text [`CLOCK_SYSVAR_ADDRESS`]; the contract
/// claims of it what the one of `token_program_id` claims.
#[verifier::external_body]
fn clock_sysvar_id() -> (key: Pubkey)
    ensures
        base58_pubkey(CLOCK_SYSVAR_ADDRESS@) == Some(key),
{
    Pubkey { bytes: solana_program::sysvar::clock::id().to_bytes() }
}

/// The identities that no caller supplies: two programs of the ledger and
/// four labels, each fixed by a well-known base58 text. A table is resolved
/// once and handed to every construction that needs one of them.
#[derive(Clone, Copy, Debug, PartialEq, Eq)]
pub struct ConstantAccounts {
    /// The token program.
    pub token_program: Pubkey,
    /// The clock sysvar.
    pub clock: Pubkey,
    /// The label of trades.
    pub trade_label: Pubkey,
    /// The label of liquidations.
    pub liquidation_label: Pubkey,
    /// The label of funding cranks.
    pub funding_label: Pubkey,
    /// The label of funding extractions.
    pub funding_extraction_label: Pubkey,
}

impl ConstantAccounts {
    /// The table of two programs and four parsed labels: it exists where
    /// every label was parsed.
    pub open spec fn assembled(
        token_program: Pubkey,
        clock: Pubkey,
        trade_label: Option<Pubkey>,
        liquidation_label: Option<Pubkey>,
        funding_label: Option<Pubkey>,
        funding_extraction_label: Option<Pubkey>,
    ) -> Option<ConstantAccounts> {
        if trade_label is Some && liquidation_label is Some && funding_label is Some
            && funding_extraction_label is Some {
            Some(
                ConstantAccounts {
                    token_program,
                    clock,
                    trade_label: trade_label->0,
                    liquidation_label: liquidation_label->0,
                    funding_label: funding_label->0,
                    funding_extraction_label: funding_extraction_label->0,
                },
            )
        } else {
            None
        }
    }

    /// The table whose labels are what their four texts encode in base58.
    pub open spec fn resolved() -> Option<ConstantAccounts> {
        Self::assembled(
            base58_pubkey(TOKEN_PROGRAM_ADDRESS@)->0,
            base58_pubkey(CLOCK_SYSVAR_ADDRESS@)->0,
            base58_pubkey(TRADE_LABEL@),
            base58_pubkey(LIQUIDATION_LABEL@),
            base58_pubkey(FUNDING_LABEL@),
            base58_pubkey(FUNDING_EXTRACTION_LABEL@),
        )
    }

    /// Builds the table from two programs and four parsed labels, or gives
    /// `None` where a label is missing.
    pub fn from_parsed(
        token_program: Pubkey,
        clock: Pubkey,
        trade_label: Option<Pubkey>,
        liquidation_label: Option<Pubkey>,
        funding_label: Option<Pubkey>,
        funding_extraction_label: Option<Pubkey>,
    ) -> (table: Option<ConstantAccounts>)
        ensures
            table == Self::assembled(
                token_program,
                clock,
                trade_label,
                liquidation_label,
                funding_label,
                funding_extraction_label,
            ),
    {
        match (trade_label, liquidation_label, funding_label, funding_extraction_label) {
            (
                Some(trade_label),
                Some(liquidation_label),
                Some(funding_label),
                Some(funding_extraction_label),
            ) => Some(
                ConstantAccounts {
                    token_program,
                    clock,
                    trade_label,
                    liquidation_label,
                    funding_label,
                    funding_extraction_label,
                },
            ),
            _ => None,
        }
    }

    /// Resolves the table: asks the token program and the clock sysvar for
    /// their identities and parses the four label texts.
    pub fn resolve() -> (table: Option<ConstantAccounts>)
        ensures
            table == Self::resolved(),
    {
        Self::from_parsed(
            token_program_id(),
            clock_sysvar_id(),
            parse_pubkey(TRADE_LABEL),
            parse_pubkey(LIQUIDATION_LABEL),
            parse_pubkey(FUNDING_LABEL),
            parse_pubkey(FUNDING_EXTRACTION_LABEL),
        )
    }
}

} // verus!
