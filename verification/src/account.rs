//! Account references, the request that carries them, and the segments that
//! an account list is put together from.

use crate::context::DiscountAccount;
use crate::pubkey::Pubkey;
use vstd::prelude::*;

verus! {

/// A reference to an account: its identity, whether the request must be
/// signed for it, and whether the engine may write to it.
#[derive(Clone, Copy, Debug, PartialEq, Eq)]
pub struct AccountMeta {
    pub pubkey: Pubkey,
    pub is_signer: bool,
    pub is_writable: bool,
}

/// A reference to an account that the engine may write to.
pub open spec fn writable(pubkey: Pubkey, is_signer: bool) -> AccountMeta {
    AccountMeta { pubkey, is_signer, is_writable: true }
}

/// A reference to an account that the engine only reads.
pub open spec fn readonly(pubkey: Pubkey, is_signer: bool) -> AccountMeta {
    AccountMeta { pubkey, is_signer, is_writable: false }
}

impl AccountMeta {
    /// A reference to an account that the engine may write to.
    pub fn new(pubkey: Pubkey, is_signer: bool) -> (meta: AccountMeta)
        ensures
            meta == writable(pubkey, is_signer),
    {
        AccountMeta { pubkey, is_signer, is_writable: true }
    }

    /// A reference to an account that the engine only reads.
    pub fn new_readonly(pubkey: Pubkey, is_signer: bool) -> (meta: AccountMeta)
        ensures
            meta == readonly(pubkey, is_signer),
    {
        AccountMeta { pubkey, is_signer, is_writable: false }
    }
}

/// A request: the program it is for, the accounts it refers to, in the
/// order in which the engine reads them, and the payload.
#[derive(Clone, Debug, PartialEq, Eq)]
pub struct Instruction {
    pub program_id: Pubkey,
    pub accounts: Vec<AccountMeta>,
    pub data: Vec<u8>,
}

/// What an [`Instruction`] stands for: the program, the sequence of account
/// references and the sequence of payload bytes.
pub struct InstructionView {
    pub program_id: Pubkey,
    pub accounts: Seq<AccountMeta>,
    pub data: Seq<u8>,
}

impl View for Instruction {
    type V = InstructionView;

    open spec fn view(&self) -> InstructionView {
        InstructionView { program_id: self.program_id, accounts: self.accounts@, data: self.data@ }
    }
}

/// The paged segment: one writable reference for each page, in the order of
/// the pages.
pub open spec fn page_accounts(pages: Seq<Pubkey>) -> Seq<AccountMeta> {
    Seq::new(pages.len(), |i: int| writable(pages[i], false))
}

/// The discount segment: nothing without a discount account, else its
/// address and then its owner, who signs.
pub open spec fn discount_accounts(discount: Option<&DiscountAccount>) -> Seq<AccountMeta> {
    match discount {
        Some(d) => seq![readonly(d.address, false), readonly(d.owner, true)],
        None => Seq::empty(),
    }
}

/// The referral segment: nothing without a referrer, else the referrer's
/// account, which the engine pays into.
pub open spec fn referral_accounts(referrer: Option<Pubkey>) -> Seq<AccountMeta> {
    match referrer {
        Some(r) => seq![writable(r, false)],
        None => Seq::empty(),
    }
}

/// The optional segments: the discount segment, then the referral segment.
pub open spec fn optional_accounts(
    discount: Option<&DiscountAccount>,
    referrer: Option<Pubkey>,
) -> Seq<AccountMeta> {
    discount_accounts(discount) + referral_accounts(referrer)
}

/// Whether an account list holds, behind its first `start` references, one
/// writable reference for each page, in the order of the pages, and then
/// exactly the references of `rest`.
pub open spec fn segments_from(
    accounts: Seq<AccountMeta>,
    start: int,
    pages: Seq<Pubkey>,
    rest: Seq<AccountMeta>,
) -> bool {
    &&& accounts.len() == start + pages.len() + rest.len()
    &&& accounts.subrange(start, start + pages.len()) =~= page_accounts(pages)
    &&& accounts.skip(start + pages.len()) =~= rest
}

/// Appends the paged segment.
pub fn push_pages(accounts: &mut Vec<AccountMeta>, pages: &[Pubkey])
    ensures
        final(accounts)@ == old(accounts)@ + page_accounts(pages@),
{
    let count = pages.len();
    let mut i: usize = 0;
    while i < count
        invariant
            count == pages@.len(),
            i <= count,
            accounts@ == old(accounts)@ + page_accounts(pages@.subrange(0, i as int)),
        decreases count - i,
    {
        accounts.push(AccountMeta::new(pages[i], false));
        i += 1;
    }
    assert(pages@.subrange(0, count as int) =~= pages@);
}

/// Appends the optional segments: the discount pair first, where there is
/// one, then the referrer's account, where there is one.
pub fn push_optional(
    accounts: &mut Vec<AccountMeta>,
    discount: Option<&DiscountAccount>,
    referrer: Option<Pubkey>,
)
    ensures
        final(accounts)@ == old(accounts)@ + optional_accounts(discount, referrer),
{
    if let Some(d) = discount {
        accounts.push(AccountMeta::new_readonly(d.address, false));
        accounts.push(AccountMeta::new_readonly(d.owner, true));
    }
    if let Some(referrer_account) = referrer {
        accounts.push(AccountMeta::new(referrer_account, false));
    }
}

/// The paged segment has one writable reference for each page, none of them
/// a signer, in the order of the pages.
pub proof fn lemma_page_accounts(pages: Seq<Pubkey>)
    ensures
        page_accounts(pages).len() == pages.len(),
        forall|i: int|
            0 <= i < pages.len() ==> #[trigger] page_accounts(pages)[i] == (AccountMeta {
                pubkey: pages[i],
                is_signer: false,
                is_writable: true,
            }),
{
}

/// The optional segments hold no reference, the discount pair, the referrer,
/// or the pair and then the referrer: 0, 2, 1 or 3 references.
pub proof fn lemma_optional_accounts(discount: Option<&DiscountAccount>, referrer: Option<Pubkey>)
    ensures
        optional_accounts(discount, referrer).len() == (if discount is Some {
            2int
        } else {
            0int
        }) + (if referrer is Some {
            1int
        } else {
            0int
        }),
        discount matches Some(d) ==> optional_accounts(discount, referrer)[0] == readonly(
            d.address,
            false,
        ) && optional_accounts(discount, referrer)[1] == readonly(d.owner, true),
        referrer matches Some(r) ==> optional_accounts(discount, referrer).last() == writable(
            r,
            false,
        ),
{
}

} // verus!
