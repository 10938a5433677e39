use audaces_protocol::account::{push_optional, push_pages, AccountMeta, Instruction};
use audaces_protocol::context::{
    CloseOrOpen, DiscountAccount, InstanceContext, MarketContext, PositionInfo,
};
use audaces_protocol::instruction::{
    add_budget, add_instance, add_page, change_k, close_account, close_position, collect_garbage,
    crank_funding, crank_liquidation, create_market, extract_funding, increase_position,
    open_position, rebalance, transfer_position, transfer_user_account, update_oracle_account,
    withdraw_budget,
};
use audaces_protocol::pubkey::{ConstantAccounts, Pubkey};
use audaces_protocol::schema::{PerpInstruction, PositionType};
use audaces_protocol::RequestError;

fn key(n: u8) -> Pubkey {
    Pubkey::new_from_array([n; 32])
}

fn ro(k: Pubkey) -> AccountMeta {
    AccountMeta { pubkey: k, is_signer: false, is_writable: false }
}

fn ro_signer(k: Pubkey) -> AccountMeta {
    AccountMeta { pubkey: k, is_signer: true, is_writable: false }
}

fn rw(k: Pubkey) -> AccountMeta {
    AccountMeta { pubkey: k, is_signer: false, is_writable: true }
}

fn rw_signer(k: Pubkey) -> AccountMeta {
    AccountMeta { pubkey: k, is_signer: true, is_writable: true }
}

const PROGRAM: u8 = 1;
const MARKET_SIGNER: u8 = 2;
const ORACLE: u8 = 3;
const MARKET: u8 = 4;
const ADMIN: u8 = 5;
const VAULT: u8 = 6;
const BNB: u8 = 7;
const TOKEN: u8 = 100;
const CLOCK: u8 = 101;
const TRADE: u8 = 102;
const LIQUIDATION: u8 = 103;
const FUNDING: u8 = 104;
const EXTRACTION: u8 = 105;

fn known() -> ConstantAccounts {
    ConstantAccounts {
        token_program: key(TOKEN),
        clock: key(CLOCK),
        trade_label: key(TRADE),
        liquidation_label: key(LIQUIDATION),
        funding_label: key(FUNDING),
        funding_extraction_label: key(EXTRACTION),
    }
}

/// A market whose instance `i` has the account `10 * (i + 1)` and the pages
/// `10 * (i + 1) + 1 ..`, as many as `pages[i]` says.
fn market(pages: &[u8]) -> MarketContext {
    let mut instances = Vec::new();
    for (i, n) in pages.iter().enumerate() {
        let base = 10 * (i as u8 + 1);
        let mut memory_pages = Vec::new();
        for p in 0..*n {
            memory_pages.push(key(base + 1 + p));
        }
        instances.push(InstanceContext { instance_account: key(base), memory_pages });
    }
    MarketContext {
        audaces_protocol_program_id: key(PROGRAM),
        signer_nonce: 253,
        market_signer_account: key(MARKET_SIGNER),
        oracle_account: key(ORACLE),
        market_account: key(MARKET),
        admin_account: key(ADMIN),
        market_vault: key(VAULT),
        bonfida_bnb: key(BNB),
        instances,
    }
}

fn position(instance_index: u8) -> PositionInfo {
    PositionInfo {
        user_account: key(200),
        user_account_owner: key(201),
        instance_index,
        side: PositionType::Long,
    }
}

fn pages_of(request: &Instruction, from: usize, count: usize) -> Vec<AccountMeta> {
    request.accounts[from..from + count].to_vec()
}

#[test]
fn collect_garbage_with_two_pages() {
    let ctx = market(&[2]);
    let target = key(210);
    let request = collect_garbage(&ctx, &known(), 0, 5, target).unwrap();
    assert_eq!(request.accounts.len(), 8);
    assert_eq!(request.data, vec![8, 0x00, 5, 0, 0, 0, 0, 0, 0, 0]);
    assert_eq!(request.program_id, key(PROGRAM));
    assert_eq!(
        request.accounts,
        vec![
            ro(key(TOKEN)),
            rw(key(MARKET)),
            rw(key(10)),
            rw(key(VAULT)),
            ro(key(MARKET_SIGNER)),
            rw(target),
            rw(key(11)),
            rw(key(12)),
        ]
    );
}

#[test]
fn collect_garbage_with_the_resolved_table() {
    let ctx = market(&[2]);
    let table = ConstantAccounts::resolve().unwrap();
    let request = collect_garbage(&ctx, &table, 0, 5, key(210)).unwrap();
    assert_eq!(request.accounts.len(), 6 + 2);
    assert_eq!(request.accounts[0], ro(table.token_program));
    assert_eq!(request.accounts[0].pubkey.to_bytes(), spl_token::id().to_bytes());
    assert_eq!(request.data, vec![8, 0, 5, 0, 0, 0, 0, 0, 0, 0]);
}

#[test]
fn open_position_fixed_accounts() {
    let ctx = market(&[1, 3]);
    let request =
        open_position(&ctx, &known(), &position(1), 1000, 5 << 32, 7, 8, None, None).unwrap();
    assert_eq!(
        request.accounts,
        vec![
            ro(key(TOKEN)),
            ro(key(CLOCK)),
            rw(key(MARKET)),
            rw(key(20)),
            ro(key(MARKET_SIGNER)),
            rw(key(VAULT)),
            rw(key(BNB)),
            ro_signer(key(201)),
            rw(key(200)),
            ro(key(TRADE)),
            ro(key(ORACLE)),
            rw(key(21)),
            rw(key(22)),
            rw(key(23)),
        ]
    );
    assert_eq!(request.program_id, key(PROGRAM));
    assert_eq!(
        request.data,
        PerpInstruction::OpenPosition {
            side: PositionType::Long,
            collateral: 1000,
            instance_index: 1,
            leverage: 5 << 32,
            predicted_entry_price: 7,
            maximum_slippage_margin: 8,
        }
        .try_to_vec()
        .unwrap()
    );
    assert_eq!(request.data[0], 3);
    assert_eq!(request.data[1], 1);
    assert_eq!(request.data[10], 1);
}

#[test]
fn open_position_optional_segments() {
    let ctx = market(&[2]);
    let discount = DiscountAccount { owner: key(220), address: key(221) };
    let referrer = key(222);
    let bare = open_position(&ctx, &known(), &position(0), 1, 2, 3, 4, None, None).unwrap();
    let with_discount =
        open_position(&ctx, &known(), &position(0), 1, 2, 3, 4, Some(&discount), None).unwrap();
    let with_referrer =
        open_position(&ctx, &known(), &position(0), 1, 2, 3, 4, None, Some(referrer)).unwrap();
    let with_both =
        open_position(&ctx, &known(), &position(0), 1, 2, 3, 4, Some(&discount), Some(referrer))
            .unwrap();
    let n = bare.accounts.len();
    assert_eq!(n, 11 + 2);
    assert_eq!(with_discount.accounts.len(), n + 2);
    assert_eq!(with_referrer.accounts.len(), n + 1);
    assert_eq!(with_both.accounts.len(), n + 3);
    for other in [&with_discount, &with_referrer, &with_both] {
        assert_eq!(other.accounts[..n], bare.accounts[..]);
        assert_eq!(other.data, bare.data);
        assert_eq!(other.program_id, bare.program_id);
    }
    assert_eq!(with_discount.accounts[n..], [ro(key(221)), ro_signer(key(220))]);
    assert_eq!(with_referrer.accounts[n..], [rw(referrer)]);
    assert_eq!(with_both.accounts[n..], [ro(key(221)), ro_signer(key(220)), rw(referrer)]);
}

#[test]
fn open_position_with_an_index_out_of_bounds() {
    let ctx = market(&[1, 1]);
    assert_eq!(
        open_position(&ctx, &known(), &position(2), 1, 2, 3, 4, None, None),
        Err(RequestError::InvalidInstanceIndex)
    );
    assert_eq!(
        open_position(&ctx, &known(), &position(255), 1, 2, 3, 4, None, Some(key(9))),
        Err(RequestError::InvalidInstanceIndex)
    );
    assert!(open_position(&ctx, &known(), &position(1), 1, 2, 3, 4, None, None).is_ok());
    let empty = market(&[]);
    assert_eq!(
        open_position(&empty, &known(), &position(0), 1, 2, 3, 4, None, None),
        Err(RequestError::InvalidInstanceIndex)
    );
}

#[test]
fn every_indexed_construction_checks_its_index() {
    let ctx = market(&[1]);
    let k = known();
    let bad = Err(RequestError::InvalidInstanceIndex);
    assert_eq!(increase_position(&ctx, &k, 1, 2, 1, 3, key(8), key(9), 4, 5, None, None), bad);
    assert_eq!(close_position(&ctx, &k, &position(1), 1, 2, 3, 4, 5, None, None), bad);
    assert_eq!(collect_garbage(&ctx, &k, 1, 5, key(9)), bad);
    assert_eq!(crank_liquidation(&ctx, &k, 1, key(9)), bad);
    assert_eq!(extract_funding(&ctx, &k, 1, key(9)), bad);
    assert_eq!(add_page(&ctx, 1, key(9)), bad);
    assert_eq!(rebalance(&ctx, &k, key(8), key(9), 1, 7), bad);
    assert!(increase_position(&ctx, &k, 1, 2, 0, 3, key(8), key(9), 4, 5, None, None).is_ok());
    assert!(close_position(&ctx, &k, &position(0), 1, 2, 3, 4, 5, None, None).is_ok());
    assert!(collect_garbage(&ctx, &k, 0, 5, key(9)).is_ok());
    assert!(crank_liquidation(&ctx, &k, 0, key(9)).is_ok());
    assert!(extract_funding(&ctx, &k, 0, key(9)).is_ok());
    assert!(add_page(&ctx, 0, key(9)).is_ok());
    assert!(rebalance(&ctx, &k, key(8), key(9), 0, 7).is_ok());
}

#[test]
fn the_checked_accessor_finds_instances_and_nothing_else() {
    let ctx = market(&[0, 2]);
    assert_eq!(ctx.instance(0).unwrap().instance_account, key(10));
    assert_eq!(ctx.instance(1).unwrap().memory_pages, vec![key(21), key(22)]);
    assert_eq!(ctx.instance(2), Err(RequestError::InvalidInstanceIndex));
    assert_eq!(market(&[]).instance(0), Err(RequestError::InvalidInstanceIndex));
}

#[test]
fn pages_fan_out_in_every_paged_construction() {
    for n in [0u8, 1, 2, 5] {
        let ctx = market(&[1, n]);
        let k = known();
        let pages: Vec<AccountMeta> = (0..n).map(|p| rw(key(21 + p))).collect();
        let count = n as usize;

        let r = open_position(&ctx, &k, &position(1), 1, 2, 3, 4, None, None).unwrap();
        assert_eq!(r.accounts.len(), 11 + count);
        assert_eq!(pages_of(&r, 11, count), pages);

        let r = increase_position(&ctx, &k, 1, 2, 1, 3, key(8), key(9), 4, 5, None, None).unwrap();
        assert_eq!(r.accounts.len(), 11 + count);
        assert_eq!(pages_of(&r, 11, count), pages);

        let r = close_position(&ctx, &k, &position(1), 1, 2, 3, 4, 5, None, None).unwrap();
        assert_eq!(r.accounts.len(), 11 + count);
        assert_eq!(pages_of(&r, 11, count), pages);

        let r = collect_garbage(&ctx, &k, 1, 5, key(9)).unwrap();
        assert_eq!(r.accounts.len(), 6 + count);
        assert_eq!(pages_of(&r, 6, count), pages);

        let r = crank_liquidation(&ctx, &k, 1, key(9)).unwrap();
        assert_eq!(r.accounts.len(), 9 + count);
        assert_eq!(pages_of(&r, 9, count), pages);

        let r = extract_funding(&ctx, &k, 1, key(9)).unwrap();
        assert_eq!(r.accounts.len(), 5 + count);
        assert_eq!(pages_of(&r, 5, count), pages);

        let r = rebalance(&ctx, &k, key(8), key(9), 1, 7).unwrap();
        assert_eq!(r.accounts.len(), 10 + count);
        assert_eq!(pages_of(&r, 10, count), pages);

        let given: Vec<Pubkey> = (0..n).map(|p| key(21 + p)).collect();
        let r = add_instance(&ctx, key(20), &given);
        assert_eq!(r.accounts.len(), 3 + count);
        assert_eq!(pages_of(&r, 3, count), pages);
    }
}

#[test]
fn constructions_are_the_same_on_every_call() {
    let ctx = market(&[2, 1]);
    let k = known();
    let d = DiscountAccount { owner: key(220), address: key(221) };
    assert_eq!(
        open_position(&ctx, &k, &position(0), 1, 2, 3, 4, Some(&d), Some(key(9))),
        open_position(&ctx, &k, &position(0), 1, 2, 3, 4, Some(&d), Some(key(9)))
    );
    assert_eq!(collect_garbage(&ctx, &k, 1, 5, key(9)), collect_garbage(&ctx, &k, 1, 5, key(9)));
    assert_eq!(
        create_market(&ctx, &k, String::from("BTC"), 1, 2, 3),
        create_market(&ctx, &k, String::from("BTC"), 1, 2, 3)
    );
    assert_eq!(crank_funding(&ctx, &k), crank_funding(&ctx, &k));
}

#[test]
fn increase_position_accounts() {
    let ctx = market(&[1, 2]);
    let d = DiscountAccount { owner: key(220), address: key(221) };
    let request =
        increase_position(&ctx, &known(), 50, 3 << 32, 1, 9, key(201), key(200), 7, 8, Some(&d), Some(key(222)))
            .unwrap();
    assert_eq!(
        request.accounts,
        vec![
            ro(key(TOKEN)),
            ro(key(CLOCK)),
            rw(key(MARKET)),
            ro(key(MARKET_SIGNER)),
            rw(key(VAULT)),
            rw(key(BNB)),
            rw(key(20)),
            ro_signer(key(201)),
            rw(key(200)),
            ro(key(TRADE)),
            ro(key(ORACLE)),
            rw(key(21)),
            rw(key(22)),
            ro(key(221)),
            ro_signer(key(220)),
            rw(key(222)),
        ]
    );
    assert_eq!(
        request.data,
        PerpInstruction::IncreasePosition {
            add_collateral: 50,
            instance_index: 1,
            leverage: 3 << 32,
            position_index: 9,
            predicted_entry_price: 7,
            maximum_slippage_margin: 8,
        }
        .try_to_vec()
        .unwrap()
    );
}

#[test]
fn close_position_accounts() {
    let ctx = market(&[2]);
    let request =
        close_position(&ctx, &known(), &position(0), 10, 20, 3, 7, 8, None, Some(key(222))).unwrap();
    assert_eq!(
        request.accounts,
        vec![
            ro(key(TOKEN)),
            ro(key(CLOCK)),
            rw(key(MARKET)),
            rw(key(10)),
            ro(key(MARKET_SIGNER)),
            rw(key(VAULT)),
            rw(key(BNB)),
            ro(key(ORACLE)),
            ro_signer(key(201)),
            rw(key(200)),
            ro(key(TRADE)),
            rw(key(11)),
            rw(key(12)),
            rw(key(222)),
        ]
    );
    assert_eq!(
        request.data,
        PerpInstruction::ClosePosition {
            position_index: 3,
            closing_collateral: 10,
            closing_v_coin: 20,
            predicted_entry_price: 7,
            maximum_slippage_margin: 8,
        }
        .try_to_vec()
        .unwrap()
    );
}

#[test]
fn close_position_optional_segments() {
    let ctx = market(&[1]);
    let d = DiscountAccount { owner: key(220), address: key(221) };
    let both =
        close_position(&ctx, &known(), &position(0), 1, 2, 3, 4, 5, Some(&d), Some(key(222))).unwrap();
    assert_eq!(both.accounts.len(), 11 + 1 + 3);
    assert_eq!(both.accounts[12..], [ro(key(221)), ro_signer(key(220)), rw(key(222))]);
    let only_discount =
        close_position(&ctx, &known(), &position(0), 1, 2, 3, 4, 5, Some(&d), None).unwrap();
    assert_eq!(only_discount.accounts[12..], [ro(key(221)), ro_signer(key(220))]);
}

#[test]
fn crank_liquidation_accounts() {
    let ctx = market(&[1]);
    let request = crank_liquidation(&ctx, &known(), 0, key(210)).unwrap();
    assert_eq!(
        request.accounts,
        vec![
            ro(key(TOKEN)),
            rw(key(MARKET)),
            rw(key(10)),
            ro(key(MARKET_SIGNER)),
            rw(key(BNB)),
            rw(key(VAULT)),
            ro(key(ORACLE)),
            rw(key(210)),
            ro(key(LIQUIDATION)),
            rw(key(11)),
        ]
    );
    assert_eq!(request.data, vec![9, 0]);
}

#[test]
fn extract_funding_accounts() {
    let ctx = market(&[0, 1]);
    let request = extract_funding(&ctx, &known(), 1, key(200)).unwrap();
    assert_eq!(
        request.accounts,
        vec![rw(key(MARKET)), rw(key(20)), rw(key(200)), ro(key(EXTRACTION)), ro(key(ORACLE)), rw(key(21))]
    );
    assert_eq!(request.data, vec![11, 1]);
}

#[test]
fn rebalance_names_the_first_instance_and_the_pages_of_the_indexed_one() {
    let ctx = market(&[1, 2]);
    let request = rebalance(&ctx, &known(), key(200), key(201), 1, 0x0102).unwrap();
    assert_eq!(
        request.accounts,
        vec![
            ro(key(TOKEN)),
            ro(key(CLOCK)),
            rw(key(MARKET)),
            rw(key(10)),
            ro(key(MARKET_SIGNER)),
            rw(key(VAULT)),
            rw(key(BNB)),
            ro_signer(key(201)),
            rw(key(200)),
            ro_signer(key(ADMIN)),
            rw(key(21)),
            rw(key(22)),
        ]
    );
    assert_eq!(request.data, vec![15, 2, 1, 0, 0, 0, 0, 0, 0, 1]);
}

#[test]
fn create_market_request() {
    let ctx = market(&[]);
    let request = create_market(&ctx, &known(), String::from("BTC"), 258, 6, 9).unwrap();
    assert_eq!(
        request.accounts,
        vec![rw(key(MARKET)), ro(key(CLOCK)), ro(key(ORACLE)), ro(key(ADMIN)), ro(key(VAULT))]
    );
    assert_eq!(
        request.data,
        vec![0, 253, 3, 0, 0, 0, b'B', b'T', b'C', 2, 1, 0, 0, 0, 0, 0, 0, 6, 9]
    );
    assert_eq!(request.program_id, key(PROGRAM));
}

#[test]
fn update_oracle_account_request() {
    let ctx = market(&[]);
    let request = update_oracle_account(&ctx, key(30), key(31), key(32));
    assert_eq!(request.accounts, vec![rw(key(MARKET)), ro(key(30)), ro(key(31)), ro(key(32))]);
    assert_eq!(request.data, vec![2]);
    assert_eq!(request.program_id, key(PROGRAM));
}

#[test]
fn add_instance_request() {
    let ctx = market(&[]);
    let request = add_instance(&ctx, key(40), &[key(41), key(42)]);
    assert_eq!(
        request.accounts,
        vec![rw(key(MARKET)), rw_signer(key(ADMIN)), rw(key(40)), rw(key(41)), rw(key(42))]
    );
    assert_eq!(request.data, vec![1]);
}

#[test]
fn add_budget_request() {
    let ctx = market(&[]);
    let request = add_budget(&ctx, &known(), 1 << 8, key(50), key(51), key(52));
    assert_eq!(
        request.accounts,
        vec![ro(key(TOKEN)), rw(key(MARKET)), rw(key(VAULT)), rw(key(52)), ro_signer(key(50)), rw(key(51))]
    );
    assert_eq!(request.data, vec![4, 0, 1, 0, 0, 0, 0, 0, 0]);
}

#[test]
fn withdraw_budget_request() {
    let ctx = market(&[]);
    let request = withdraw_budget(&ctx, &known(), 3, key(60), key(61), key(62));
    assert_eq!(
        request.accounts,
        vec![
            ro(key(TOKEN)),
            rw(key(MARKET)),
            ro(key(MARKET_SIGNER)),
            rw(key(VAULT)),
            ro_signer(key(61)),
            rw(key(62)),
            rw(key(60)),
        ]
    );
    assert_eq!(request.data, vec![5, 3, 0, 0, 0, 0, 0, 0, 0]);
}

#[test]
fn crank_funding_request() {
    let ctx = market(&[]);
    let request = crank_funding(&ctx, &known());
    assert_eq!(request.accounts, vec![ro(key(CLOCK)), rw(key(MARKET)), ro(key(ORACLE)), ro(key(FUNDING))]);
    assert_eq!(request.data, vec![10]);
}

#[test]
fn change_k_request() {
    let ctx = market(&[]);
    let request = change_k(&ctx, 0x0100_0000_0000_0000);
    assert_eq!(request.accounts, vec![rw(key(MARKET)), ro_signer(key(ADMIN))]);
    assert_eq!(request.data, vec![12, 0, 0, 0, 0, 0, 0, 0, 1]);
}

#[test]
fn close_account_request() {
    let ctx = market(&[]);
    let request = close_account(&ctx, key(70), key(71), key(72));
    assert_eq!(request.accounts, vec![rw(key(70)), ro_signer(key(71)), rw(key(72))]);
    assert_eq!(request.data, vec![13]);
    assert_eq!(request.program_id, key(PROGRAM));
}

#[test]
fn add_page_request() {
    let ctx = market(&[0, 0]);
    let request = add_page(&ctx, 1, key(80)).unwrap();
    assert_eq!(
        request.accounts,
        vec![ro(key(MARKET)), ro_signer(key(ADMIN)), rw(key(20)), ro(key(80))]
    );
    assert_eq!(request.data, vec![14, 1]);
}

#[test]
fn transfer_user_account_request() {
    let ctx = market(&[]);
    let request = transfer_user_account(&ctx, key(90), key(91), key(92));
    assert_eq!(request.accounts, vec![ro_signer(key(91)), rw(key(90)), ro(key(92))]);
    assert_eq!(request.data, vec![16]);
}

#[test]
fn transfer_position_request() {
    let ctx = market(&[3]);
    let request = transfer_position(&ctx, 0x0203, key(93), key(94), key(95), key(96));
    assert_eq!(
        request.accounts,
        vec![ro_signer(key(94)), rw(key(93)), ro_signer(key(96)), rw(key(95))]
    );
    assert_eq!(request.data, vec![17, 3, 2]);
}

#[test]
fn account_references_are_writable_or_read_only() {
    assert_eq!(AccountMeta::new(key(1), false), rw(key(1)));
    assert_eq!(AccountMeta::new(key(1), true), rw_signer(key(1)));
    assert_eq!(AccountMeta::new_readonly(key(1), false), ro(key(1)));
    assert_eq!(AccountMeta::new_readonly(key(1), true), ro_signer(key(1)));
}

#[test]
fn segments_append_in_order() {
    let mut accounts = vec![ro(key(1))];
    push_pages(&mut accounts, &[key(2), key(3)]);
    assert_eq!(accounts, vec![ro(key(1)), rw(key(2)), rw(key(3))]);
    push_pages(&mut accounts, &[]);
    assert_eq!(accounts.len(), 3);
    let d = DiscountAccount { owner: key(4), address: key(5) };
    push_optional(&mut accounts, Some(&d), Some(key(6)));
    assert_eq!(
        accounts,
        vec![ro(key(1)), rw(key(2)), rw(key(3)), ro(key(5)), ro_signer(key(4)), rw(key(6))]
    );
    push_optional(&mut accounts, None, None);
    assert_eq!(accounts.len(), 6);
}

#[test]
fn opening_and_closing_are_two_kinds_of_trade() {
    assert_ne!(CloseOrOpen::OpenPosition, CloseOrOpen::ClosePosition);
}
