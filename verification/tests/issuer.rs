use std::str::FromStr;

use cashu_lsp::error::LspError;
use cashu_lsp::issuer::create_channel_quote;
use cashu_lsp::store::QuoteStore;
use cashu_lsp::types::{CashuLspInfo, ChannelQuoteRequest, QuoteState};

const MINT: &str = "https://mint.example.com";
const PAYMENT_URL: &str = "https://lsp.example.com/payment";

fn info() -> CashuLspInfo {
    CashuLspInfo {
        min_channel_size_sat: 10_000,
        max_channel_size_sat: 10_000_000,
        accepted_mints: vec![String::from(MINT)],
        min_fee: 500,
        fee_ppk: 1,
    }
}

fn request(size: u64, push: Option<u64>) -> ChannelQuoteRequest {
    ChannelQuoteRequest {
        channel_size_sats: size,
        node_pubkey: String::from(
            "02eec7245d6b7d2ccb30380bfbe2a3648cd7a942653f5aa340edcea1f283686619",
        ),
        addr: String::from("127.0.0.1:9735"),
        push_amount: push,
    }
}

#[test]
fn quote_created_unpaid_with_expected_payment() {
    let mut store = QuoteStore::new();
    let (quote, _resp) =
        create_channel_quote(&mut store, &info(), PAYMENT_URL, &request(1_000_000, None)).unwrap();
    // fee = 1_000_000 / 1000 * 1 = 1000, above the 500 floor.
    assert_eq!(quote.expected_payment_sats, 1_001_000);
    assert_eq!(quote.channel_size_sats, 1_000_000);
    assert_eq!(quote.push_amount_sats, None);
    assert_eq!(quote.state, QuoteState::Unpaid);
    assert_eq!(quote.channel_id, None);
    let stored = store.get(quote.id).unwrap();
    assert_eq!(stored.state, QuoteState::Unpaid);
    assert_eq!(stored.expected_payment_sats, 1_001_000);
}

#[test]
fn push_amount_included_in_expected_payment() {
    let mut store = QuoteStore::new();
    let (quote, _resp) =
        create_channel_quote(&mut store, &info(), PAYMENT_URL, &request(10_000, Some(2_500)))
            .unwrap();
    // fee = 10, floored to 500; expected = 10_000 + 500 + 2_500.
    assert_eq!(quote.expected_payment_sats, 13_000);
    assert_eq!(quote.push_amount_sats, Some(2_500));
}

#[test]
fn out_of_range_size_rejected_and_nothing_stored() {
    let mut store = QuoteStore::new();
    let r = create_channel_quote(&mut store, &info(), PAYMENT_URL, &request(9_999, None));
    assert!(matches!(r, Err(LspError::InvalidChannelSize { .. })));
    let r = create_channel_quote(&mut store, &info(), PAYMENT_URL, &request(10_000_001, None));
    assert!(matches!(r, Err(LspError::InvalidChannelSize { .. })));
    assert_eq!(store.len(), 0);
}

#[test]
fn two_identical_requests_get_distinct_quotes() {
    let mut store = QuoteStore::new();
    let (first, first_resp) =
        create_channel_quote(&mut store, &info(), PAYMENT_URL, &request(1_000_000, None)).unwrap();
    let (second, second_resp) =
        create_channel_quote(&mut store, &info(), PAYMENT_URL, &request(1_000_000, None)).unwrap();
    assert_ne!(first.id, second.id);
    assert_ne!(first_resp.payment_request, second_resp.payment_request);
    assert_eq!(store.len(), 2);
}

#[test]
fn payment_request_decodes_to_quote_terms() {
    let mut store = QuoteStore::new();
    let (quote, resp) =
        create_channel_quote(&mut store, &info(), PAYMENT_URL, &request(1_000_000, None)).unwrap();
    let decoded = cdk::nuts::PaymentRequest::from_str(&resp.payment_request).unwrap();
    assert_eq!(
        decoded.payment_id.unwrap(),
        uuid::Uuid::from_u128(quote.id).to_string()
    );
    assert_eq!(decoded.amount.unwrap(), cdk::Amount::from(1_001_000u64));
    assert_eq!(decoded.unit.unwrap(), cdk::nuts::CurrencyUnit::Sat);
    assert_eq!(decoded.single_use.unwrap(), true);
    let mints = decoded.mints.unwrap();
    assert_eq!(mints, vec![cdk::mint_url::MintUrl::from_str(MINT).unwrap()]);
    let transports = decoded.transports.unwrap();
    assert_eq!(transports.len(), 1);
    assert_eq!(transports[0].target, PAYMENT_URL);
}

#[test]
fn unparseable_mint_fails_request_construction() {
    let mut store = QuoteStore::new();
    let mut bad = info();
    bad.accepted_mints = vec![String::from("not a url")];
    let r = create_channel_quote(&mut store, &bad, PAYMENT_URL, &request(1_000_000, None));
    assert!(matches!(r, Err(LspError::InternalError(_))));
    assert_eq!(store.len(), 0);
}
