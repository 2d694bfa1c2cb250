use cashu_lsp::error::LspError;
use cashu_lsp::status::resolve_quote_state;
use cashu_lsp::store::QuoteStore;
use cashu_lsp::types::{LiveChannel, QuoteInfo, QuoteState};

const QUOTE_ID: u128 = 7;
const HANDLE: u128 = 0xdead_beef;

fn stored_quote(channel_id: Option<u128>, state: QuoteState) -> QuoteInfo {
    QuoteInfo {
        id: QUOTE_ID,
        channel_size_sats: 1_000_000,
        push_amount_sats: None,
        expected_payment_sats: 1_001_000,
        node_pubkey: String::from("02aa"),
        addr: String::from("127.0.0.1:9735"),
        state,
        channel_id,
    }
}

fn id_text() -> String {
    uuid::Uuid::from_u128(QUOTE_ID).to_string()
}

#[test]
fn stored_handle_resolves_to_live_channel() {
    let mut store = QuoteStore::new();
    store.put(stored_quote(Some(HANDLE), QuoteState::ChannelOpen));
    let channels = vec![
        LiveChannel { user_channel_id: 1, channel_id: String::from("aaaa") },
        LiveChannel { user_channel_id: HANDLE, channel_id: String::from("bbbb") },
        LiveChannel { user_channel_id: HANDLE, channel_id: String::from("cccc") },
    ];
    let resp = resolve_quote_state(&store, &id_text(), &channels).unwrap();
    assert_eq!(resp.id, QUOTE_ID);
    assert_eq!(resp.state, QuoteState::ChannelOpen);
    // The first live channel with the stored handle wins.
    assert_eq!(resp.channel_id, Some(String::from("bbbb")));
}

#[test]
fn no_matching_live_channel_resolves_to_none() {
    let mut store = QuoteStore::new();
    store.put(stored_quote(Some(HANDLE), QuoteState::ChannelOpen));
    let channels = vec![LiveChannel { user_channel_id: 1, channel_id: String::from("aaaa") }];
    let resp = resolve_quote_state(&store, &id_text(), &channels).unwrap();
    assert_eq!(resp.state, QuoteState::ChannelOpen);
    assert_eq!(resp.channel_id, None);
}

#[test]
fn no_stored_handle_resolves_to_none() {
    let mut store = QuoteStore::new();
    store.put(stored_quote(None, QuoteState::Unpaid));
    let channels = vec![LiveChannel { user_channel_id: HANDLE, channel_id: String::from("bbbb") }];
    let resp = resolve_quote_state(&store, &id_text(), &channels).unwrap();
    assert_eq!(resp.state, QuoteState::Unpaid);
    assert_eq!(resp.channel_id, None);
}

#[test]
fn malformed_id_is_invalid() {
    let store = QuoteStore::new();
    let r = resolve_quote_state(&store, "junk", &vec![]);
    match r {
        Err(LspError::InvalidUuid(s)) => assert_eq!(s, "junk"),
        other => panic!("expected InvalidUuid, got {:?}", other),
    }
}

#[test]
fn unknown_quote_is_not_found() {
    let store = QuoteStore::new();
    let r = resolve_quote_state(&store, &id_text(), &vec![]);
    assert!(matches!(r, Err(LspError::QuoteNotFound(id)) if id == QUOTE_ID));
}

#[test]
fn canonical_uuid_text_parses_to_stored_key() {
    let mut store = QuoteStore::new();
    store.put(stored_quote(None, QuoteState::Unpaid));
    // The canonical hyphenated form of id 7.
    let resp = resolve_quote_state(
        &store,
        "00000000-0000-0000-0000-000000000007",
        &vec![],
    )
    .unwrap();
    assert_eq!(resp.id, QUOTE_ID);
}
