//! Issues channel quotes and their payable requests.
//!
//! On a quote request the size is validated and priced, the expected
//! payment is computed, a fresh quote is stored in state `Unpaid`, and
//! a single-use ecash payment request is built that carries the quote
//! id, is scoped to the accepted mints, and names the settlement
//! callback as its transport target.

use vstd::prelude::*;

use crate::error::LspError;
use crate::fee::{fee_quote, spec_fee};
use crate::ids::{new_quote_id, quote_id_text, uuid_text};
use crate::store::QuoteStore;
use crate::types::{CashuLspInfo, ChannelQuoteRequest, ChannelQuoteResponse, QuoteInfo, QuoteState};

verus! {

/// Whether a string is a mint URL `cdk::mint_url::MintUrl::from_str`
/// accepts: that depends on the characters alone.
pub uninterp spec fn mint_url_ok(s: Seq<char>) -> bool;

/// The encoded payment request built for the given id text, amount,
/// mint list and transport target: the encoding depends on these
/// alone.
pub uninterp spec fn payment_request_encoding(
    id_text: Seq<char>,
    amount: u64,
    mints: Seq<Seq<char>>,
    target: Seq<char>,
) -> Seq<char>;

/// Whether every accepted mint is a parseable mint URL.
pub open spec fn all_mints_ok(mints: Seq<String>) -> bool {
    forall|i: int| 0 <= i < mints.len() ==> mint_url_ok(mints[i]@)
}

/// Relies on cdk's payment request and transport builders and the
/// request's text encoding (NUT-18): a single-use request for `amount`
/// sats carrying `id_text`, scoped to `mints`, delivered over an HTTP
/// POST transport to `target`. Building fails exactly when some mint
/// fails `MintUrl` parsing; the transport itself always builds, since
/// both its type and target are supplied.
#[verifier::external_body]
fn build_payment_request(id_text: &str, amount: u64, mints: &Vec<String>, target: &str) -> (r:
    Option<String>)
    ensures
        r is Some <==> (forall|i: int| 0 <= i < mints@.len() ==> mint_url_ok(mints@[i]@)),
        r matches Some(s) ==> s@ == payment_request_encoding(
            id_text@,
            amount,
            mints@.map_values(|m: String| m@),
            target@,
        ),
{
    let mut urls = Vec::new();
    for m in mints.iter() {
        match <cdk::mint_url::MintUrl as std::str::FromStr>::from_str(m.as_str()) {
            Ok(u) => urls.push(u),
            Err(_) => return None,
        }
    }
    let transport = cdk::nuts::Transport::builder().transport_type(
        cdk::nuts::TransportType::HttpPost,
    ).target(target).build().ok()?;
    let request = cdk::nuts::PaymentRequest::builder().payment_id(id_text).amount(amount).unit(
        cdk::nuts::CurrencyUnit::Sat,
    ).single_use(true).mints(urls).add_transport(transport).build();
    Some(request.to_string())
}

/// The amount pushed to the counterparty on open; absent means none.
pub open spec fn spec_push_amount(request: ChannelQuoteRequest) -> int {
    match request.push_amount {
        Some(p) => p as int,
        None => 0,
    }
}

/// What the client must pay: channel size plus fee plus push amount.
pub open spec fn spec_expected_payment(request: ChannelQuoteRequest, info: CashuLspInfo) -> int {
    request.channel_size_sats + spec_fee(request.channel_size_sats, info.fee_ppk, info.min_fee)
        + spec_push_amount(request)
}

/// Whether a quote may be created: the size is in the accepted range
/// and the priced amounts fit the machine integers.
pub open spec fn quote_creation_allowed(request: ChannelQuoteRequest, info: CashuLspInfo) -> bool {
    &&& info.min_channel_size_sat <= request.channel_size_sats <= info.max_channel_size_sat
    &&& spec_fee(request.channel_size_sats, info.fee_ppk, info.min_fee) <= u64::MAX
    &&& spec_expected_payment(request, info) <= u64::MAX
}

/// Prices the requested channel, persists a fresh quote in state
/// `Unpaid`, and returns it with the payment request the client
/// settles. A size outside the accepted range is rejected and nothing
/// is stored; on any failure the store is left unchanged.
pub fn create_channel_quote(
    store: &mut QuoteStore,
    info: &CashuLspInfo,
    payment_url: &str,
    request: &ChannelQuoteRequest,
) -> (r: Result<(QuoteInfo, ChannelQuoteResponse), LspError>)
    ensures
        r is Ok <==> (quote_creation_allowed(*request, *info) && all_mints_ok(
            info.accepted_mints@,
        )),
        r matches Ok(out) ==> {
            &&& out.0.channel_size_sats == request.channel_size_sats
            &&& out.0.push_amount_sats == request.push_amount
            &&& out.0.expected_payment_sats == spec_expected_payment(*request, *info)
            &&& out.0.node_pubkey@ == request.node_pubkey@
            &&& out.0.addr@ == request.addr@
            &&& out.0.state == QuoteState::Unpaid
            &&& out.0.channel_id is None
            &&& final(store)@ == old(store)@.insert(out.0.id, out.0)
            &&& out.1.payment_request@ == payment_request_encoding(
                uuid_text(out.0.id),
                out.0.expected_payment_sats,
                info.accepted_mints@.map_values(|m: String| m@),
                payment_url@,
            )
        },
        r is Err ==> final(store)@ == old(store)@,
        (request.channel_size_sats < info.min_channel_size_sat || request.channel_size_sats
            > info.max_channel_size_sat) ==> r == Err::<(QuoteInfo, ChannelQuoteResponse),
            LspError,
        >((LspError::InvalidChannelSize {
            size: request.channel_size_sats,
            min: info.min_channel_size_sat,
            max: info.max_channel_size_sat,
        })),
        (r is Err && info.min_channel_size_sat <= request.channel_size_sats
            <= info.max_channel_size_sat) ==> (r matches Err(e) && e is InternalError),
{
    let fee = match fee_quote(
        request.channel_size_sats,
        info.min_channel_size_sat,
        info.max_channel_size_sat,
        info.fee_ppk,
        info.min_fee,
    ) {
        Ok(f) => f,
        Err(e) => {
            return Err(e);
        },
    };
    let size_plus_fee = match request.channel_size_sats.checked_add(fee) {
        Some(v) => v,
        None => {
            return Err(LspError::InternalError(String::from_str("expected payment overflow")));
        },
    };
    let push: u64 = match request.push_amount {
        Some(p) => p,
        None => 0,
    };
    let expected = match size_plus_fee.checked_add(push) {
        Some(v) => v,
        None => {
            return Err(LspError::InternalError(String::from_str("expected payment overflow")));
        },
    };
    let id = new_quote_id();
    let id_text = quote_id_text(id);
    let payment_request = match build_payment_request(
        id_text.as_str(),
        expected,
        &info.accepted_mints,
        payment_url,
    ) {
        Some(s) => s,
        None => {
            return Err(
                LspError::InternalError(String::from_str("payment request construction failed")),
            );
        },
    };
    let quote = QuoteInfo {
        id,
        channel_size_sats: request.channel_size_sats,
        push_amount_sats: request.push_amount,
        expected_payment_sats: expected,
        node_pubkey: request.node_pubkey.clone(),
        addr: request.addr.clone(),
        state: QuoteState::Unpaid,
        channel_id: None,
    };
    let stored = quote.clone();
    store.put(stored);
    Ok((quote, ChannelQuoteResponse { payment_request }))
}

} // verus!
