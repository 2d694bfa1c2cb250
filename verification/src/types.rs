//! Data model: quotes, requests, responses and the lifecycle state.

use vstd::prelude::*;

verus! {

/// Lifecycle state of a channel quote.
#[derive(Clone, Copy, Debug, PartialEq, Eq, Structural)]
pub enum QuoteState {
    Unpaid,
    Paid,
    ChannelPending,
    ChannelOpen,
    ChannelExpired,
}

/// The name of a lifecycle state.
pub open spec fn spec_state_name(s: QuoteState) -> Seq<char> {
    match s {
        QuoteState::Unpaid => "Unpaid"@,
        QuoteState::Paid => "Paid"@,
        QuoteState::ChannelPending => "ChannelPending"@,
        QuoteState::ChannelOpen => "ChannelOpen"@,
        QuoteState::ChannelExpired => "ChannelExpired"@,
    }
}

/// The name of a lifecycle state, for reports and replies.
pub fn state_name(s: QuoteState) -> (r: &'static str)
    ensures
        r@ == spec_state_name(s),
{
    match s {
        QuoteState::Unpaid => "Unpaid",
        QuoteState::Paid => "Paid",
        QuoteState::ChannelPending => "ChannelPending",
        QuoteState::ChannelOpen => "ChannelOpen",
        QuoteState::ChannelExpired => "ChannelExpired",
    }
}

/// The lifecycle graph: a quote moves from `Unpaid` to `ChannelPending`
/// once payment is captured, and from `ChannelPending` either to
/// `ChannelOpen` (an open attempt returned a handle) or to `Paid` (the
/// attempt failed; funds stay captured). No transition leads back to
/// `Unpaid`, and nothing produces `ChannelExpired`.
pub open spec fn state_step(from: QuoteState, to: QuoteState) -> bool {
    ||| (from == QuoteState::Unpaid && to == QuoteState::ChannelPending)
    ||| (from == QuoteState::ChannelPending && to == QuoteState::ChannelOpen)
    ||| (from == QuoteState::ChannelPending && to == QuoteState::Paid)
}

/// A priced offer to open a Lightning channel, tracked through its
/// payment and provisioning lifecycle.
///
/// `id` is the 128-bit value of the quote's UUID. `node_pubkey` and
/// `addr` carry the counterparty identity and reachability as text.
/// `channel_id` holds the internal correlation handle of the node's
/// channel, set exactly when an open attempt returned a handle.
#[derive(Debug)]
pub struct QuoteInfo {
    pub id: u128,
    pub channel_size_sats: u64,
    pub push_amount_sats: Option<u64>,
    pub expected_payment_sats: u64,
    pub node_pubkey: String,
    pub addr: String,
    pub state: QuoteState,
    pub channel_id: Option<u128>,
}

impl Clone for QuoteInfo {
    fn clone(&self) -> (r: Self)
        ensures
            r == *self,
    {
        QuoteInfo {
            id: self.id,
            channel_size_sats: self.channel_size_sats,
            push_amount_sats: self.push_amount_sats,
            expected_payment_sats: self.expected_payment_sats,
            node_pubkey: self.node_pubkey.clone(),
            addr: self.addr.clone(),
            state: self.state,
            channel_id: self.channel_id,
        }
    }
}

/// The record `quote` with its state replaced by `state`.
pub open spec fn with_state(quote: QuoteInfo, state: QuoteState) -> QuoteInfo {
    QuoteInfo { state, ..quote }
}

/// The record `quote` marked `ChannelOpen` with the given open handle.
pub open spec fn with_open_channel(quote: QuoteInfo, handle: u128) -> QuoteInfo {
    QuoteInfo { state: QuoteState::ChannelOpen, channel_id: Some(handle), ..quote }
}

/// A client's request for a channel quote.
pub struct ChannelQuoteRequest {
    pub channel_size_sats: u64,
    pub node_pubkey: String,
    pub addr: String,
    pub push_amount: Option<u64>,
}

impl Clone for ChannelQuoteRequest {
    fn clone(&self) -> (r: Self)
        ensures
            r == *self,
    {
        ChannelQuoteRequest {
            channel_size_sats: self.channel_size_sats,
            node_pubkey: self.node_pubkey.clone(),
            addr: self.addr.clone(),
            push_amount: self.push_amount,
        }
    }
}

/// Service parameters advertised to clients: the accepted channel size
/// range, the accepted mints (normalized mint URLs) and the fee schedule.
pub struct CashuLspInfo {
    pub min_channel_size_sat: u64,
    pub max_channel_size_sat: u64,
    pub accepted_mints: Vec<String>,
    pub min_fee: u64,
    pub fee_ppk: u64,
}

/// Reply to a channel quote request: the encoded payment request the
/// client settles to obtain the channel.
pub struct ChannelQuoteResponse {
    pub payment_request: String,
}

/// An inbound payment submission: the paying mint, the quote id as text,
/// and the face values of the presented ecash proofs.
pub struct PaymentPayload {
    pub mint: String,
    pub id: Option<String>,
    pub proof_amounts: Vec<u64>,
}

/// Reply to a lifecycle query: the quote's state, and the externally
/// visible channel identifier when the node reports a live channel for
/// the quote's stored handle.
#[derive(Debug)]
pub struct QuoteStateResponse {
    pub id: u128,
    pub state: QuoteState,
    pub channel_id: Option<String>,
}

/// A live channel as reported by the Lightning node: its internal
/// correlation handle and its externally visible identifier.
pub struct LiveChannel {
    pub user_channel_id: u128,
    pub channel_id: String,
}

impl Clone for LiveChannel {
    fn clone(&self) -> (r: Self)
        ensures
            r == *self,
    {
        LiveChannel { user_channel_id: self.user_channel_id, channel_id: self.channel_id.clone() }
    }
}

} // verus!
