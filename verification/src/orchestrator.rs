//! The channel provisioning state machine.
//!
//! After a payment submission validates and its proofs redeem, the
//! quote is pivoted from `Unpaid` to `ChannelPending` — durably
//! recording that funds were captured before the channel open is
//! attempted. The open attempt's outcome is then reconciled back:
//! a handle moves the quote to `ChannelOpen` and records the handle;
//! a failure moves it to `Paid`, the terminal "payment received,
//! provisioning not completed" state, with no handle.
//!
//! Both steps are compare-and-swap transitions: each succeeds only
//! from its expected prior state, so of any number of competing
//! submissions for one quote exactly one can pivot it out of `Unpaid`.

use vstd::prelude::*;

use crate::error::LspError;
use crate::store::QuoteStore;
use crate::types::{state_step, with_open_channel, with_state, QuoteInfo, QuoteState};

verus! {

/// Whether the payment pivot may fire: the quote exists and is still
/// `Unpaid`.
pub open spec fn claim_allowed(m: Map<u128, QuoteInfo>, id: u128) -> bool {
    m.contains_key(id) && m[id].state == QuoteState::Unpaid
}

/// The store after a successful payment pivot on `id`.
pub open spec fn after_claim(m: Map<u128, QuoteInfo>, id: u128) -> Map<u128, QuoteInfo> {
    m.insert(id, with_state(m[id], QuoteState::ChannelPending))
}

/// Pivots the quote out of `Unpaid` into `ChannelPending`, recording
/// that payment was captured, before any channel open is attempted.
/// Fails without changing anything when the quote is missing or was
/// already pivoted by a competing submission.
pub fn begin_channel_open(store: &mut QuoteStore, quote_id: u128) -> (r: Result<
    QuoteInfo,
    LspError,
>)
    ensures
        r is Ok <==> claim_allowed(old(store)@, quote_id),
        r matches Ok(q) ==> {
            &&& q == with_state(old(store)@[quote_id], QuoteState::ChannelPending)
            &&& final(store)@ == after_claim(old(store)@, quote_id)
        },
        r is Err ==> final(store)@ == old(store)@,
        !old(store)@.contains_key(quote_id) ==> r == Err::<QuoteInfo, LspError>(
            LspError::QuoteNotFound(quote_id),
        ),
        (old(store)@.contains_key(quote_id) && old(store)@[quote_id].state != QuoteState::Unpaid)
            ==> r == Err::<QuoteInfo, LspError>((LspError::InvalidQuoteState {
            id: quote_id,
            state: old(store)@[quote_id].state,
        })),
{
    store.set_state_if(quote_id, QuoteState::Unpaid, QuoteState::ChannelPending)
}

/// Reconciles the outcome of the channel open attempt into the store:
/// a handle moves the quote from `ChannelPending` to `ChannelOpen` and
/// records the handle; no handle moves it to `Paid` and leaves the
/// handle empty. Fails without changing anything when the quote is
/// missing or not in `ChannelPending`.
pub fn record_channel_open_result(
    store: &mut QuoteStore,
    quote_id: u128,
    channel_handle: Option<u128>,
) -> (r: Result<QuoteInfo, LspError>)
    ensures
        r is Ok <==> (old(store)@.contains_key(quote_id) && old(store)@[quote_id].state
            == QuoteState::ChannelPending),
        (r is Ok && channel_handle is Some) ==> {
            &&& r == Ok::<QuoteInfo, LspError>(with_open_channel(
                old(store)@[quote_id],
                channel_handle->Some_0,
            ))
            &&& final(store)@ == old(store)@.insert(
                quote_id,
                with_open_channel(old(store)@[quote_id], channel_handle->Some_0),
            )
        },
        (r is Ok && channel_handle is None) ==> {
            &&& r == Ok::<QuoteInfo, LspError>(with_state(old(store)@[quote_id], QuoteState::Paid))
            &&& final(store)@ == old(store)@.insert(
                quote_id,
                with_state(old(store)@[quote_id], QuoteState::Paid),
            )
        },
        r is Err ==> final(store)@ == old(store)@,
        !old(store)@.contains_key(quote_id) ==> r == Err::<QuoteInfo, LspError>(
            LspError::QuoteNotFound(quote_id),
        ),
        (old(store)@.contains_key(quote_id) && old(store)@[quote_id].state
            != QuoteState::ChannelPending) ==> r == Err::<QuoteInfo, LspError>((
        LspError::InvalidQuoteState {
            id: quote_id,
            state: old(store)@[quote_id].state,
        })),
{
    match channel_handle {
        Some(handle) => store.complete_channel_open(quote_id, handle),
        None => store.set_state_if(quote_id, QuoteState::ChannelPending, QuoteState::Paid),
    }
}

/// Law: the payment pivot is exclusive. Once one submission has moved
/// a quote out of `Unpaid`, no further pivot on the same quote can
/// succeed — so of N competing submissions exactly one redeems and
/// attempts a channel open.
pub proof fn lemma_claim_is_exclusive(m: Map<u128, QuoteInfo>, id: u128)
    requires
        claim_allowed(m, id),
    ensures
        !claim_allowed(after_claim(m, id), id),
{
}

/// Law: the payment pivot touches no other quote.
pub proof fn lemma_claim_preserves_others(m: Map<u128, QuoteInfo>, id: u128, other: u128)
    requires
        other != id,
    ensures
        after_claim(m, id).contains_key(other) == m.contains_key(other),
        m.contains_key(other) ==> after_claim(m, id)[other] == m[other],
{
}

/// Law: both provisioning steps move a quote along the lifecycle
/// graph; in particular nothing ever returns to `Unpaid`.
pub proof fn lemma_transitions_follow_lifecycle(q: QuoteInfo, handle: u128)
    ensures
        q.state == QuoteState::Unpaid ==> state_step(
            q.state,
            with_state(q, QuoteState::ChannelPending).state,
        ),
        q.state == QuoteState::ChannelPending ==> state_step(
            q.state,
            with_open_channel(q, handle).state,
        ),
        q.state == QuoteState::ChannelPending ==> state_step(
            q.state,
            with_state(q, QuoteState::Paid).state,
        ),
{
}

} // verus!
