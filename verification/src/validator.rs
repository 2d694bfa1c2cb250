//! Validation of inbound payment submissions against a quote.
//!
//! The checks run in order and stop at the first failure: accepted
//! mint, well-formed quote id, quote exists, quote still `Unpaid`,
//! proof face values cover the expected payment. Validation never
//! mutates the store; redeeming the proofs and pivoting the quote's
//! state belong to the caller.

use vstd::prelude::*;

use crate::error::LspError;
use crate::ids::{parse_quote_id, parsed_uuid};
use crate::store::QuoteStore;
use crate::types::{PaymentPayload, QuoteInfo, QuoteState};

verus! {

/// Whether `mint` is one of the accepted mint URLs.
pub open spec fn mint_accepted(mints: Seq<String>, mint: Seq<char>) -> bool {
    exists|i: int| 0 <= i < mints.len() && mints[i]@ == mint
}

/// The quote id a payment submission denotes, when its id field is
/// present and is valid UUID text.
pub open spec fn spec_payload_id(payload: PaymentPayload) -> Option<u128> {
    match payload.id {
        Some(s) => parsed_uuid(s@),
        None => None,
    }
}

/// Sum of the proof face values, over the unbounded integers.
pub open spec fn spec_sum(amounts: Seq<u64>) -> int
    decreases amounts.len(),
{
    if amounts.len() == 0 {
        0
    } else {
        spec_sum(amounts.drop_last()) + amounts.last()
    }
}

/// Every prefix sums to no more than the whole sequence: the face
/// values are non-negative.
proof fn lemma_sum_prefix_bound(amounts: Seq<u64>, i: int)
    requires
        0 <= i <= amounts.len(),
    ensures
        spec_sum(amounts.subrange(0, i)) <= spec_sum(amounts),
    decreases amounts.len() - i,
{
    if i == amounts.len() {
        assert(amounts.subrange(0, i) =~= amounts);
    } else {
        assert(amounts.subrange(0, i + 1).drop_last() =~= amounts.subrange(0, i));
        lemma_sum_prefix_bound(amounts, i + 1);
    }
}

/// Sums the proof face values, detecting overflow of the machine total.
pub fn sum_proof_amounts(amounts: &Vec<u64>) -> (r: Option<u64>)
    ensures
        r matches Some(total) ==> spec_sum(amounts@) <= u64::MAX && total == spec_sum(amounts@),
        r is None <==> spec_sum(amounts@) > u64::MAX,
{
    let mut total: u64 = 0;
    let mut i: usize = 0;
    while i < amounts.len()
        invariant
            i <= amounts@.len(),
            total == spec_sum(amounts@.subrange(0, i as int)),
        decreases amounts@.len() - i,
    {
        proof {
            assert(amounts@.subrange(0, i + 1).drop_last() =~= amounts@.subrange(0, i as int));
        }
        match total.checked_add(amounts[i]) {
            Some(t) => {
                total = t;
            },
            None => {
                proof {
                    lemma_sum_prefix_bound(amounts@, i + 1);
                }
                return None;
            },
        }
        i += 1;
    }
    proof {
        assert(amounts@.subrange(0, amounts@.len() as int) =~= amounts@);
    }
    Some(total)
}

/// Whether `mint` occurs in `mints`.
pub fn contains_mint(mints: &Vec<String>, mint: &String) -> (r: bool)
    ensures
        r == mint_accepted(mints@, mint@),
{
    let mut i: usize = 0;
    while i < mints.len()
        invariant
            i <= mints@.len(),
            forall|j: int| 0 <= j < i ==> mints@[j]@ != mint@,
        decreases mints@.len() - i,
    {
        if mints[i].eq(mint) {
            assert(mint_accepted(mints@, mint@)) by {
                assert(mints@[i as int]@ == mint@);
            }
            return true;
        }
        i += 1;
    }
    false
}

/// A validated payment submission: the quote it settles, what the quote
/// expects, and what the proofs sum to.
#[derive(Debug)]
pub struct PaymentCheck {
    pub quote_id: u128,
    pub expected_payment_sats: u64,
    pub received_sats: u64,
}

/// Everything [`validate_payment`] checks, as one predicate over the
/// store's map view.
pub open spec fn spec_validate_ok(
    m: Map<u128, QuoteInfo>,
    payload: PaymentPayload,
    mints: Seq<String>,
) -> bool {
    &&& mint_accepted(mints, payload.mint@)
    &&& spec_payload_id(payload) is Some
    &&& m.contains_key(spec_payload_id(payload)->Some_0)
    &&& m[spec_payload_id(payload)->Some_0].state == QuoteState::Unpaid
    &&& spec_sum(payload.proof_amounts@) <= u64::MAX
    &&& spec_sum(payload.proof_amounts@) >= m[spec_payload_id(
        payload,
    )->Some_0].expected_payment_sats
}

/// Law: a payment submission against a quote already pivoted out of
/// `Unpaid` — `ChannelPending`, `Paid` or `ChannelOpen` — cannot
/// validate, however much it pays; and validation mutates nothing, so
/// the quote's state stays as it was.
pub proof fn lemma_double_payment_rejected(
    m: Map<u128, QuoteInfo>,
    payload: PaymentPayload,
    mints: Seq<String>,
)
    requires
        spec_payload_id(payload) is Some,
        m.contains_key(spec_payload_id(payload)->Some_0),
        m[spec_payload_id(payload)->Some_0].state != QuoteState::Unpaid,
    ensures
        !spec_validate_ok(m, payload, mints),
{
}

/// Law: proofs summing to less than the quote's expected payment
/// cannot validate; and validation mutates nothing, so the quote
/// remains `Unpaid`.
pub proof fn lemma_insufficient_payment_rejected(
    m: Map<u128, QuoteInfo>,
    payload: PaymentPayload,
    mints: Seq<String>,
)
    requires
        spec_payload_id(payload) is Some,
        m.contains_key(spec_payload_id(payload)->Some_0),
        spec_sum(payload.proof_amounts@) < m[spec_payload_id(
            payload,
        )->Some_0].expected_payment_sats,
    ensures
        !spec_validate_ok(m, payload, mints),
{
}

/// Checks a payment submission against the store, in order, stopping at
/// the first failure; mutates nothing. On success the caller redeems
/// the proofs and then pivots the quote out of `Unpaid`.
pub fn validate_payment(
    store: &QuoteStore,
    payload: &PaymentPayload,
    accepted_mints: &Vec<String>,
) -> (r: Result<PaymentCheck, LspError>)
    ensures
        r is Ok <==> spec_validate_ok(store@, *payload, accepted_mints@),
        r matches Ok(c) ==> c == (PaymentCheck {
            quote_id: spec_payload_id(*payload)->Some_0,
            expected_payment_sats: store@[spec_payload_id(*payload)->Some_0].expected_payment_sats,
            received_sats: spec_sum(payload.proof_amounts@) as u64,
        }),
        !mint_accepted(accepted_mints@, payload.mint@) ==> (r matches Err(e) && e matches
            LspError::UnsupportedMint(m) && m@ == payload.mint@),
        (mint_accepted(accepted_mints@, payload.mint@) && spec_payload_id(*payload) is None) ==> (
        r matches Err(e) && e matches LspError::InvalidUuid(s) && s@ == (match payload.id {
            Some(t) => t@,
            None => "missing"@,
        })),
        (mint_accepted(accepted_mints@, payload.mint@) && spec_payload_id(*payload) is Some
            && !store@.contains_key(spec_payload_id(*payload)->Some_0)) ==> r == Err::<
            PaymentCheck,
            LspError,
        >(LspError::QuoteNotFound(spec_payload_id(*payload)->Some_0)),
        (mint_accepted(accepted_mints@, payload.mint@) && spec_payload_id(*payload) is Some
            && store@.contains_key(spec_payload_id(*payload)->Some_0)
            && store@[spec_payload_id(*payload)->Some_0].state != QuoteState::Unpaid) ==> r
            == Err::<PaymentCheck, LspError>((LspError::InvalidQuoteState {
            id: spec_payload_id(*payload)->Some_0,
            state: store@[spec_payload_id(*payload)->Some_0].state,
        })),
        (mint_accepted(accepted_mints@, payload.mint@) && spec_payload_id(*payload) is Some
            && store@.contains_key(spec_payload_id(*payload)->Some_0)
            && store@[spec_payload_id(*payload)->Some_0].state == QuoteState::Unpaid && spec_sum(
            payload.proof_amounts@,
        ) > u64::MAX) ==> (r matches Err(e) && e is InternalError),
        (mint_accepted(accepted_mints@, payload.mint@) && spec_payload_id(*payload) is Some
            && store@.contains_key(spec_payload_id(*payload)->Some_0)
            && store@[spec_payload_id(*payload)->Some_0].state == QuoteState::Unpaid && spec_sum(
            payload.proof_amounts@,
        ) <= u64::MAX && spec_sum(payload.proof_amounts@) < store@[spec_payload_id(
            *payload,
        )->Some_0].expected_payment_sats) ==> r == Err::<PaymentCheck, LspError>((
        LspError::InsufficientPayment {
            expected: store@[spec_payload_id(*payload)->Some_0].expected_payment_sats,
            received: spec_sum(payload.proof_amounts@) as u64,
        })),
{
    if !contains_mint(accepted_mints, &payload.mint) {
        return Err(LspError::UnsupportedMint(payload.mint.clone()));
    }
    let id_text = match &payload.id {
        Some(t) => t.clone(),
        None => {
            return Err(LspError::InvalidUuid(String::from_str("missing")));
        },
    };
    let quote_id = match parse_quote_id(id_text.as_str()) {
        Some(qid) => qid,
        None => {
            return Err(LspError::InvalidUuid(id_text));
        },
    };
    let quote = match store.get(quote_id) {
        Ok(q) => q,
        Err(e) => {
            return Err(e);
        },
    };
    if quote.state != QuoteState::Unpaid {
        return Err(LspError::InvalidQuoteState { id: quote_id, state: quote.state });
    }
    let received = match sum_proof_amounts(&payload.proof_amounts) {
        Some(total) => total,
        None => {
            return Err(LspError::InternalError(String::from_str("proof amount sum overflow")));
        },
    };
    if received < quote.expected_payment_sats {
        return Err(LspError::InsufficientPayment {
            expected: quote.expected_payment_sats,
            received,
        });
    }
    Ok(PaymentCheck {
        quote_id,
        expected_payment_sats: quote.expected_payment_sats,
        received_sats: received,
    })
}

} // verus!
