//! Keyed store for quote lifecycle records.
//!
//! The store is the authoritative map from quote id to [`QuoteInfo`].
//! Every mutation is specified against the map view, and the
//! conditional update [`QuoteStore::set_state_if`] is the atomic pivot
//! the provisioning state machine builds on: it succeeds only when the
//! record is still in the expected prior state, so a competing update
//! that won first makes it fail rather than repeat the transition.
//!
//! Durably persisting the map across restarts is the embedding
//! application's concern; it snapshots and reloads the records around
//! these operations.

use std::collections::HashMap;
use vstd::prelude::*;

use crate::error::LspError;
use crate::types::{with_open_channel, with_state, QuoteInfo, QuoteState};

verus! {

broadcast use vstd::std_specs::hash::group_hash_axioms;

/// Mapping from quote id to its lifecycle record.
pub struct QuoteStore {
    quotes: HashMap<u128, QuoteInfo>,
}

impl View for QuoteStore {
    type V = Map<u128, QuoteInfo>;

    closed spec fn view(&self) -> Map<u128, QuoteInfo> {
        self.quotes@
    }
}

impl QuoteStore {
    /// An empty store.
    pub fn new() -> (s: Self)
        ensures
            s@ == Map::<u128, QuoteInfo>::empty(),
    {
        QuoteStore { quotes: HashMap::new() }
    }

    /// How many quotes are stored.
    pub fn len(&self) -> (n: usize)
        ensures
            n == self@.len(),
    {
        self.quotes.len()
    }

    /// Upsert: stores `quote` under its id, overwriting any record with
    /// the same id.
    pub fn put(&mut self, quote: QuoteInfo)
        ensures
            final(self)@ == old(self)@.insert(quote.id, quote),
    {
        let id = quote.id;
        self.quotes.insert(id, quote);
    }

    /// Point lookup by quote id.
    pub fn get(&self, id: u128) -> (r: Result<QuoteInfo, LspError>)
        ensures
            r matches Ok(q) ==> self@.contains_key(id) && q == self@[id],
            r is Err <==> !self@.contains_key(id),
            !self@.contains_key(id) ==> r == Err::<QuoteInfo, LspError>(LspError::QuoteNotFound(
                id,
            )),
    {
        match self.quotes.get(&id) {
            Some(q) => Ok(q.clone()),
            None => Err(LspError::QuoteNotFound(id)),
        }
    }

    /// Updates the state of the record under `id` in place and returns
    /// the updated record.
    pub fn set_state(&mut self, id: u128, new_state: QuoteState) -> (r: Result<
        QuoteInfo,
        LspError,
    >)
        ensures
            old(self)@.contains_key(id) ==> {
                &&& r == Ok::<QuoteInfo, LspError>(with_state(old(self)@[id], new_state))
                &&& final(self)@ == old(self)@.insert(id, with_state(old(self)@[id], new_state))
            },
            !old(self)@.contains_key(id) ==> {
                &&& r == Err::<QuoteInfo, LspError>(LspError::QuoteNotFound(id))
                &&& final(self)@ == old(self)@
            },
    {
        let found = match self.quotes.get(&id) {
            Some(q) => Some(q.clone()),
            None => None,
        };
        match found {
            Some(mut q) => {
                q.state = new_state;
                let out = q.clone();
                self.quotes.insert(id, q);
                Ok(out)
            },
            None => Err(LspError::QuoteNotFound(id)),
        }
    }

    /// Compare-and-swap that records a successful channel open: marks
    /// the record under `id` `ChannelOpen` and stores the open handle,
    /// only when its current state is `ChannelPending`, and otherwise
    /// changes nothing.
    pub fn complete_channel_open(&mut self, id: u128, handle: u128) -> (r: Result<
        QuoteInfo,
        LspError,
    >)
        ensures
            r is Ok <==> (old(self)@.contains_key(id) && old(self)@[id].state
                == QuoteState::ChannelPending),
            r matches Ok(q) ==> {
                &&& q == with_open_channel(old(self)@[id], handle)
                &&& final(self)@ == old(self)@.insert(id, with_open_channel(old(self)@[id], handle))
            },
            r is Err ==> final(self)@ == old(self)@,
            !old(self)@.contains_key(id) ==> r == Err::<QuoteInfo, LspError>(
                LspError::QuoteNotFound(id),
            ),
            (old(self)@.contains_key(id) && old(self)@[id].state != QuoteState::ChannelPending)
                ==> r == Err::<QuoteInfo, LspError>((LspError::InvalidQuoteState {
                id,
                state: old(self)@[id].state,
            })),
    {
        let found = match self.quotes.get(&id) {
            Some(q) => Some(q.clone()),
            None => None,
        };
        match found {
            Some(mut q) => {
                if q.state == QuoteState::ChannelPending {
                    q.state = QuoteState::ChannelOpen;
                    q.channel_id = Some(handle);
                    let out = q.clone();
                    self.quotes.insert(id, q);
                    Ok(out)
                } else {
                    Err(LspError::InvalidQuoteState { id, state: q.state })
                }
            },
            None => Err(LspError::QuoteNotFound(id)),
        }
    }

    /// Compare-and-swap on the lifecycle state: updates the record under
    /// `id` to `new_state` only when its current state is
    /// `expected_prior`, and otherwise changes nothing. This is the
    /// linearization point that keeps concurrent read-modify-write
    /// sequences on one quote from both passing the same state guard.
    pub fn set_state_if(
        &mut self,
        id: u128,
        expected_prior: QuoteState,
        new_state: QuoteState,
    ) -> (r: Result<QuoteInfo, LspError>)
        ensures
            r is Ok <==> (old(self)@.contains_key(id) && old(self)@[id].state == expected_prior),
            r matches Ok(q) ==> {
                &&& q == with_state(old(self)@[id], new_state)
                &&& final(self)@ == old(self)@.insert(id, with_state(old(self)@[id], new_state))
            },
            r is Err ==> final(self)@ == old(self)@,
            !old(self)@.contains_key(id) ==> r == Err::<QuoteInfo, LspError>(
                LspError::QuoteNotFound(id),
            ),
            (old(self)@.contains_key(id) && old(self)@[id].state != expected_prior) ==> r
                == Err::<QuoteInfo, LspError>((LspError::InvalidQuoteState {
                id,
                state: old(self)@[id].state,
            })),
    {
        let found = match self.quotes.get(&id) {
            Some(q) => Some(q.clone()),
            None => None,
        };
        match found {
            Some(mut q) => {
                if q.state == expected_prior {
                    q.state = new_state;
                    let out = q.clone();
                    self.quotes.insert(id, q);
                    Ok(out)
                } else {
                    Err(LspError::InvalidQuoteState { id, state: q.state })
                }
            },
            None => Err(LspError::QuoteNotFound(id)),
        }
    }
}

/// Law: storing a record and then looking its id up yields that very
/// record, field for field — stated over the map view that
/// [`QuoteStore::put`] and [`QuoteStore::get`] are specified against.
pub proof fn lemma_put_get_round_trip(m: Map<u128, QuoteInfo>, q: QuoteInfo)
    ensures
        m.insert(q.id, q).contains_key(q.id),
        m.insert(q.id, q)[q.id] == q,
{
}

} // verus!
