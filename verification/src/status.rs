//! Lifecycle queries: resolving a quote's provisioning status.
//!
//! The reply joins the stored record with the Lightning node's live
//! channel list at query time: when the quote holds an internal open
//! handle and the node reports a live channel with that handle, the
//! reply surfaces that channel's externally visible identifier;
//! otherwise it carries none. Nothing is persisted by a query.

use vstd::prelude::*;

use crate::error::LspError;
use crate::ids::{parse_quote_id, parsed_uuid};
use crate::store::QuoteStore;
use crate::types::{LiveChannel, QuoteStateResponse};

verus! {

/// The externally visible identifier of the first live channel whose
/// internal correlation handle is `handle`, if any.
pub open spec fn spec_lookup_channel(channels: Seq<LiveChannel>, handle: u128) -> Option<
    Seq<char>,
>
    decreases channels.len(),
{
    if channels.len() == 0 {
        None
    } else if channels[0].user_channel_id == handle {
        Some(channels[0].channel_id@)
    } else {
        spec_lookup_channel(channels.drop_first(), handle)
    }
}

/// Finds the first live channel with the given internal handle and
/// returns its externally visible identifier.
pub fn lookup_channel(channels: &Vec<LiveChannel>, handle: u128) -> (r: Option<String>)
    ensures
        match spec_lookup_channel(channels@, handle) {
            Some(t) => r matches Some(s) && s@ == t,
            None => r is None,
        },
{
    let mut i: usize = 0;
    proof {
        assert(channels@.skip(0) =~= channels@);
    }
    while i < channels.len()
        invariant
            i <= channels@.len(),
            spec_lookup_channel(channels@, handle) == spec_lookup_channel(
                channels@.skip(i as int),
                handle,
            ),
        decreases channels@.len() - i,
    {
        proof {
            assert(channels@.skip(i as int).drop_first() =~= channels@.skip(i + 1));
            assert(channels@.skip(i as int)[0] == channels@[i as int]);
        }
        if channels[i].user_channel_id == handle {
            return Some(channels[i].channel_id.clone());
        }
        i += 1;
    }
    proof {
        assert(channels@.skip(channels@.len() as int).len() == 0);
    }
    None
}

/// What the status reply must say about the external channel
/// identifier, given the stored record and the live channel list.
pub open spec fn spec_resolved_channel(
    stored_handle: Option<u128>,
    channels: Seq<LiveChannel>,
) -> Option<Seq<char>> {
    match stored_handle {
        Some(h) => spec_lookup_channel(channels, h),
        None => None,
    }
}

/// Answers a lifecycle query: parses the quote id, looks the quote up,
/// and reconciles its stored open handle against the node's live
/// channel list. A handle with no matching live channel resolves to no
/// external identifier, without error.
pub fn resolve_quote_state(
    store: &QuoteStore,
    id_text: &str,
    live_channels: &Vec<LiveChannel>,
) -> (r: Result<QuoteStateResponse, LspError>)
    ensures
        r is Ok <==> (parsed_uuid(id_text@) is Some && store@.contains_key(
            parsed_uuid(id_text@)->Some_0,
        )),
        r matches Ok(resp) ==> {
            &&& resp.id == parsed_uuid(id_text@)->Some_0
            &&& resp.state == store@[parsed_uuid(id_text@)->Some_0].state
            &&& match spec_resolved_channel(
                store@[parsed_uuid(id_text@)->Some_0].channel_id,
                live_channels@,
            ) {
                Some(t) => resp.channel_id matches Some(s) && s@ == t,
                None => resp.channel_id is None,
            }
        },
        parsed_uuid(id_text@) is None ==> (r matches Err(e) && e matches LspError::InvalidUuid(s)
            && s@ == id_text@),
        (parsed_uuid(id_text@) is Some && !store@.contains_key(parsed_uuid(id_text@)->Some_0))
            ==> r == Err::<QuoteStateResponse, LspError>(LspError::QuoteNotFound(
            parsed_uuid(id_text@)->Some_0,
        )),
{
    let quote_id = match parse_quote_id(id_text) {
        Some(qid) => qid,
        None => {
            return Err(LspError::InvalidUuid(id_text.to_owned()));
        },
    };
    let quote = match store.get(quote_id) {
        Ok(q) => q,
        Err(e) => {
            return Err(e);
        },
    };
    let channel_id = match quote.channel_id {
        Some(handle) => lookup_channel(live_channels, handle),
        None => None,
    };
    Ok(QuoteStateResponse { id: quote_id, state: quote.state, channel_id })
}

} // verus!
