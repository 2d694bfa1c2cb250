//! Pure fee pricing for channel quotes.

use vstd::prelude::*;

use crate::error::LspError;

verus! {

/// The rate part of the fee: `fee_ppk` sats per started 1000 sats of
/// channel size, rounded down.
pub open spec fn spec_raw_fee(channel_size_sats: u64, fee_ppk: u64) -> int {
    (channel_size_sats as int / 1000) * (fee_ppk as int)
}

/// The charged fee: the rate part, floored up to `min_fee`.
pub open spec fn spec_fee(channel_size_sats: u64, fee_ppk: u64, min_fee: u64) -> int {
    if spec_raw_fee(channel_size_sats, fee_ppk) < min_fee as int {
        min_fee as int
    } else {
        spec_raw_fee(channel_size_sats, fee_ppk)
    }
}

/// Price a channel of `channel_size_sats`.
///
/// Rejects sizes outside `[min_channel_size, max_channel_size]`
/// inclusive; detects arithmetic overflow of the rate part and fails
/// rather than wrap.
pub fn fee_quote(
    channel_size_sats: u64,
    min_channel_size: u64,
    max_channel_size: u64,
    fee_ppk: u64,
    min_fee: u64,
) -> (r: Result<u64, LspError>)
    ensures
        r is Ok <==> (min_channel_size <= channel_size_sats <= max_channel_size
            && spec_fee(channel_size_sats, fee_ppk, min_fee) <= u64::MAX),
        r matches Ok(f) ==> f == spec_fee(channel_size_sats, fee_ppk, min_fee),
        (channel_size_sats < min_channel_size || channel_size_sats > max_channel_size) ==> r
            == Err::<u64, LspError>((LspError::InvalidChannelSize {
            size: channel_size_sats,
            min: min_channel_size,
            max: max_channel_size,
        })),
        (min_channel_size <= channel_size_sats <= max_channel_size
            && spec_fee(channel_size_sats, fee_ppk, min_fee) > u64::MAX) ==> (r matches Err(e)
            && e is InternalError),
{
    if channel_size_sats < min_channel_size || channel_size_sats > max_channel_size {
        return Err(LspError::InvalidChannelSize {
            size: channel_size_sats,
            min: min_channel_size,
            max: max_channel_size,
        });
    }
    let base: u64 = channel_size_sats / 1000;
    match base.checked_mul(fee_ppk) {
        Some(raw) => {
            if raw < min_fee {
                Ok(min_fee)
            } else {
                Ok(raw)
            }
        },
        None => Err(LspError::InternalError(String::from_str("fee computation overflow"))),
    }
}

} // verus!
