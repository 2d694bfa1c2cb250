//! Service errors: their HTTP classification and their report text,
//! with the decimal rendering the text needs.

use vstd::prelude::*;

use crate::ids::{quote_id_text, uuid_text};
use crate::types::{spec_state_name, state_name, QuoteState};

verus! {

/// The character of one decimal digit.
pub open spec fn decimal_digit(d: int) -> char {
    if d == 0 {
        '0'
    } else if d == 1 {
        '1'
    } else if d == 2 {
        '2'
    } else if d == 3 {
        '3'
    } else if d == 4 {
        '4'
    } else if d == 5 {
        '5'
    } else if d == 6 {
        '6'
    } else if d == 7 {
        '7'
    } else if d == 8 {
        '8'
    } else {
        '9'
    }
}

/// The decimal text of a number, most significant digit first.
pub open spec fn spec_decimal(n: nat) -> Seq<char>
    decreases n,
{
    if n < 10 {
        seq![decimal_digit(n as int)]
    } else {
        spec_decimal(n / 10).push(decimal_digit((n % 10) as int))
    }
}

/// The text of one digit.
fn digit_str(d: u128) -> (s: &'static str)
    requires
        d < 10,
    ensures
        s@ =~= seq![decimal_digit(d as int)],
{
    proof {
        reveal_strlit("0");
        reveal_strlit("1");
        reveal_strlit("2");
        reveal_strlit("3");
        reveal_strlit("4");
        reveal_strlit("5");
        reveal_strlit("6");
        reveal_strlit("7");
        reveal_strlit("8");
        reveal_strlit("9");
    }
    if d == 0 {
        "0"
    } else if d == 1 {
        "1"
    } else if d == 2 {
        "2"
    } else if d == 3 {
        "3"
    } else if d == 4 {
        "4"
    } else if d == 5 {
        "5"
    } else if d == 6 {
        "6"
    } else if d == 7 {
        "7"
    } else if d == 8 {
        "8"
    } else {
        "9"
    }
}

/// The text of a run of digit strings, last pushed first: the digits
/// are collected least significant first and read out backwards.
spec fn rev_text(parts: Seq<&str>) -> Seq<char>
    decreases parts.len(),
{
    if parts.len() == 0 {
        Seq::empty()
    } else {
        parts.last()@ + rev_text(parts.drop_last())
    }
}

/// Renders a number as decimal text.
pub fn decimal_string(n: u128) -> (s: String)
    ensures
        s@ == spec_decimal(n as nat),
{
    let mut rest: u128 = n;
    let mut parts: Vec<&str> = Vec::new();
    while rest >= 10
        invariant
            spec_decimal(n as nat) =~= spec_decimal(rest as nat) + rev_text(parts@),
        decreases rest,
    {
        let d = digit_str(rest % 10);
        proof {
            assert(parts@.push(d).drop_last() =~= parts@);
            assert(spec_decimal(rest as nat) + rev_text(parts@) =~= spec_decimal(
                (rest / 10) as nat,
            ) + rev_text(parts@.push(d)));
        }
        parts.push(d);
        rest = rest / 10;
    }
    let d = digit_str(rest);
    proof {
        assert(parts@.push(d).drop_last() =~= parts@);
        assert(spec_decimal(rest as nat) + rev_text(parts@) =~= rev_text(parts@.push(d)));
    }
    parts.push(d);
    let mut out = String::new();
    let mut i: usize = parts.len();
    proof {
        assert(parts@.subrange(0, i as int) =~= parts@);
        assert(out@ + rev_text(parts@) =~= rev_text(parts@));
    }
    while i > 0
        invariant
            i <= parts@.len(),
            out@ + rev_text(parts@.subrange(0, i as int)) =~= spec_decimal(n as nat),
        decreases i,
    {
        proof {
            assert(parts@.subrange(0, i as int).drop_last() =~= parts@.subrange(0, i - 1));
            assert(parts@.subrange(0, i as int).last() == parts@[i - 1]);
        }
        i -= 1;
        out.append(parts[i]);
        proof {
            assert(out@ + rev_text(parts@.subrange(0, i as int)) =~= spec_decimal(n as nat));
        }
    }
    proof {
        assert(parts@.subrange(0, 0) =~= Seq::<&str>::empty());
        assert(out@ + rev_text(parts@.subrange(0, 0)) =~= out@);
    }
    out
}

/// Everything that can go wrong while quoting, accepting a payment or
/// answering a lifecycle query.
///
/// Validation errors (bad id, size out of range, unsupported mint, wrong
/// quote state, insufficient payment) are client-caused and never mutate
/// stored state. A missing quote is reported apart so it can map to a
/// not-found reply. The remaining variants are integrity errors raised
/// by the store, the wallet or the channel opener.
#[derive(Debug)]
pub enum LspError {
    InvalidUuid(String),
    QuoteNotFound(u128),
    InvalidChannelSize { size: u64, min: u64, max: u64 },
    UnsupportedMint(String),
    InvalidQuoteState { id: u128, state: QuoteState },
    InsufficientPayment { expected: u64, received: u64 },
    DatabaseError(String),
    ChannelOpenError(String),
    WalletError(String),
    ProofVerificationError(String),
    InternalError(String),
}

/// The HTTP status class of each error: client-caused validation errors
/// are 400, a missing quote is 404, integrity errors are 500.
pub open spec fn spec_status_code(e: LspError) -> u16 {
    match e {
        LspError::InvalidUuid(_) => 400,
        LspError::InvalidChannelSize { .. } => 400,
        LspError::UnsupportedMint(_) => 400,
        LspError::InvalidQuoteState { .. } => 400,
        LspError::InsufficientPayment { .. } => 400,
        LspError::QuoteNotFound(_) => 404,
        LspError::DatabaseError(_) => 500,
        LspError::ChannelOpenError(_) => 500,
        LspError::WalletError(_) => 500,
        LspError::ProofVerificationError(_) => 500,
        LspError::InternalError(_) => 500,
    }
}

/// The report text of each error.
pub open spec fn spec_message(e: LspError) -> Seq<char> {
    match e {
        LspError::InvalidUuid(id) => "Invalid UUID format: "@ + id@,
        LspError::QuoteNotFound(id) => "Quote not found: "@ + uuid_text(id),
        LspError::InvalidChannelSize { size, min, max } => "Channel size "@ + spec_decimal(
            size as nat,
        ) + " outside allowed range ("@ + spec_decimal(min as nat) + "-"@ + spec_decimal(
            max as nat,
        ) + ")"@,
        LspError::UnsupportedMint(mint) => "Unsupported mint: "@ + mint@,
        LspError::InvalidQuoteState { id, state } => "Quote "@ + uuid_text(id)
            + " has invalid state: "@ + spec_state_name(state),
        LspError::InsufficientPayment { expected, received } => "Insufficient payment: expected "@
            + spec_decimal(expected as nat) + ", received "@ + spec_decimal(received as nat),
        LspError::DatabaseError(msg) => "Database error: "@ + msg@,
        LspError::ChannelOpenError(msg) => "Failed to open channel: "@ + msg@,
        LspError::WalletError(msg) => "Wallet error: "@ + msg@,
        LspError::ProofVerificationError(msg) => "Proof verification error: "@ + msg@,
        LspError::InternalError(msg) => "Internal server error: "@ + msg@,
    }
}

impl LspError {
    /// The report text of this error, for logs and reply bodies.
    pub fn message(&self) -> (r: String)
        ensures
            r@ == spec_message(*self),
    {
        match self {
            LspError::InvalidUuid(id) => {
                let mut out = String::from_str("Invalid UUID format: ");
                out.append(id.as_str());
                out
            },
            LspError::QuoteNotFound(id) => {
                let mut out = String::from_str("Quote not found: ");
                let t = quote_id_text(*id);
                out.append(t.as_str());
                out
            },
            LspError::InvalidChannelSize { size, min, max } => {
                let mut out = String::from_str("Channel size ");
                let t = decimal_string(*size as u128);
                out.append(t.as_str());
                out.append(" outside allowed range (");
                let t = decimal_string(*min as u128);
                out.append(t.as_str());
                out.append("-");
                let t = decimal_string(*max as u128);
                out.append(t.as_str());
                out.append(")");
                out
            },
            LspError::UnsupportedMint(mint) => {
                let mut out = String::from_str("Unsupported mint: ");
                out.append(mint.as_str());
                out
            },
            LspError::InvalidQuoteState { id, state } => {
                let mut out = String::from_str("Quote ");
                let t = quote_id_text(*id);
                out.append(t.as_str());
                out.append(" has invalid state: ");
                out.append(state_name(*state));
                out
            },
            LspError::InsufficientPayment { expected, received } => {
                let mut out = String::from_str("Insufficient payment: expected ");
                let t = decimal_string(*expected as u128);
                out.append(t.as_str());
                out.append(", received ");
                let t = decimal_string(*received as u128);
                out.append(t.as_str());
                out
            },
            LspError::DatabaseError(msg) => {
                let mut out = String::from_str("Database error: ");
                out.append(msg.as_str());
                out
            },
            LspError::ChannelOpenError(msg) => {
                let mut out = String::from_str("Failed to open channel: ");
                out.append(msg.as_str());
                out
            },
            LspError::WalletError(msg) => {
                let mut out = String::from_str("Wallet error: ");
                out.append(msg.as_str());
                out
            },
            LspError::ProofVerificationError(msg) => {
                let mut out = String::from_str("Proof verification error: ");
                out.append(msg.as_str());
                out
            },
            LspError::InternalError(msg) => {
                let mut out = String::from_str("Internal server error: ");
                out.append(msg.as_str());
                out
            },
        }
    }

    /// The HTTP status code this error maps to.
    pub fn status_code(&self) -> (r: u16)
        ensures
            r == spec_status_code(*self),
    {
        match self {
            LspError::InvalidUuid(_) => 400,
            LspError::InvalidChannelSize { .. } => 400,
            LspError::UnsupportedMint(_) => 400,
            LspError::InvalidQuoteState { .. } => 400,
            LspError::InsufficientPayment { .. } => 400,
            LspError::QuoteNotFound(_) => 404,
            LspError::DatabaseError(_) => 500,
            LspError::ChannelOpenError(_) => 500,
            LspError::WalletError(_) => 500,
            LspError::ProofVerificationError(_) => 500,
            LspError::InternalError(_) => 500,
        }
    }
}

} // verus!
