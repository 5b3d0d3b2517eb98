//! The failure taxonomy of the client, and the classifier that maps a wire
//! error envelope's code and message to a typed reason.

use vstd::prelude::*;

use crate::text::contains_seq;

verus! {

/// Why a positional decode failed.
#[derive(Debug, PartialEq, Eq)]
pub enum DecodeFailure {
    /// The wire array held a different number of fields than the schema.
    Arity { expected: usize, actual: usize },
    /// The value at this array position could not be coerced by its rule.
    Field { position: usize },
    /// The value to decode was not an array at all.
    NotArray,
    /// The body was not well-formed JSON.
    BadJson,
    /// A record that a named permission set needs was missing from the body.
    MissingEntry,
}

/// Which domain rule a request violated before any network call was
/// attempted.
#[derive(Debug, PartialEq, Eq)]
pub enum PreconditionFailure {
    /// The operation works on funding markets, but the symbol does not start
    /// with the funding marker.
    FundingSymbolRequired,
    /// The operation works on trading markets, but the symbol does not start
    /// with the trading marker.
    TradingSymbolRequired,
    /// A parameter that must accompany another was not given.
    MissingCompanion,
    /// A funding offer period outside the accepted range.
    PeriodOutOfRange,
    /// A token that names no deposit method.
    UnknownDepositMethod,
}

/// Every way a call can fail, as a closed taxonomy.
#[derive(Debug, PartialEq, Eq)]
pub enum BitfinexError {
    ExceedMaxOfferCount,
    BitfinexGenericError(String),
    InvalidCurrency,
    InvalidKeyDigest,
    RateLimited,
    BitfinexTempUnavailable,
    NonceSmall,
    DecodeError(DecodeFailure),
    PreconditionViolation(PreconditionFailure),
    TransportFailure,
    RetryExhausted,
}

impl BitfinexError {
    /// Only the nonce-too-small condition is retried by the transport layer;
    /// every other reason is terminal from the classifier's point of view.
    pub open spec fn spec_is_retryable(&self) -> bool {
        self is NonceSmall
    }

    /// True for the one reason the transport layer retries.
    pub fn is_retryable(&self) -> (r: bool)
        ensures
            r == self.spec_is_retryable(),
    {
        match self {
            BitfinexError::NonceSmall => true,
            _ => false,
        }
    }
}

/// The message fragment that marks the offer-count limit on the generic
/// error code.
pub open spec fn offer_limit_marker() -> Seq<char> {
    "Limit: too many active offers"@
}

/// The classifier's routing table over an envelope's code text and message.
pub open spec fn classify_spec(code: Seq<char>, message: String) -> BitfinexError {
    if code == "10001"@ {
        if contains_seq(message@, offer_limit_marker()) {
            BitfinexError::ExceedMaxOfferCount
        } else {
            BitfinexError::BitfinexGenericError(message)
        }
    } else if code == "10020"@ {
        BitfinexError::InvalidCurrency
    } else if code == "10100"@ {
        BitfinexError::InvalidKeyDigest
    } else if code == "10114"@ {
        BitfinexError::NonceSmall
    } else if code == "11000"@ {
        BitfinexError::BitfinexTempUnavailable
    } else if code == "11010"@ {
        BitfinexError::RateLimited
    } else {
        BitfinexError::BitfinexGenericError(message)
    }
}

/// The routing table at the level of character sequences: which reason an
/// envelope with this code text and message text must map to.
pub open spec fn error_matches(e: BitfinexError, code: Seq<char>, msg: Seq<char>) -> bool {
    if code == "10001"@ {
        if contains_seq(msg, offer_limit_marker()) {
            e == BitfinexError::ExceedMaxOfferCount
        } else {
            e matches BitfinexError::BitfinexGenericError(s) && s@ == msg
        }
    } else if code == "10020"@ {
        e == BitfinexError::InvalidCurrency
    } else if code == "10100"@ {
        e == BitfinexError::InvalidKeyDigest
    } else if code == "10114"@ {
        e == BitfinexError::NonceSmall
    } else if code == "11000"@ {
        e == BitfinexError::BitfinexTempUnavailable
    } else if code == "11010"@ {
        e == BitfinexError::RateLimited
    } else {
        e matches BitfinexError::BitfinexGenericError(s) && s@ == msg
    }
}

/// Maps an envelope's code and message to the one reason the routing table
/// gives for them.
pub fn classify_error(code: &str, message: String) -> (r: BitfinexError)
    ensures
        r == classify_spec(code@, message),
        error_matches(r, code@, message@),
{
    if crate::text::str_eq(code, "10001") {
        let msg_chars = crate::text::chars_of(message.as_str());
        let marker = crate::text::chars_of("Limit: too many active offers");
        if crate::text::contains_sub(&msg_chars, &marker) {
            BitfinexError::ExceedMaxOfferCount
        } else {
            BitfinexError::BitfinexGenericError(message)
        }
    } else if crate::text::str_eq(code, "10020") {
        BitfinexError::InvalidCurrency
    } else if crate::text::str_eq(code, "10100") {
        BitfinexError::InvalidKeyDigest
    } else if crate::text::str_eq(code, "10114") {
        BitfinexError::NonceSmall
    } else if crate::text::str_eq(code, "11000") {
        BitfinexError::BitfinexTempUnavailable
    } else if crate::text::str_eq(code, "11010") {
        BitfinexError::RateLimited
    } else {
        BitfinexError::BitfinexGenericError(message)
    }
}

} // verus!
