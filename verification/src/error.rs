use crate::decimal::{format_decimal, spec_decimal};
use vstd::prelude::*;
use vstd::string::*;

verus! {

/// Why an operation was refused. A refused operation changes nothing.
#[derive(Debug, PartialEq, Eq)]
pub enum OracleError {
    /// The contract already has a stored state and cannot be created again.
    AlreadyInitialized,
    /// The caller is not the owner of the contract.
    NotAnOwner,
    /// A bulk query came with different numbers of bases and quotes.
    BadInputLength,
    /// A relay came with a number of rates other than that of its symbols.
    BadRatesLength,
    /// A relay came with a number of resolve times other than that of its symbols.
    BadResolveTimesLength,
    /// A relay came with a number of request identifiers other than that of its symbols.
    BadRequestIdsLength,
    /// A relayed rate is no decimal number that fits in 128 bits.
    FailToParseRate { rate: String, symbol: String },
    /// A bulk request came with different numbers of bases and quotes.
    BasesQuotesSizeIsNotEqual { bases: usize, quotes: usize },
}

impl OracleError {
    /// The fixed text that names the failure to the invoker.
    pub open spec fn spec_message(&self) -> Seq<char> {
        match self {
            OracleError::AlreadyInitialized => "ALREADY_INITIALIZED"@,
            OracleError::NotAnOwner => "NOT_AN_OWNER"@,
            OracleError::BadInputLength => "BAD_INPUT_LENGTH"@,
            OracleError::BadRatesLength => "BAD_RATES_LENGTH"@,
            OracleError::BadResolveTimesLength => "BAD_RESOLVE_TIMES_LENGTH"@,
            OracleError::BadRequestIdsLength => "BAD_REQUEST_IDS_LENGTH"@,
            OracleError::FailToParseRate { rate, symbol } => "FAIL_TO_PARSE_RATE_"@ + rate@
                + "_FOR_"@ + symbol@,
            OracleError::BasesQuotesSizeIsNotEqual { bases, quotes } =>
                "BASES_QUOTES_SIZE_IS_NOT_EQUAL:"@ + spec_decimal(*bases as nat) + "!="@
                    + spec_decimal(*quotes as nat),
        }
    }

    /// The text that names the failure to the invoker.
    pub fn message(&self) -> (text: String)
        ensures
            text@ == self.spec_message(),
    {
        match self {
            OracleError::AlreadyInitialized => String::from_str("ALREADY_INITIALIZED"),
            OracleError::NotAnOwner => String::from_str("NOT_AN_OWNER"),
            OracleError::BadInputLength => String::from_str("BAD_INPUT_LENGTH"),
            OracleError::BadRatesLength => String::from_str("BAD_RATES_LENGTH"),
            OracleError::BadResolveTimesLength => String::from_str("BAD_RESOLVE_TIMES_LENGTH"),
            OracleError::BadRequestIdsLength => String::from_str("BAD_REQUEST_IDS_LENGTH"),
            OracleError::FailToParseRate { rate, symbol } => {
                let text = String::from_str("FAIL_TO_PARSE_RATE_");
                let text = text.concat(rate.as_str());
                let text = text.concat("_FOR_");
                text.concat(symbol.as_str())
            },
            OracleError::BasesQuotesSizeIsNotEqual { bases, quotes } => {
                let left = format_decimal(*bases as u128);
                let right = format_decimal(*quotes as u128);
                let text = String::from_str("BASES_QUOTES_SIZE_IS_NOT_EQUAL:");
                let text = text.concat(left.as_str());
                let text = text.concat("!=");
                text.concat(right.as_str())
            },
        }
    }
}

} // verus!
