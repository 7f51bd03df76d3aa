//! The wallet's errors, and the error answer of a mint.

use vstd::prelude::*;

verus! {

/// What went wrong. Errors of outside libraries are held by their message.
#[derive(Debug, Clone, PartialEq, Eq)]
pub enum Error {
    /// Parse Url Error
    UrlParseError(String),
    /// Utf8 parse error
    Utf8ParseError(String),
    /// Serde Json error
    SerdeJsonError(String),
    /// Base64 error
    Base64Error(String),
    /// From hex error
    HexError(String),
    /// Secp256k1 error
    Secp256k1(String),
    /// No Key for Amount
    AmountKey,
    /// Amount miss match
    Amount,
    /// Token already spent
    TokenSpent,
    /// Token not verified
    TokenNotVerifed,
    /// Invoice Amount undefined
    InvoiceAmountUndefined,
    /// Proof missing required field
    MissingProofField,
    /// No valid point found
    NoValidPoint,
    /// Kind not found
    KindNotFound,
    /// Unknown Tag
    UnknownTag,
    /// Incorrect Secret Kind
    IncorrectSecretKind,
    /// Spending conditions not met
    SpendConditionsNotMet,
    /// Could not convert key
    Key,
    /// Invalid signature
    InvalidSignature,
    /// Locktime in past
    LocktimeInPast,
    /// Secret error
    Secret(String),
    /// NUT-01 error
    NUT01(String),
    /// NUT-02 error
    NUT02(String),
    /// Integer parse error
    ParseInt(String),
    /// Custom error
    CustomError(String),
    /// The mint is not in the store
    IncorrectMint,
    /// The mint does not support the unit
    UnsupportedUnit,
    /// The mint does not support invoice descriptions
    InvoiceDescriptionUnsupported,
    /// The quote is not in the store
    UnknownQuote,
    /// The transaction is not in the store
    TransactionNotFound,
    /// The mint did not answer in time
    Timeout,
    /// A signature's DLEQ proof did not verify
    CouldNotVerifyDleq,
    /// The keys of the active keyset are not in the store
    NoActiveKeyset,
    /// An amount does not fit in 64 bits
    AmountOverflow,
    /// The proofs do not cover the amount and the fees
    InsufficientFunds,
    /// The transaction cannot be reverted in its direction
    InvalidTransactionDirection,
}

/// The error answer of a mint.
#[derive(Debug, Clone, PartialEq, Eq)]
pub struct ErrorResponse {
    pub code: u32,
    pub error: Option<String>,
    pub detail: Option<String>,
}

/// The code of an error answer that could not be read as one.
pub const UNKNOWN_ERROR_CODE: u32 = 999;

impl ErrorResponse {
    /// The error answer in a mint's reply `json`, given what reading `json` as an
    /// error answer gave (`parsed`). Where it could not be read, the answer has
    /// the code 999 and the whole reply as its error text. Reading a reply never
    /// fails.
    pub fn from_json(json: &str, parsed: Option<ErrorResponse>) -> (res: ErrorResponse)
        ensures
            match parsed {
                Some(p) => res == p,
                None => {
                    &&& res.code == UNKNOWN_ERROR_CODE
                    &&& res.error is Some
                    &&& res.error->0@ == json@
                    &&& res.detail is None
                },
            },
    {
        match parsed {
            Some(p) => p,
            None => ErrorResponse { code: UNKNOWN_ERROR_CODE, error: Some(json.to_owned()), detail: None },
        }
    }
}

} // verus!
