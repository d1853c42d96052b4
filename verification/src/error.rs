//! The error taxonomy of the client: every failure the library can originate
//! or relay is one of these variants, returned as a typed value.

use vstd::prelude::*;
use vstd::string::*;
use crate::common::OperationKind;

verus! {

/// Every failure the core can produce.
///
/// None of these aborts the process: builder misuse and cycle rejection are
/// reported as values, scalar and shape failures are surfaced to the caller.
#[derive(Debug)]
pub enum ShopifyGqlError {
    /// Identifier construction was given a payload that is empty or not
    /// purely decimal digits; carries the offending raw payload.
    InvalidIdentifier(String),
    /// A scalar wire string (a money amount, a weight, a weight-unit tag)
    /// failed to parse; carries the offending string.
    InvalidScalar(String),
    /// An update-only or embed call was made on the wrong builder kind;
    /// carries the operation the builder was created for and the name of
    /// the attempted call.
    BuilderMisuse { operation: String, attempted_call: String },
    /// An embedded sub-selection would select back into the entity kind that
    /// is embedding it; carries the name of the rejected entity kind.
    CycleRejected(String),
    /// The reply matched a known response shape, but not the one belonging to
    /// the operation that was sent.
    ResponseShapeMismatch { expected: OperationKind, actual: OperationKind },
    /// The reply bytes match no known response shape; carries the raw body.
    TransportDecodeError(String),
    /// The remote signaled a request-level failure; carries its payload text.
    RemoteError(String),
}

pub type ShopifyResult<T> = Result<T, ShopifyGqlError>;

impl ShopifyGqlError {
    /// Render the error as a human-readable line.
    pub fn message(&self) -> (r: String)
        ensures
            r@ == self.message_spec(),
    {
        match self {
            ShopifyGqlError::InvalidIdentifier(raw) => String::from_str("Invalid ID (")
                .concat(raw.as_str())
                .concat("): The ID must only be numbers"),
            ShopifyGqlError::InvalidScalar(raw) => String::from_str("Unable to parse ")
                .concat(raw.as_str())
                .concat(" as a decimal value"),
            ShopifyGqlError::BuilderMisuse { operation, attempted_call } => String::from_str(
                "Builder misuse: `",
            ).concat(attempted_call.as_str()).concat("` is not valid on a `").concat(
                operation.as_str(),
            ).concat("` builder"),
            ShopifyGqlError::CycleRejected(kind) => String::from_str("Cycle rejected: a `")
                .concat(kind.as_str())
                .concat("` sub-selection may not select its embedding entity"),
            ShopifyGqlError::ResponseShapeMismatch { expected, actual } => String::from_str(
                "Response shape mismatch: expected ",
            ).concat(expected.name()).concat(", got ").concat(actual.name()),
            ShopifyGqlError::TransportDecodeError(body) => String::from_str(
                "Unable to parse response: ",
            ).concat(body.as_str()),
            ShopifyGqlError::RemoteError(details) => String::from_str("Remote error: ").concat(
                details.as_str(),
            ),
        }
    }

    /// The exact text `message` returns, per variant.
    pub open spec fn message_spec(&self) -> Seq<char> {
        match self {
            ShopifyGqlError::InvalidIdentifier(raw) => "Invalid ID ("@ + raw@
                + "): The ID must only be numbers"@,
            ShopifyGqlError::InvalidScalar(raw) => "Unable to parse "@ + raw@
                + " as a decimal value"@,
            ShopifyGqlError::BuilderMisuse { operation, attempted_call } => "Builder misuse: `"@
                + attempted_call@ + "` is not valid on a `"@ + operation@ + "` builder"@,
            ShopifyGqlError::CycleRejected(kind) => "Cycle rejected: a `"@ + kind@
                + "` sub-selection may not select its embedding entity"@,
            ShopifyGqlError::ResponseShapeMismatch { expected, actual } => {
                "Response shape mismatch: expected "@ + expected.name_spec() + ", got "@
                    + actual.name_spec()
            },
            ShopifyGqlError::TransportDecodeError(body) => "Unable to parse response: "@ + body@,
            ShopifyGqlError::RemoteError(details) => "Remote error: "@ + details@,
        }
    }
}

} // verus!
