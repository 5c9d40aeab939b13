//! The ways in which a query fails.

use vstd::prelude::*;
use vstd::string::*;
use crate::encoding::{bytes_text, decimal_text, render_bytes, render_decimal};
use crate::types::OutPoint;

verus! {

/// Why a query failed. That a record is absent is no failure: it is an empty
/// result.
#[derive(Debug, PartialEq, Eq)]
pub enum QueryError {
    /// A text of the request could not be read; this is the reader's message.
    InvalidInput(String),
    /// A block was asked for by neither number nor hash.
    MissingSelector,
    /// A block was asked for by number and hash, and the hash is not that of the
    /// block at the number.
    HashMismatch,
    /// A batch held an out-point that does not exist, and was not to skip it.
    CellNotFound(OutPoint),
    /// A capacity does not fit into 64 bits.
    CapacityOverflow,
}

/// What a `QueryError` holds, as mathematical values.
pub enum QueryErrorView {
    InvalidInput(Seq<char>),
    MissingSelector,
    HashMismatch,
    CellNotFound(OutPoint),
    CapacityOverflow,
}

impl View for QueryError {
    type V = QueryErrorView;

    open spec fn view(&self) -> QueryErrorView {
        match self {
            QueryError::InvalidInput(message) => QueryErrorView::InvalidInput(message@),
            QueryError::MissingSelector => QueryErrorView::MissingSelector,
            QueryError::HashMismatch => QueryErrorView::HashMismatch,
            QueryError::CellNotFound(out_point) => QueryErrorView::CellNotFound(*out_point),
            QueryError::CapacityOverflow => QueryErrorView::CapacityOverflow,
        }
    }
}

/// The message that names a missing cell: its transaction hash as text, `@`
/// and its index in decimal digits.
pub open spec fn missing_cell_message(out_point: OutPoint) -> Seq<char> {
    "Cannot find cell: "@ + bytes_text(out_point.tx_hash@) + "@"@ + decimal_text(
        out_point.index as nat,
    ) + "!"@
}

impl QueryErrorView {
    /// The message of an error.
    pub open spec fn message(self) -> Seq<char> {
        match self {
            QueryErrorView::InvalidInput(message) => message,
            QueryErrorView::MissingSelector => {
                "You must specify either block number or block hash!"@
            },
            QueryErrorView::HashMismatch => {
                "Block at specified number does not match block hash!"@
            },
            QueryErrorView::CellNotFound(out_point) => missing_cell_message(out_point),
            QueryErrorView::CapacityOverflow => "capacity overflow"@,
        }
    }
}

impl QueryError {
    /// The message of the error, as a caller is to read it.
    pub fn message(&self) -> (text: String)
        ensures
            text@ == self@.message(),
    {
        match self {
            QueryError::InvalidInput(message) => message.clone(),
            QueryError::MissingSelector => String::from_str(
                "You must specify either block number or block hash!",
            ),
            QueryError::HashMismatch => String::from_str(
                "Block at specified number does not match block hash!",
            ),
            QueryError::CellNotFound(out_point) => {
                let mut text = String::from_str("Cannot find cell: ");
                let hash = render_bytes(out_point.tx_hash.as_slice());
                text.append(hash.as_str());
                text.append("@");
                let index = render_decimal(out_point.index);
                text.append(index.as_str());
                text.append("!");
                text
            },
            QueryError::CapacityOverflow => String::from_str("capacity overflow"),
        }
    }
}

} // verus!
