//! What a request hands in as text.

use vstd::prelude::*;
use crate::encoding::{hash_from_text, index_from_text, parsed_view, read_hash, read_index};
use crate::types::OutPoint;

verus! {

/// An out-point as a request writes it: the transaction hash and the index,
/// each as text.
#[derive(Debug, PartialEq, Eq)]
pub struct InputOutPoint {
    pub tx_hash: String,
    pub index: String,
}

/// What an `InputOutPoint` holds, as mathematical values.
pub struct InputOutPointView {
    pub tx_hash: Seq<char>,
    pub index: Seq<char>,
}

impl View for InputOutPoint {
    type V = InputOutPointView;

    open spec fn view(&self) -> InputOutPointView {
        InputOutPointView { tx_hash: self.tx_hash@, index: self.index@ }
    }
}

/// The out-point that an input denotes: the hash that its first text denotes
/// and the index that its second denotes. Where a text cannot be read, the
/// reader's message, the hash's first.
pub open spec fn out_point_from_input(input: InputOutPointView) -> Result<OutPoint, Seq<char>> {
    match hash_from_text(input.tx_hash) {
        Ok(tx_hash) => match index_from_text(input.index) {
            Ok(index) => Ok(OutPoint { tx_hash, index }),
            Err(message) => Err(message),
        },
        Err(message) => Err(message),
    }
}

impl OutPoint {
    /// Reads an out-point from the texts of an input.
    pub fn try_from(o: &InputOutPoint) -> (parsed: Result<OutPoint, String>)
        ensures
            parsed_view(parsed) == out_point_from_input(o@),
    {
        match read_hash(o.tx_hash.as_str()) {
            Ok(tx_hash) => match read_index(o.index.as_str()) {
                Ok(index) => Ok(OutPoint { tx_hash, index }),
                Err(message) => Err(message),
            },
            Err(message) => Err(message),
        }
    }
}

} // verus!
