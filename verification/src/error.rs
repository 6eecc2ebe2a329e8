//! Error conditions of a pager session.

use vstd::prelude::*;

verus! {

/// Everything that can go wrong while the pager runs.  The surrounding
/// program attaches the underlying causes; the library only distinguishes
/// the conditions.
#[derive(Debug, PartialEq, Eq)]
pub enum Error {
    /// A numeric value did not fit the required type.
    Cast,
    /// The terminal or the input source failed.
    Io,
    /// A boundary pattern could not be built.
    RegexBuild,
    /// A search matcher could not be built from the query.
    SearchTerm,
    /// Receiving from the input channel failed.
    StreamingReceive,
    /// A batch could not be delivered to the consumer.
    StreamingSend,
    /// The first batch of input did not arrive in time.
    StreamingTimeout,
    /// The visible slice could not be taken from the buffer.
    GetLines,
}

} // verus!
