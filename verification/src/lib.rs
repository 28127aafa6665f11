//! Client core for a chemistry database's REST interface: URL building,
//! response extraction over a JSON model, and the formula-search state
//! machine. Network transport and the inter-request delay live with the
//! caller; everything here is pure computation over plain values.
use vstd::prelude::*;

pub mod extract;
pub mod formula;
pub mod jsonval;
pub mod numtext;
pub mod urls;

verus! {

/// The fixed delay, in milliseconds, that the caller owes after every
/// completed request (success or failure) before issuing another: it bounds
/// one client at five requests per second. The transport layer performs the
/// wait; operations that chain requests pay it once per request, serially.
pub const DELAY_MILLIS: u64 = 200;

/// A hard failure while extracting fields from a response body.
///
/// A non-OK HTTP status is not an error: extractors map it to the
/// operation's sentinel value instead.
#[derive(Clone, Copy, Debug, PartialEq, Eq, Structural)]
pub enum ExtractError {
    /// The body is not syntactically valid JSON.
    Parse,
    /// An expected key or index is missing (or has the wrong type) at some
    /// hop of the fixed navigation path.
    Shape,
}

} // verus!
