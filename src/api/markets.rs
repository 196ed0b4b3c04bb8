use vstd::prelude::*;

verus! {

/// A market as returned by the `/v2/reference/markets` endpoint.
#[derive(Clone, Debug, PartialEq)]
pub struct Market {
    /// The market.
    pub market: String,
    /// A description of the market.
    pub description: String,
}

/// The path of the markets endpoint.
pub const PATH: &'static str = "/v2/reference/markets";

} // verus!
