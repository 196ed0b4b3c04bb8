use vstd::prelude::*;

verus! {

/// An exchange as returned by the `/v1/meta/exchanges` endpoint.
///
/// Please note that not all fields available in a response are
/// represented here.
#[derive(Clone, Debug, PartialEq)]
pub struct Exchange {
    /// Exchange ID.
    pub id: usize,
    /// The type of exchange.
    pub type_: String,
    /// The type of market data the exchange provides.
    pub market: String,
    /// The exchange's name.
    pub name: String,
    /// The exchange's code.
    ///
    /// This field is seemingly only set for exchanges of type `Equities`.
    pub code: Option<String>,
}

/// The path of the exchanges endpoint.
pub const PATH: &'static str = "/v1/meta/exchanges";

} // verus!
