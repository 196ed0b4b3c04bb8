use vstd::prelude::*;

use std::collections::BTreeMap;

verus! {

/// A struct representing the ticker types.
///
/// Please note that not all fields available in a response are
/// represented here.
#[derive(Clone, Debug, PartialEq)]
pub struct TickerTypes {
    /// A mapping from ticker types to descriptions.
    pub types: BTreeMap<String, String>,
    /// A mapping from index types to descriptions.
    pub index_types: BTreeMap<String, String>,
}

/// The path of the ticker types endpoint.
pub const PATH: &'static str = "/v2/reference/types";

} // verus!
