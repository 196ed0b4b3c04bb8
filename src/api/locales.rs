use vstd::prelude::*;

verus! {

/// A locale as returned by the `/v2/reference/locales` endpoint.
#[derive(Clone, Debug, PartialEq)]
pub struct Locale {
    /// The locale.
    pub locale: String,
    /// The name of the locale.
    pub name: String,
}

/// The path of the locales endpoint.
pub const PATH: &'static str = "/v2/reference/locales";

} // verus!
