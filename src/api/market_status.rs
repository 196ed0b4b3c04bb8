use vstd::prelude::*;

use crate::message::Timestamp;

verus! {

/// The market status.
#[derive(Clone, Copy, Debug, PartialEq, Eq, Structural)]
pub enum Status {
    /// The market is currently open.
    Open,
    /// The market is currently closed.
    Closed,
    /// Any other status that we have not accounted for.
    ///
    /// Note that having any such status should be considered a bug.
    Unknown,
}

impl Status {
    /// The status that the service reports under `name`: `open`, `closed`,
    /// or anything else.
    pub fn from_name(name: &str) -> (r: Status)
        ensures
            name@ == "open"@ ==> r == Status::Open,
            name@ == "closed"@ ==> r == Status::Closed,
            name@ != "open"@ && name@ != "closed"@ ==> r == Status::Unknown,
    {
        proof {
            reveal_strlit("open");
            reveal_strlit("closed");
            assert("open"@.len() != "closed"@.len());
        }
        if crate::text::same_text(name, "open") {
            Status::Open
        } else if crate::text::same_text(name, "closed") {
            Status::Closed
        } else {
            Status::Unknown
        }
    }
}

/// The market status as returned by the `/v1/marketstatus/now` endpoint.
///
/// Please note that not all fields available in a response are
/// represented here.
#[derive(Clone, Copy, Debug, PartialEq, Eq, Structural)]
pub struct Market {
    /// The status of the market as a whole.
    pub status: Status,
    /// The current server time.
    pub server_time: Timestamp,
}

/// The path of the market status endpoint.
pub const PATH: &'static str = "/v1/marketstatus/now";

} // verus!
