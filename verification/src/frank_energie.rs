//! Frank Energie price resolution.

use vstd::prelude::*;

verus! {

/// Resolution of the market prices.
#[derive(Clone, Copy, PartialEq, Eq, Structural, Debug)]
pub enum Resolution {
    /// 15-minute prices.
    Quarterly,
    /// Hourly prices.
    Hourly,
}

impl Resolution {
    /// Name of the resolution in the Frank Energie API.
    pub fn api_name(self) -> (name: &'static str)
        ensures
            name@ == match self {
                Resolution::Quarterly => "PT15M"@,
                Resolution::Hourly => "PT60M"@,
            },
    {
        match self {
            Resolution::Quarterly => "PT15M",
            Resolution::Hourly => "PT60M",
        }
    }
}

} // verus!
