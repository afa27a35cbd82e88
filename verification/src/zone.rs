//! The closed set of market zones the aWattar API serves.

use vstd::prelude::*;

verus! {

/// Zone for awattar prices.
///
/// Currently supports Austria and Germany; the set is deliberately closed so
/// that endpoint and timezone lookup are total and exhaustively checked.
#[derive(Clone, Copy, Debug, PartialEq, Eq, Structural)]
pub enum AwattarZone {
    /// Prices for Austria
    Austria,
    /// Prices for Germany
    Germany,
}

impl AwattarZone {
    /// The fixed API endpoint of a zone, as a sequence of characters.
    pub open spec fn spec_api_endpoint(self) -> Seq<char> {
        match self {
            AwattarZone::Austria => "https://api.awattar.at/v1/marketdata"@,
            AwattarZone::Germany => "https://api.awattar.de/v1/marketdata"@,
        }
    }

    /// The IANA identifier of a zone's local timezone, as a sequence of
    /// characters.
    pub open spec fn spec_timezone(self) -> Seq<char> {
        match self {
            AwattarZone::Austria => "Europe/Vienna"@,
            AwattarZone::Germany => "Europe/Berlin"@,
        }
    }

    /// Returns the API endpoint for the given zone.
    pub fn api_endpoint(&self) -> (r: &'static str)
        ensures
            r@ == self.spec_api_endpoint(),
    {
        match self {
            AwattarZone::Austria => "https://api.awattar.at/v1/marketdata",
            AwattarZone::Germany => "https://api.awattar.de/v1/marketdata",
        }
    }

    /// Returns the IANA name of the local timezone of the given zone.
    ///
    /// While all currently supported zones share one timezone, future zones
    /// may not; querying a full local day needs the zone's own timezone.
    pub fn timezone(&self) -> (r: &'static str)
        ensures
            r@ == self.spec_timezone(),
    {
        match self {
            AwattarZone::Austria => "Europe/Vienna",
            AwattarZone::Germany => "Europe/Berlin",
        }
    }
}

} // verus!
