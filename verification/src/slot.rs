//! Price slots and their conversion from raw API items.

use vstd::prelude::*;
use vstd::string::StringExecFns;
use crate::error::AwattarError;

verus! {

/// The unit label the API is expected to deliver prices in.
pub open spec fn supported_unit() -> Seq<char> {
    "Eur/MWh"@
}

/// One raw item of the API response, after the wire's floating-point market
/// price has been scaled to fixed point by the caller.
///
/// This record is transient: it exists only between decoding a response and
/// building the slots, and carries plain values throughout.
pub struct AwattarDataItem {
    /// Start of the interval, in milliseconds since the Unix epoch.
    pub start_timestamp: i64,
    /// End of the interval, in milliseconds since the Unix epoch.
    pub end_timestamp: i64,
    /// Market price in hundredths of a Euro (Euro-cents) per MWh: the wire
    /// value in Euro per MWh times one hundred, truncated toward zero.
    pub marketprice_cents: i32,
    /// Unit label of the market price; the only supported value is
    /// `"Eur/MWh"`.
    pub unit: String,
}

/// A single price slot: one fixed market interval with one price.
#[derive(Clone, Debug, PartialEq, Eq, Structural)]
pub struct PriceSlot {
    /// Start time of this price slot, in milliseconds since the Unix epoch
    start_millis: i64,
    /// Non-inclusive end time of this price slot, in milliseconds since the
    /// Unix epoch
    end_millis: i64,
    /// Price in Euro-cents/MWh. The price is stored as an integer to avoid
    /// floating-point errors.
    price_cents_per_mwh: i32,
}

/// The price per kilowatt-hour derived from a price per megawatt-hour:
/// division by one thousand, truncating toward zero.
pub open spec fn cents_per_kwh(price_per_mwh: int) -> int {
    if price_per_mwh >= 0 {
        price_per_mwh / 1000
    } else {
        -((-price_per_mwh) / 1000)
    }
}

impl PriceSlot {
    /// Start instant of this slot, as milliseconds since the Unix epoch.
    pub closed spec fn spec_start(self) -> i64 {
        self.start_millis
    }

    /// End instant of this slot, as milliseconds since the Unix epoch.
    pub closed spec fn spec_end(self) -> i64 {
        self.end_millis
    }

    /// Price of this slot in Euro-cents per MWh.
    pub closed spec fn spec_price(self) -> i32 {
        self.price_cents_per_mwh
    }

    /// Instant this `PriceSlot` is valid from, in milliseconds since the
    /// Unix epoch.
    pub fn start(&self) -> (r: i64)
        ensures
            r == self.spec_start(),
    {
        self.start_millis
    }

    /// Non-inclusive instant this `PriceSlot` is valid to, in milliseconds
    /// since the Unix epoch.
    pub fn end(&self) -> (r: i64)
        ensures
            r == self.spec_end(),
    {
        self.end_millis
    }

    /// Price in Euro-Cents/MWh.
    pub fn price_cents_per_mwh(&self) -> (r: i32)
        ensures
            r == self.spec_price(),
    {
        self.price_cents_per_mwh
    }

    /// Price in Euro-Cents/kWh, truncated toward zero.
    pub fn price_per_kwh(&self) -> (r: i32)
        ensures
            r as int == cents_per_kwh(self.spec_price() as int),
    {
        let q = self.price_cents_per_mwh.checked_div(1000);
        proof {
            assert(q is Some);
        }
        q.unwrap()
    }

    /// Converts one raw API item into a price slot.
    ///
    /// Succeeds exactly when the item's unit label is `"Eur/MWh"`; any other
    /// label fails the conversion with `UnsupportedResponse` carrying the
    /// offending label. The timestamps and the fixed-point price are taken
    /// over unchanged.
    pub fn from_item(item: &AwattarDataItem) -> (r: Result<PriceSlot, AwattarError>)
        ensures
            r is Ok <==> item.unit@ == supported_unit(),
            r matches Ok(s) ==> {
                &&& s.spec_start() == item.start_timestamp
                &&& s.spec_end() == item.end_timestamp
                &&& s.spec_price() == item.marketprice_cents
            },
            r matches Err(e) ==> e matches AwattarError::UnsupportedResponse(u) && u@
                == item.unit@,
    {
        let expected: String = String::from_str("Eur/MWh");
        if item.unit == expected {
            Ok(
                PriceSlot {
                    start_millis: item.start_timestamp,
                    end_millis: item.end_timestamp,
                    price_cents_per_mwh: item.marketprice_cents,
                },
            )
        } else {
            Err(AwattarError::UnsupportedResponse(item.unit.clone()))
        }
    }
}

/// Whether an instant falls inside a slot's validity interval: the start is
/// inclusive, the end exclusive.
pub open spec fn slot_contains(s: PriceSlot, t: int) -> bool {
    s.spec_start() <= t < s.spec_end()
}

} // verus!
