//! Client-side model of the aWattar day-ahead electricity market API.
//!
//! The library models market prices as a sequence of discrete time slots,
//! each carrying a fixed-point price in Euro-cents per megawatt-hour, and
//! offers accessors over a fetched collection (minimum, maximum, lookup by
//! instant). Network transport and JSON decoding live outside the library;
//! callers hand it plain values.

mod collection;
mod date;
mod error;
mod slot;
mod zone;

pub use collection::all_supported;
pub use collection::is_first_max;
pub use collection::is_first_min;
pub use collection::lemma_out_of_range_no_slot;
pub use collection::lemma_slot_containing_unique;
pub use collection::slots_well_ordered;
pub use collection::PriceData;
pub use date::date_query_range;
pub use date::days_in_month;
pub use date::is_leap_year;
pub use date::local_midnight_millis;
pub use date::spec_date_query_range;
pub use date::spec_next_day;
pub use date::CivilDate;
pub use date::MAX_YEAR;
pub use error::AwattarError;
pub use slot::cents_per_kwh;
pub use slot::slot_contains;
pub use slot::supported_unit;
pub use slot::AwattarDataItem;
pub use slot::PriceSlot;
pub use zone::AwattarZone;
