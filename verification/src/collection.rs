//! An ordered collection of price slots tagged with their zone.

use vstd::prelude::*;
use crate::error::AwattarError;
use crate::slot::{slot_contains, supported_unit, AwattarDataItem, PriceSlot};
use crate::zone::AwattarZone;

verus! {

/// Whether every item of a batch carries the supported unit label.
pub open spec fn all_supported(items: Seq<AwattarDataItem>) -> bool {
    forall|i: int| 0 <= i < items.len() ==> (#[trigger] items[i]).unit@ == supported_unit()
}

/// The ordering the remote API promises of one response: every slot's end is
/// at or after its start, and slots are chronologically non-decreasing and
/// do not overlap.
pub open spec fn slots_well_ordered(s: Seq<PriceSlot>) -> bool {
    &&& forall|i: int|
        0 <= i < s.len() ==> (#[trigger] s[i]).spec_start() <= s[i].spec_end()
    &&& forall|i: int, j: int|
        0 <= i < j < s.len() ==> (#[trigger] s[i]).spec_end() <= (#[trigger] s[j]).spec_start()
}

/// The first index of a minimal price in a sequence of slots: no price is
/// lower, and every earlier price is strictly higher.
pub open spec fn is_first_min(s: Seq<PriceSlot>, i: int) -> bool {
    &&& 0 <= i < s.len()
    &&& forall|j: int| 0 <= j < s.len() ==> s[i].spec_price() <= (#[trigger] s[j]).spec_price()
    &&& forall|j: int| 0 <= j < i ==> s[i].spec_price() < (#[trigger] s[j]).spec_price()
}

/// The first index of a maximal price in a sequence of slots: no price is
/// higher, and every earlier price is strictly lower.
pub open spec fn is_first_max(s: Seq<PriceSlot>, i: int) -> bool {
    &&& 0 <= i < s.len()
    &&& forall|j: int| 0 <= j < s.len() ==> s[i].spec_price() >= (#[trigger] s[j]).spec_price()
    &&& forall|j: int| 0 <= j < i ==> s[i].spec_price() > (#[trigger] s[j]).spec_price()
}

/// Holds a set of price slots and provides some utility functions for
/// working with price data.
#[derive(Clone, Debug)]
pub struct PriceData {
    slots: Vec<PriceSlot>,
    zone: AwattarZone,
}

impl View for PriceData {
    type V = Seq<PriceSlot>;

    closed spec fn view(&self) -> Seq<PriceSlot> {
        self.slots@
    }
}

impl PriceData {
    /// The zone this collection was fetched for.
    pub closed spec fn spec_zone(self) -> AwattarZone {
        self.zone
    }

    /// Create a new instance from a [`Vec`] of [`PriceSlot`]s.
    pub fn from_slots(slots: Vec<PriceSlot>, zone: AwattarZone) -> (r: Self)
        ensures
            r@ == slots@,
            r.spec_zone() == zone,
    {
        Self { slots, zone }
    }

    /// Converts a whole batch of raw API items into a collection for the
    /// given zone, preserving the API's item order.
    ///
    /// The batch policy is all-or-nothing: the conversion succeeds exactly
    /// when every item carries the supported unit label, and otherwise fails
    /// with `UnsupportedResponse` carrying the first offending label, never
    /// returning a partial collection.
    pub fn from_items(items: Vec<AwattarDataItem>, zone: AwattarZone) -> (r: Result<
        Self,
        AwattarError,
    >)
        ensures
            r is Ok <==> all_supported(items@),
            r matches Ok(d) ==> {
                &&& d.spec_zone() == zone
                &&& d@.len() == items@.len()
                &&& forall|i: int|
                    0 <= i < items@.len() ==> {
                        &&& (#[trigger] d@[i]).spec_start() == items@[i].start_timestamp
                        &&& d@[i].spec_end() == items@[i].end_timestamp
                        &&& d@[i].spec_price() == items@[i].marketprice_cents
                    }
            },
            r matches Err(e) ==> exists|i: int|
                {
                    &&& 0 <= i < items@.len()
                    &&& (#[trigger] items@[i]).unit@ != supported_unit()
                    &&& forall|j: int| 0 <= j < i ==> (#[trigger] items@[j]).unit@ == supported_unit()
                    &&& e matches AwattarError::UnsupportedResponse(u) && u@ == items@[i].unit@
                },
    {
        let mut slots: Vec<PriceSlot> = Vec::new();
        let mut idx: usize = 0;
        while idx < items.len()
            invariant
                idx <= items@.len(),
                slots@.len() == idx,
                forall|i: int| 0 <= i < idx ==> (#[trigger] items@[i]).unit@ == supported_unit(),
                forall|i: int|
                    0 <= i < idx ==> {
                        &&& (#[trigger] slots@[i]).spec_start() == items@[i].start_timestamp
                        &&& slots@[i].spec_end() == items@[i].end_timestamp
                        &&& slots@[i].spec_price() == items@[i].marketprice_cents
                    },
            decreases items@.len() - idx,
        {
            match PriceSlot::from_item(&items[idx]) {
                Ok(s) => slots.push(s),
                Err(e) => {
                    return Err(e);
                },
            }
            idx += 1;
        }
        Ok(Self { slots, zone })
    }

    /// Returns the number of slots this instance is holding.
    pub fn len(&self) -> (r: usize)
        ensures
            r == self@.len(),
    {
        self.slots.len()
    }

    /// Return `true` when this instance contains no [`PriceSlot`]s.
    pub fn is_empty(&self) -> (r: bool)
        ensures
            r == (self@.len() == 0),
    {
        self.slots.len() == 0
    }

    /// Return a [`Vec`] of [`PriceSlot`]s this instance is holding.
    pub fn slots(&self) -> (r: &Vec<PriceSlot>)
        ensures
            r@ == self@,
    {
        &self.slots
    }

    /// Gives up this instance for the [`Vec`] of [`PriceSlot`]s it holds.
    pub fn into_slots(self) -> (r: Vec<PriceSlot>)
        ensures
            r@ == self@,
    {
        self.slots
    }

    /// The slots this instance holds, in order, for walking them one by one.
    /// Useful for things like calculating the average price over a day.
    pub fn slots_iter(&self) -> (r: &Vec<PriceSlot>)
        ensures
            r@ == self@,
    {
        &self.slots
    }

    /// Finds and returns the first [`PriceSlot`] whose half-open validity
    /// interval contains the given instant, given in milliseconds since the
    /// Unix epoch.
    ///
    /// If no slot contains the instant, `None` is returned.
    pub fn slot_for_datetime(&self, datetime_millis: i64) -> (r: Option<&PriceSlot>)
        ensures
            match r {
                None => forall|i: int|
                    0 <= i < self@.len() ==> !slot_contains(#[trigger] self@[i], datetime_millis as int),
                Some(s) => exists|i: int|
                    {
                        &&& 0 <= i < self@.len()
                        &&& *s == self@[i]
                        &&& slot_contains(#[trigger] self@[i], datetime_millis as int)
                        &&& forall|j: int|
                            0 <= j < i ==> !slot_contains(#[trigger] self@[j], datetime_millis as int)
                    },
            },
    {
        let mut idx: usize = 0;
        while idx < self.slots.len()
            invariant
                idx <= self@.len(),
                forall|j: int|
                    0 <= j < idx ==> !slot_contains(#[trigger] self@[j], datetime_millis as int),
            decreases self@.len() - idx,
        {
            let slot = &self.slots[idx];
            if slot.start() <= datetime_millis && datetime_millis < slot.end() {
                return Some(slot);
            }
            idx += 1;
        }
        None
    }

    /// Returns the [`PriceSlot`] with the lowest price, ties broken by first
    /// occurrence in collection order.
    ///
    /// If this instance does not contain any price slots, `None` is
    /// returned.
    pub fn min_price(&self) -> (r: Option<&PriceSlot>)
        ensures
            match r {
                None => self@.len() == 0,
                Some(s) => exists|i: int| #[trigger] is_first_min(self@, i) && *s == self@[i],
            },
    {
        if self.slots.len() == 0 {
            return None;
        }
        let mut best: usize = 0;
        let mut idx: usize = 1;
        while idx < self.slots.len()
            invariant
                0 < self@.len(),
                best < idx <= self@.len(),
                forall|j: int|
                    0 <= j < idx ==> self@[best as int].spec_price() <= (
                    #[trigger] self@[j]).spec_price(),
                forall|j: int|
                    0 <= j < best ==> self@[best as int].spec_price() < (
                    #[trigger] self@[j]).spec_price(),
            decreases self@.len() - idx,
        {
            if self.slots[idx].price_cents_per_mwh() < self.slots[best].price_cents_per_mwh() {
                best = idx;
            }
            idx += 1;
        }
        proof {
            assert(is_first_min(self@, best as int));
        }
        Some(&self.slots[best])
    }

    /// Returns the [`PriceSlot`] with the highest price, ties broken by
    /// first occurrence in collection order.
    ///
    /// If this instance does not contain any price slots, `None` is
    /// returned.
    pub fn max_price(&self) -> (r: Option<&PriceSlot>)
        ensures
            match r {
                None => self@.len() == 0,
                Some(s) => exists|i: int| #[trigger] is_first_max(self@, i) && *s == self@[i],
            },
    {
        if self.slots.len() == 0 {
            return None;
        }
        let mut best: usize = 0;
        let mut idx: usize = 1;
        while idx < self.slots.len()
            invariant
                0 < self@.len(),
                best < idx <= self@.len(),
                forall|j: int|
                    0 <= j < idx ==> self@[best as int].spec_price() >= (
                    #[trigger] self@[j]).spec_price(),
                forall|j: int|
                    0 <= j < best ==> self@[best as int].spec_price() > (
                    #[trigger] self@[j]).spec_price(),
            decreases self@.len() - idx,
        {
            if self.slots[idx].price_cents_per_mwh() > self.slots[best].price_cents_per_mwh() {
                best = idx;
            }
            idx += 1;
        }
        proof {
            assert(is_first_max(self@, best as int));
        }
        Some(&self.slots[best])
    }

    /// Returns the zone this instance belongs in.
    pub fn zone(&self) -> (r: AwattarZone)
        ensures
            r == self.spec_zone(),
    {
        self.zone
    }
}

/// Within a well-ordered sequence of slots, at most one slot contains any
/// given instant.
pub proof fn lemma_slot_containing_unique(s: Seq<PriceSlot>, t: int, i: int, j: int)
    requires
        slots_well_ordered(s),
        0 <= i < s.len(),
        0 <= j < s.len(),
        slot_contains(s[i], t),
        slot_contains(s[j], t),
    ensures
        i == j,
{
}

/// In a well-ordered, non-empty sequence of slots, an instant before the
/// first slot's start or at or after the last slot's end lies in no slot.
pub proof fn lemma_out_of_range_no_slot(s: Seq<PriceSlot>, t: int)
    requires
        slots_well_ordered(s),
        s.len() > 0,
        t < s[0].spec_start() || t >= s[s.len() - 1].spec_end(),
    ensures
        forall|i: int| 0 <= i < s.len() ==> !slot_contains(#[trigger] s[i], t),
{
    assert forall|i: int| 0 <= i < s.len() implies !slot_contains(#[trigger] s[i], t) by {
        if t < s[0].spec_start() {
            if i > 0 {
                assert(s[0].spec_end() <= s[i].spec_start());
            }
        } else {
            if i < s.len() - 1 {
                assert(s[i].spec_end() <= s[s.len() - 1].spec_start());
            }
        }
    }
}

} // verus!
