//! Telling whether the engine holds a value exactly.

use vstd::prelude::*;
use crate::bytes::ByteOrder;
use crate::laws::{held_exactly, lemma_round_trip, lemma_round_trip_only, round_trips};
use crate::rdf_variant::variant_exact;
use crate::temporal::{DateTime, Duration};
use crate::value::{named_values_view, value_pairs_view, values_view, RDFVariant, Value};

verus! {

/// Tells whether an instant is a whole number of units of `unit`
/// nanoseconds, for the units microsecond, millisecond and second.
fn is_whole(instant: &DateTime, unit: i128) -> (r: bool)
    requires
        unit == 1000 || unit == 1_000_000 || unit == 1_000_000_000,
    ensures
        r == (instant@ % (unit as int) == 0),
        crate::temporal::date_time_in_range(instant@),
{
    let nanos = instant.unix_nanos();
    if nanos >= 0 {
        nanos % unit == 0
    } else {
        (-nanos) % unit == 0
    }
}

impl Duration {
    /// Tells whether an interval holds this span exactly: whether it is a
    /// whole number of microseconds whose months fit 32 bits.
    pub fn is_exact_interval(&self) -> (r: bool)
        ensures
            r == crate::temporal::interval_exact(self@),
    {
        let nanos = self.whole_nanoseconds();
        let whole = if nanos >= 0 {
            nanos % 1000 == 0
        } else {
            (-nanos) % 1000 == 0
        };
        let months = nanos / 86_400_000_000_000 / 30;
        whole && -0x8000_0000 <= months && months <= 0x7fff_ffff
    }
}

impl RDFVariant {
    /// Tells whether the payload of this scalar holds it exactly.
    pub fn is_held_exactly(&self) -> (r: bool)
        ensures
            r == variant_exact(self@),
    {
        match self {
            RDFVariant::Date(date) => {
                let days = date.unix_days();
                -4_371_587 <= days && days <= 2_932_896
            },
            RDFVariant::Timestamp(instant) => is_whole(instant, 1000),
            RDFVariant::Interval(span) => span.is_exact_interval(),
            _ => true,
        }
    }
}

/// Tells whether the engine holds every value of a list exactly.
fn items_held_exactly(items: &Vec<Value>) -> (r: bool)
    ensures
        r == (forall|i: int| 0 <= i < items.len() ==> held_exactly(#[trigger] values_view(items@)[i])),
    decreases items,
{
    let mut i: usize = 0;
    while i < items.len()
        invariant
            i <= items.len(),
            forall|j: int| 0 <= j < i ==> held_exactly(#[trigger] values_view(items@)[j]),
        decreases items.len() - i,
    {
        if !items[i].is_held_exactly() {
            assert(!held_exactly(values_view(items@)[i as int]));
            return false;
        }
        i += 1;
    }
    true
}

/// Tells whether the engine holds the value of every field exactly.
fn fields_held_exactly(fields: &Vec<(String, Value)>) -> (r: bool)
    ensures
        r == (forall|i: int|
            0 <= i < fields.len() ==> held_exactly((#[trigger] named_values_view(fields@)[i]).1)),
    decreases fields,
{
    let mut i: usize = 0;
    while i < fields.len()
        invariant
            i <= fields.len(),
            forall|j: int| 0 <= j < i ==> held_exactly((#[trigger] named_values_view(fields@)[j]).1),
        decreases fields.len() - i,
    {
        if !fields[i].1.is_held_exactly() {
            assert(!held_exactly(named_values_view(fields@)[i as int].1));
            return false;
        }
        i += 1;
    }
    true
}

/// Tells whether the engine holds every key and every value exactly.
fn entries_held_exactly(entries: &Vec<(Value, Value)>) -> (r: bool)
    ensures
        r == (forall|i: int|
            0 <= i < entries.len() ==> held_exactly((#[trigger] value_pairs_view(entries@)[i]).0)
                && held_exactly(value_pairs_view(entries@)[i].1)),
    decreases entries,
{
    let mut i: usize = 0;
    while i < entries.len()
        invariant
            i <= entries.len(),
            forall|j: int|
                0 <= j < i ==> held_exactly((#[trigger] value_pairs_view(entries@)[j]).0)
                    && held_exactly(value_pairs_view(entries@)[j].1),
        decreases entries.len() - i,
    {
        if !entries[i].0.is_held_exactly() || !entries[i].1.is_held_exactly() {
            let ghost entry = value_pairs_view(entries@)[i as int];
            assert(!(held_exactly(entry.0) && held_exactly(entry.1)));
            return false;
        }
        i += 1;
    }
    true
}

impl Value {
    /// Tells whether the engine holds this value exactly, so that sending
    /// it to the engine and reading it back gives the same value.
    pub fn is_held_exactly(&self) -> (r: bool)
        ensures
            r == held_exactly(self@),
        decreases self,
    {
        proof {
            self.lemma_view();
        }
        match self {
            Value::Date(date) => {
                let days = date.unix_days();
                -4_371_587 <= days && days <= 2_932_896
            },
            Value::Interval(span) => span.is_exact_interval(),
            Value::Timestamp(instant) => is_whole(instant, 1000),
            Value::TimestampTz(instant) => is_whole(instant, 1000),
            Value::TimestampNs(instant) => {
                let nanos = instant.unix_nanos();
                -0x8000_0000_0000_0000 <= nanos && nanos <= 0x7fff_ffff_ffff_ffff
            },
            Value::TimestampMs(instant) => is_whole(instant, 1_000_000),
            Value::TimestampSec(instant) => is_whole(instant, 1_000_000_000),
            Value::List(_, items) => {
                assert(decreases_to!(self => self->List_1));
                assert(self@->List_1 == values_view(items@));
                items_held_exactly(items)
            },
            Value::Array(_, items) => {
                assert(decreases_to!(self => self->Array_1));
                assert(self@->Array_1 == values_view(items@));
                items_held_exactly(items)
            },
            Value::Struct(fields) => {
                assert(decreases_to!(self => self->Struct_0));
                assert(self@->Struct_0 == named_values_view(fields@));
                fields_held_exactly(fields)
            },
            Value::MapOf(_, entries) => {
                assert(decreases_to!(self => self->MapOf_1));
                assert(self@->MapOf_1 == value_pairs_view(entries@));
                entries_held_exactly(entries)
            },
            Value::Union { types: _, value } => value.is_held_exactly(),
            Value::Node(_) => false,
            Value::Rel(_) => false,
            Value::RecursiveRel { .. } => false,
            Value::RDFVariant(x) => x.is_held_exactly(),
            _ => true,
        }
    }

    /// Sends this value to the engine's form and reads it back, and tells
    /// whether the same value came back.  It does for exactly the values
    /// that the engine holds exactly.
    pub fn survives_round_trip(&self, order: ByteOrder) -> (r: bool)
        ensures
            r == round_trips(self@, order),
            r == held_exactly(self@),
    {
        proof {
            if held_exactly(self@) {
                lemma_round_trip(self@, order);
            }
            if round_trips(self@, order) {
                lemma_round_trip_only(self@, order);
            }
        }
        match self.to_foreign(order) {
            Err(_) => false,
            Ok(sent) => match Value::from_foreign(&sent, order) {
                Err(_) => false,
                Ok(back) => back == *self,
            },
        }
    }
}

} // verus!
