//! What holds of encoding and decoding together.

use vstd::prelude::*;
use crate::bytes::ByteOrder;
use crate::codec::{
    decode_entries_prefix, decode_prefix, decode_value, encode_entries_prefix,
    encode_fields_prefix, encode_prefix, encode_value, entry_type, foreign_value_well_formed,
    is_plain_value, map_entry_well_formed, nested, zip_fields,
};
use crate::error::ConversionErrorView;
use crate::decode::lemma_decode_prefix_items;
use crate::foreign::ForeignValueView;
use crate::logical_type::{LogicalTypeID, LogicalTypeView};
use crate::rdf_variant::{lemma_variant_round_trip, variant_exact, variant_tag};
use crate::temporal::{
    date_in_range, date_time_in_range, interval_exact, lemma_interval_round_trip,
};
use crate::type_codec::{lemma_struct_members, lemma_type_round_trip, type_to_foreign};
use crate::value::{type_of, ValueView};
use crate::wide_int::{lemma_int128_round_trip, lemma_uuid_round_trip, uuid_to_signed};

verus! {

/// The values that the engine holds exactly.
///
/// A date and a timestamp are of the calendar.  A timestamp is a whole
/// number of the unit that its kind is sent in, microseconds unless the
/// kind says otherwise, and one in nanoseconds fits 64 bits.  An interval
/// is a whole number of microseconds and its months fit 32 bits.  A list,
/// an array, a struct, a map and a union hold only such values.  A node,
/// a relationship and a path are not among them.
pub open spec fn held_exactly(v: ValueView) -> bool
    decreases v,
{
    match v {
        ValueView::Date(days) => date_in_range(days),
        ValueView::Interval(nanos) => interval_exact(nanos),
        ValueView::Timestamp(nanos) => date_time_in_range(nanos) && nanos % 1000 == 0,
        ValueView::TimestampTz(nanos) => date_time_in_range(nanos) && nanos % 1000 == 0,
        ValueView::TimestampNs(nanos) => date_time_in_range(nanos) && -0x8000_0000_0000_0000
            <= nanos <= 0x7fff_ffff_ffff_ffff,
        ValueView::TimestampMs(nanos) => date_time_in_range(nanos) && nanos % 1_000_000 == 0,
        ValueView::TimestampSec(nanos) => date_time_in_range(nanos) && nanos % 1_000_000_000
            == 0,
        ValueView::List(_, items) => forall|i: int|
            0 <= i < items.len() ==> held_exactly(#[trigger] items[i]),
        ValueView::Array(_, items) => forall|i: int|
            0 <= i < items.len() ==> held_exactly(#[trigger] items[i]),
        ValueView::Struct(fields) => forall|i: int|
            0 <= i < fields.len() ==> held_exactly((#[trigger] fields[i]).1),
        ValueView::MapOf(_, entries) => forall|i: int|
            0 <= i < entries.len() ==> held_exactly((#[trigger] entries[i]).0) && held_exactly(
                entries[i].1,
            ),
        ValueView::Union { types: _, value } => held_exactly(*value),
        ValueView::Node(_) => false,
        ValueView::Rel(_) => false,
        ValueView::RecursiveRel { .. } => false,
        ValueView::RDFVariant(x) => variant_exact(x),
        _ => true,
    }
}

/// What a round trip through the engine's form comes to: the value is
/// encoded, the engine value is well formed, and decoding it gives the
/// value.
pub open spec fn round_trips(v: ValueView, order: ByteOrder) -> bool {
    encode_value(v, order) matches Ok(f) && foreign_value_well_formed(f) && decode_value(f, order)
        == Ok::<ValueView, ConversionErrorView>(v)
}

/// Decoding the first `n` children does not depend on a child that
/// follows them.
pub proof fn lemma_decode_prefix_push(
    children: Seq<ForeignValueView>,
    last: ForeignValueView,
    n: nat,
    order: ByteOrder,
)
    requires
        n <= children.len(),
    ensures
        decode_prefix(children.push(last), n, order) == decode_prefix(children, n, order),
    decreases n,
{
    if n > 0 {
        lemma_decode_prefix_push(children, last, (n - 1) as nat, order);
        assert(children.push(last)[n - 1] == children[n - 1]);
    }
}

/// Decoding the first `n` entries does not depend on a child that follows
/// them.
pub proof fn lemma_decode_entries_prefix_push(
    children: Seq<ForeignValueView>,
    last: ForeignValueView,
    n: nat,
    order: ByteOrder,
)
    requires
        n <= children.len(),
    ensures
        decode_entries_prefix(children.push(last), n, order) == decode_entries_prefix(
            children,
            n,
            order,
        ),
    decreases n,
{
    if n > 0 {
        lemma_decode_entries_prefix_push(children, last, (n - 1) as nat, order);
        assert(children.push(last)[n - 1] == children[n - 1]);
    }
}

/// The first `n` values of a list of values that are held exactly are
/// encoded, as `n` well-formed children that decode to these values.
pub proof fn lemma_items_round_trip(items: Seq<ValueView>, n: nat, order: ByteOrder)
    requires
        n <= items.len(),
        forall|i: int| 0 <= i < items.len() ==> held_exactly(#[trigger] items[i]),
    ensures
        encode_prefix(items, n, order) matches Ok(children) && children.len() == n && (forall|
            i: int,
        |
            0 <= i < n ==> foreign_value_well_formed(#[trigger] children[i])) && decode_prefix(
            children,
            n,
            order,
        ) == Ok::<Seq<ValueView>, ConversionErrorView>(items.take(n as int)),
    decreases items, n,
{
    if n == 0 {
        assert(items.take(0) =~= Seq::empty());
    } else {
        lemma_items_round_trip(items, (n - 1) as nat, order);
        lemma_round_trip(items[n - 1], order);
        let done = encode_prefix(items, (n - 1) as nat, order)->Ok_0;
        let f = encode_value(items[n - 1], order)->Ok_0;
        lemma_decode_prefix_push(done, f, (n - 1) as nat, order);
        assert(done.push(f)[n - 1] == f);
        assert(items.take(n as int) =~= items.take(n - 1).push(items[n - 1]));
    }
}

/// The same for the fields of a struct.
pub proof fn lemma_fields_round_trip(
    fields: Seq<(Seq<char>, ValueView)>,
    n: nat,
    order: ByteOrder,
)
    requires
        n <= fields.len(),
        forall|i: int| 0 <= i < fields.len() ==> held_exactly((#[trigger] fields[i]).1),
    ensures
        encode_fields_prefix(fields, n, order) matches Ok(children) && {
            &&& children.len() == n
            &&& forall|i: int| 0 <= i < n ==> foreign_value_well_formed(#[trigger] children[i])
            &&& decode_prefix(children, n, order) is Ok
            &&& decode_prefix(children, n, order)->Ok_0.len() == n
            &&& forall|i: int|
                0 <= i < n ==> #[trigger] decode_prefix(children, n, order)->Ok_0[i] == fields[i].1
        },
    decreases fields, n,
{
    if n > 0 {
        lemma_fields_round_trip(fields, (n - 1) as nat, order);
        lemma_round_trip(fields[n - 1].1, order);
        let done = encode_fields_prefix(fields, (n - 1) as nat, order)->Ok_0;
        let f = encode_value(fields[n - 1].1, order)->Ok_0;
        lemma_decode_prefix_push(done, f, (n - 1) as nat, order);
        assert(done.push(f)[n - 1] == f);
    }
}

/// The same for the entries of a map.
pub proof fn lemma_entries_round_trip(
    entries: Seq<(ValueView, ValueView)>,
    n: nat,
    pair_type: LogicalTypeView,
    order: ByteOrder,
)
    requires
        n <= entries.len(),
        forall|i: int|
            0 <= i < entries.len() ==> held_exactly((#[trigger] entries[i]).0) && held_exactly(
                entries[i].1,
            ),
    ensures
        encode_entries_prefix(entries, n, pair_type, order) matches Ok(children) && children.len()
            == n && (forall|i: int| 0 <= i < n ==> map_entry_well_formed(#[trigger] children[i]))
            && decode_entries_prefix(children, n, order) == Ok::<
            Seq<(ValueView, ValueView)>,
            ConversionErrorView,
        >(entries.take(n as int)),
    decreases entries, n,
{
    if n == 0 {
        assert(entries.take(0) =~= Seq::empty());
    } else {
        lemma_entries_round_trip(entries, (n - 1) as nat, pair_type, order);
        lemma_round_trip(entries[n - 1].0, order);
        lemma_round_trip(entries[n - 1].1, order);
        let done = encode_entries_prefix(entries, (n - 1) as nat, pair_type, order)->Ok_0;
        let key = encode_value(entries[n - 1].0, order)->Ok_0;
        let value = encode_value(entries[n - 1].1, order)->Ok_0;
        let pair = nested(pair_type, seq![key, value]);
        lemma_decode_entries_prefix_push(done, pair, (n - 1) as nat, order);
        assert(done.push(pair)[n - 1] == pair);
        assert(entries.take(n as int) =~= entries.take(n - 1).push(entries[n - 1]));
    }
}

/// The round trip of a null or a scalar.
pub proof fn lemma_plain_round_trip(v: ValueView, order: ByteOrder)
    requires
        held_exactly(v),
        is_plain_value(v),
    ensures
        round_trips(v, order),
{
    match v {
        ValueView::Null(t) => {
            lemma_type_round_trip(t);
        },
        ValueView::Int128(x) => {
            lemma_int128_round_trip(x);
        },
        ValueView::UUID(x) => {
            lemma_uuid_round_trip(x, x);
            lemma_int128_round_trip(uuid_to_signed(x as int) as i128);
        },
        ValueView::Interval(nanos) => {
            lemma_interval_round_trip(nanos);
        },
        _ => {},
    }
}

/// The round trip of a list or an array.
pub proof fn lemma_list_round_trip(v: ValueView, order: ByteOrder)
    requires
        held_exactly(v),
        v is List || v is Array,
    ensures
        round_trips(v, order),
    decreases v, 0nat,
{
    lemma_type_round_trip(type_of(v));
    match v {
        ValueView::List(t, items) => {
            lemma_items_round_trip(items, items.len(), order);
            assert(items.take(items.len() as int) =~= items);
        },
        ValueView::Array(t, items) => {
            lemma_items_round_trip(items, items.len(), order);
            assert(items.take(items.len() as int) =~= items);
        },
        _ => {},
    }
}

/// The round trip of a struct.
pub proof fn lemma_struct_round_trip(v: ValueView, order: ByteOrder)
    requires
        held_exactly(v),
        v is Struct,
    ensures
        round_trips(v, order),
    decreases v, 0nat,
{
    let fields = v->Struct_0;
    lemma_fields_round_trip(fields, fields.len(), order);
    lemma_type_round_trip(type_of(v));
    let children = encode_fields_prefix(fields, fields.len(), order)->Ok_0;
    lemma_struct_members(type_of(v)->Struct_fields);
    let members = type_to_foreign(type_of(v)).fields;
    assert(members.len() == fields.len());
    let items = decode_prefix(children, fields.len(), order)->Ok_0;
    assert(zip_fields(members, items) =~= fields);
}

/// The round trip of a map.
pub proof fn lemma_map_round_trip(v: ValueView, order: ByteOrder)
    requires
        held_exactly(v),
        v is MapOf,
    ensures
        round_trips(v, order),
    decreases v, 0nat,
{
    let types = v->MapOf_0;
    let entries = v->MapOf_1;
    lemma_entries_round_trip(entries, entries.len(), entry_type(types.0, types.1), order);
    lemma_type_round_trip(type_of(v));
    assert(entries.take(entries.len() as int) =~= entries);
}

/// The round trip of a union.
pub proof fn lemma_union_round_trip(v: ValueView, order: ByteOrder)
    requires
        held_exactly(v),
        v is Union,
    ensures
        round_trips(v, order),
    decreases v, 0nat,
{
    lemma_round_trip(*v->Union_value, order);
    lemma_type_round_trip(type_of(v));
}

/// The round trip of a dynamically typed scalar.
pub proof fn lemma_variant_value_round_trip(v: ValueView, order: ByteOrder)
    requires
        held_exactly(v),
        v is RDFVariant,
    ensures
        round_trips(v, order),
{
    let x = v->RDFVariant_0;
    lemma_variant_round_trip(x, order);
    lemma_tag_round_trip(variant_tag(x));
    lemma_type_round_trip(LogicalTypeView::RDFVariant);
}

/// Round trip.  A value that the engine holds exactly is encoded, and
/// decoding what was encoded gives the value again: its elements, fields
/// and entries in their order, the names of a struct's fields as they
/// were, a null with its type.
pub proof fn lemma_round_trip(v: ValueView, order: ByteOrder)
    requires
        held_exactly(v),
    ensures
        round_trips(v, order),
    decreases v, 1nat,
{
    if v is List || v is Array {
        lemma_list_round_trip(v, order);
    } else if v is Struct {
        lemma_struct_round_trip(v, order);
    } else if v is MapOf {
        lemma_map_round_trip(v, order);
    } else if v is Union {
        lemma_union_round_trip(v, order);
    } else if v is RDFVariant {
        lemma_variant_value_round_trip(v, order);
    } else {
        lemma_plain_round_trip(v, order);
    }
}

/// The first `n` values of a list that are encoded are encoded as `n`
/// well-formed children.
pub proof fn lemma_items_well_formed(items: Seq<ValueView>, n: nat, order: ByteOrder)
    requires
        n <= items.len(),
    ensures
        encode_prefix(items, n, order) matches Ok(children) ==> children.len() == n && forall|
            i: int,
        |
            0 <= i < n ==> foreign_value_well_formed(#[trigger] children[i]),
    decreases items, n,
{
    if n > 0 {
        lemma_items_well_formed(items, (n - 1) as nat, order);
        lemma_encoded_well_formed(items[n - 1], order);
    }
}

/// The same for the fields of a struct.
pub proof fn lemma_fields_well_formed(
    fields: Seq<(Seq<char>, ValueView)>,
    n: nat,
    order: ByteOrder,
)
    requires
        n <= fields.len(),
    ensures
        encode_fields_prefix(fields, n, order) matches Ok(children) ==> children.len() == n
            && forall|i: int| 0 <= i < n ==> foreign_value_well_formed(#[trigger] children[i]),
    decreases fields, n,
{
    if n > 0 {
        lemma_fields_well_formed(fields, (n - 1) as nat, order);
        lemma_encoded_well_formed(fields[n - 1].1, order);
    }
}

/// The same for the entries of a map.
pub proof fn lemma_entries_well_formed(
    entries: Seq<(ValueView, ValueView)>,
    n: nat,
    pair_type: LogicalTypeView,
    order: ByteOrder,
)
    requires
        n <= entries.len(),
    ensures
        encode_entries_prefix(entries, n, pair_type, order) matches Ok(children) ==> children.len()
            == n && forall|i: int| 0 <= i < n ==> map_entry_well_formed(#[trigger] children[i]),
    decreases entries, n,
{
    if n > 0 {
        lemma_entries_well_formed(entries, (n - 1) as nat, pair_type, order);
        lemma_encoded_well_formed(entries[n - 1].0, order);
        lemma_encoded_well_formed(entries[n - 1].1, order);
    }
}

/// What is encoded can be decoded: the engine value of any value is well
/// formed.
pub proof fn lemma_encoded_well_formed(v: ValueView, order: ByteOrder)
    ensures
        encode_value(v, order) matches Ok(f) ==> foreign_value_well_formed(f),
    decreases v, 0nat,
{
    lemma_type_round_trip(type_of(v));
    match v {
        ValueView::Null(t) => {},
        ValueView::List(_, items) => {
            lemma_items_well_formed(items, items.len(), order);
        },
        ValueView::Array(_, items) => {
            lemma_items_well_formed(items, items.len(), order);
        },
        ValueView::Struct(fields) => {
            lemma_fields_well_formed(fields, fields.len(), order);
            lemma_struct_members(type_of(v)->Struct_fields);
        },
        ValueView::MapOf(types, entries) => {
            lemma_entries_well_formed(
                entries,
                entries.len(),
                entry_type(types.0, types.1),
                order,
            );
        },
        ValueView::Union { types, value } => {
            lemma_encoded_well_formed(*value, order);
        },
        ValueView::RDFVariant(x) => {
            lemma_tag_round_trip(variant_tag(x));
            crate::rdf_variant::lemma_payload_well_formed(x, order);
        },
        _ => {},
    }
}

/// An interval that the engine holds, once decoded, is held exactly
/// unless its months no longer fit 32 bits: encoding it may give other
/// months, days and microseconds than it was read from, and decoding
/// these gives the same span.
pub proof fn lemma_decoded_interval_round_trip(months: i32, days: i32, micros: i64, order: ByteOrder)
    requires
        -0x8000_0000 <= crate::temporal::interval_months(
            crate::temporal::interval_nanos(months as int, days as int, micros as int),
        ) <= 0x7fff_ffff,
    ensures
        round_trips(
            ValueView::Interval(
                crate::temporal::interval_nanos(months as int, days as int, micros as int),
            ),
            order,
        ),
{
    let v = ValueView::Interval(
        crate::temporal::interval_nanos(months as int, days as int, micros as int),
    );
    lemma_round_trip(v, order);
}

/// A timestamp that the engine holds in nanoseconds is always of the
/// calendar: decoding it never fails.
pub proof fn lemma_timestamp_ns_decodes(count: i64, order: ByteOrder)
    ensures
        decode_value(ForeignValueView::TimestampNs(count), order) == Ok::<
            ValueView,
            ConversionErrorView,
        >(ValueView::TimestampNs(count as int)),
{
}

/// An id is read back from its number.
pub proof fn lemma_tag_round_trip(id: LogicalTypeID)
    ensures
        LogicalTypeID::spec_from_repr(id.spec_repr()) == Some(id),
{
}

/// Null preservation.  A null of any type, however deeply its type is
/// nested, is encoded, and decoding what was encoded gives the null of
/// that type.
pub proof fn lemma_null_round_trip(t: LogicalTypeView, order: ByteOrder)
    ensures
        round_trips(ValueView::Null(t), order),
{
    lemma_round_trip(ValueView::Null(t), order);
}

/// Where the first `n` values of a list are encoded, each child is the
/// engine value of the value at its place.
pub proof fn lemma_encode_prefix_items(items: Seq<ValueView>, n: nat, order: ByteOrder)
    requires
        n <= items.len(),
        encode_prefix(items, n, order) is Ok,
    ensures
        encode_prefix(items, n, order)->Ok_0.len() == n,
        forall|i: int|
            0 <= i < n ==> encode_value(#[trigger] items[i], order) == Ok::<
                ForeignValueView,
                LogicalTypeView,
            >(encode_prefix(items, n, order)->Ok_0[i]),
    decreases n,
{
    if n > 0 {
        lemma_encode_prefix_items(items, (n - 1) as nat, order);
    }
}

/// The same for the fields of a struct.
pub proof fn lemma_encode_fields_prefix_items(
    fields: Seq<(Seq<char>, ValueView)>,
    n: nat,
    order: ByteOrder,
)
    requires
        n <= fields.len(),
        encode_fields_prefix(fields, n, order) is Ok,
    ensures
        encode_fields_prefix(fields, n, order)->Ok_0.len() == n,
        forall|i: int|
            0 <= i < n ==> encode_value((#[trigger] fields[i]).1, order) == Ok::<
                ForeignValueView,
                LogicalTypeView,
            >(encode_fields_prefix(fields, n, order)->Ok_0[i]),
    decreases n,
{
    if n > 0 {
        lemma_encode_fields_prefix_items(fields, (n - 1) as nat, order);
    }
}

/// The same for the entries of a map: each child holds the engine values
/// of the key and of the value at its place.
pub proof fn lemma_encode_entries_prefix_items(
    entries: Seq<(ValueView, ValueView)>,
    n: nat,
    pair_type: LogicalTypeView,
    order: ByteOrder,
)
    requires
        n <= entries.len(),
        encode_entries_prefix(entries, n, pair_type, order) is Ok,
    ensures
        encode_entries_prefix(entries, n, pair_type, order)->Ok_0.len() == n,
        forall|i: int|
            0 <= i < n ==> {
                &&& encode_value((#[trigger] entries[i]).0, order) is Ok
                &&& encode_value(entries[i].1, order) is Ok
                &&& encode_entries_prefix(entries, n, pair_type, order)->Ok_0[i] == nested(
                    pair_type,
                    seq![
                        encode_value(entries[i].0, order)->Ok_0,
                        encode_value(entries[i].1, order)->Ok_0,
                    ],
                )
            },
    decreases n,
{
    if n > 0 {
        lemma_encode_entries_prefix_items(entries, (n - 1) as nat, pair_type, order);
    }
}

/// Where the first `n` children of a map decode and each is an entry,
/// there are `n` entries, each the key and the value of the child at its
/// place.
pub proof fn lemma_decode_entries_prefix_items(
    children: Seq<ForeignValueView>,
    n: nat,
    order: ByteOrder,
)
    requires
        n <= children.len(),
        decode_entries_prefix(children, n, order) is Ok,
        forall|i: int| 0 <= i < n ==> map_entry_well_formed(#[trigger] children[i]),
    ensures
        decode_entries_prefix(children, n, order)->Ok_0.len() == n,
        forall|i: int|
            0 <= i < n ==> {
                &&& decode_value((#[trigger] children[i])->Nested_children[0], order) == Ok::<
                    ValueView,
                    ConversionErrorView,
                >(decode_entries_prefix(children, n, order)->Ok_0[i].0)
                &&& decode_value(children[i]->Nested_children[1], order) == Ok::<
                    ValueView,
                    ConversionErrorView,
                >(decode_entries_prefix(children, n, order)->Ok_0[i].1)
            },
    decreases n,
{
    if n > 0 {
        lemma_decode_entries_prefix_items(children, (n - 1) as nat, order);
        assert(map_entry_well_formed(children[n - 1]));
    }
}

/// Only a null or a scalar that the engine holds exactly makes the round
/// trip.
pub proof fn lemma_plain_round_trip_only(v: ValueView, order: ByteOrder)
    requires
        round_trips(v, order),
        is_plain_value(v),
    ensures
        held_exactly(v),
{
    match v {
        ValueView::Interval(nanos) => {
            if !interval_exact(nanos) {
                crate::temporal::lemma_interval_inexact(nanos);
            }
        },
        _ => {},
    }
}

/// Only a dynamically typed scalar that its payload holds exactly makes
/// the round trip.
pub proof fn lemma_variant_value_round_trip_only(v: ValueView, order: ByteOrder)
    requires
        round_trips(v, order),
        v is RDFVariant,
    ensures
        held_exactly(v),
{
    let x = v->RDFVariant_0;
    lemma_tag_round_trip(variant_tag(x));
    crate::rdf_variant::lemma_variant_round_trip_only(x, order);
}

/// Only a list or an array of values that the engine holds exactly makes
/// the round trip.
pub proof fn lemma_list_round_trip_only(v: ValueView, order: ByteOrder)
    requires
        round_trips(v, order),
        v is List || v is Array,
    ensures
        held_exactly(v),
    decreases v, 0nat,
{
    lemma_type_round_trip(type_of(v));
    let children = encode_value(v, order)->Ok_0->Nested_children;
    let items = if v is List {
        v->List_1
    } else {
        v->Array_1
    };
    lemma_encode_prefix_items(items, items.len(), order);
    lemma_decode_prefix_items(children, children.len(), order);
    assert forall|i: int| 0 <= i < items.len() implies held_exactly(#[trigger] items[i]) by {
        assert(foreign_value_well_formed(children[i]));
        lemma_round_trip_only(items[i], order);
    }
}

/// Only a struct of values that the engine holds exactly makes the round
/// trip.
pub proof fn lemma_struct_round_trip_only(v: ValueView, order: ByteOrder)
    requires
        round_trips(v, order),
        v is Struct,
    ensures
        held_exactly(v),
    decreases v, 0nat,
{
    lemma_type_round_trip(type_of(v));
    let fields = v->Struct_0;
    let f = encode_value(v, order)->Ok_0;
    let children = f->Nested_children;
    lemma_struct_members(type_of(v)->Struct_fields);
    lemma_encode_fields_prefix_items(fields, fields.len(), order);
    lemma_decode_prefix_items(children, children.len(), order);
    let items = decode_prefix(children, children.len(), order)->Ok_0;
    assert forall|i: int| 0 <= i < fields.len() implies held_exactly((#[trigger] fields[i]).1) by {
        assert(foreign_value_well_formed(children[i]));
        assert(zip_fields(f->Nested_data_type.fields, items)[i] == fields[i]);
        lemma_round_trip_only(fields[i].1, order);
    }
}

/// Where the entries of a map are encoded as well-formed children that
/// decode to these entries, the engine holds every key and every value
/// exactly.
pub proof fn lemma_entries_round_trip_only(
    entries: Seq<(ValueView, ValueView)>,
    children: Seq<ForeignValueView>,
    pair_type: LogicalTypeView,
    order: ByteOrder,
)
    requires
        encode_entries_prefix(entries, entries.len(), pair_type, order) == Ok::<
            Seq<ForeignValueView>,
            LogicalTypeView,
        >(children),
        forall|i: int| 0 <= i < children.len() ==> map_entry_well_formed(#[trigger] children[i]),
        decode_entries_prefix(children, children.len(), order) == Ok::<
            Seq<(ValueView, ValueView)>,
            ConversionErrorView,
        >(entries),
    ensures
        forall|i: int|
            0 <= i < entries.len() ==> held_exactly((#[trigger] entries[i]).0) && held_exactly(
                entries[i].1,
            ),
    decreases entries, 0nat,
{
    lemma_encode_entries_prefix_items(entries, entries.len(), pair_type, order);
    lemma_decode_entries_prefix_items(children, children.len(), order);
    assert forall|i: int| 0 <= i < entries.len() implies held_exactly((#[trigger] entries[i]).0)
        && held_exactly(entries[i].1) by {
        assert(map_entry_well_formed(children[i]));
        let pair = children[i]->Nested_children;
        assert(pair[0] == encode_value(entries[i].0, order)->Ok_0);
        assert(pair[1] == encode_value(entries[i].1, order)->Ok_0);
        lemma_round_trip_only(entries[i].0, order);
        lemma_round_trip_only(entries[i].1, order);
    }
}

/// Only a map of keys and values that the engine holds exactly makes the
/// round trip.
pub proof fn lemma_map_round_trip_only(v: ValueView, order: ByteOrder)
    requires
        round_trips(v, order),
        v is MapOf,
    ensures
        held_exactly(v),
    decreases v, 0nat,
{
    let types = v->MapOf_0;
    let entries = v->MapOf_1;
    let pair_type = entry_type(types.0, types.1);
    let f = encode_value(v, order)->Ok_0;
    assert(encode_entries_prefix(entries, entries.len(), pair_type, order) is Ok);
    let children = encode_entries_prefix(entries, entries.len(), pair_type, order)->Ok_0;
    assert(f == nested(type_of(v), children));
    assert(f->Nested_data_type.id == LogicalTypeID::MAP);
    assert forall|i: int| 0 <= i < children.len() implies map_entry_well_formed(
        #[trigger] children[i],
    ) by {}
    assert(decode_entries_prefix(children, children.len(), order) is Ok);
    assert(decode_entries_prefix(children, children.len(), order)->Ok_0 == entries);
    lemma_entries_round_trip_only(entries, children, pair_type, order);
}

/// Only a union of a value that the engine holds exactly makes the round
/// trip.
pub proof fn lemma_union_round_trip_only(v: ValueView, order: ByteOrder)
    requires
        round_trips(v, order),
        v is Union,
    ensures
        held_exactly(v),
    decreases v, 0nat,
{
    lemma_type_round_trip(type_of(v));
    let children = encode_value(v, order)->Ok_0->Nested_children;
    assert(foreign_value_well_formed(children[0]));
    lemma_round_trip_only(*v->Union_value, order);
}

/// Only what the engine holds exactly makes the round trip: for every
/// other value, encoding fails or decoding what was encoded gives another
/// value or an error.
pub proof fn lemma_round_trip_only(v: ValueView, order: ByteOrder)
    requires
        round_trips(v, order),
    ensures
        held_exactly(v),
    decreases v, 1nat,
{
    if v is List || v is Array {
        lemma_list_round_trip_only(v, order);
    } else if v is Struct {
        lemma_struct_round_trip_only(v, order);
    } else if v is MapOf {
        lemma_map_round_trip_only(v, order);
    } else if v is Union {
        lemma_union_round_trip_only(v, order);
    } else if v is RDFVariant {
        lemma_variant_value_round_trip_only(v, order);
    } else if v is Node || v is Rel || v is RecursiveRel {
    } else {
        lemma_plain_round_trip_only(v, order);
    }
}

} // verus!
