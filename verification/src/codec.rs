//! What the conversion between values and engine values computes, stated
//! over the views of both.

use vstd::prelude::*;
use crate::bytes::ByteOrder;
use crate::error::ConversionErrorView;
use crate::foreign::{ForeignTypeView, ForeignValueView};
use crate::logical_type::{LogicalTypeID, LogicalTypeView};
use crate::rdf_variant::{payload_well_formed, variant_decode, variant_payload, variant_tag};
use crate::temporal::{
    date_in_range, date_time_in_range, interval_days, interval_micros, interval_months,
    interval_nanos, trunc_div,
};
use crate::type_codec::{foreign_type_well_formed, type_from_foreign, type_to_foreign};
use crate::value::{type_of, NodeValView, RelValView, ValueView};
use crate::wide_int::{int128_high, int128_join, int128_low, uuid_from_signed, uuid_to_signed};

verus! {

/// What encoding gives: an engine value, or the read-only type of the
/// value that stood in the way.
pub type Encoded = Result<ForeignValueView, LogicalTypeView>;

/// What encoding a list gives.
pub type EncodedList = Result<Seq<ForeignValueView>, LogicalTypeView>;

/// What decoding gives.
pub type Decoded = Result<ValueView, ConversionErrorView>;

/// The values that are a null or a scalar.
pub open spec fn is_plain_value(v: ValueView) -> bool {
    !(v is List || v is Array || v is Struct || v is MapOf || v is Union || v is Node || v is Rel
        || v is RecursiveRel || v is RDFVariant)
}

/// An engine value made of an ordered sequence of children, under a
/// type.
pub open spec fn nested(t: LogicalTypeView, children: Seq<ForeignValueView>) -> ForeignValueView {
    ForeignValueView::Nested { data_type: type_to_foreign(t), children }
}

/// The type of the entries of a map, as the engine holds it: a struct of
/// a key and a value.
pub open spec fn entry_type(key_type: LogicalTypeView, value_type: LogicalTypeView)
    -> LogicalTypeView {
    LogicalTypeView::Struct { fields: seq![("KEY"@, key_type), ("VALUE"@, value_type)] }
}

/// The engine values of the first `n` values of a list, or the first
/// failure among them.
pub open spec fn encode_prefix(items: Seq<ValueView>, n: nat, order: ByteOrder) -> EncodedList
    decreases items, n,
{
    if n == 0 || n > items.len() {
        Ok(Seq::empty())
    } else {
        match encode_prefix(items, (n - 1) as nat, order) {
            Err(e) => Err(e),
            Ok(done) => match encode_value(items[n - 1], order) {
                Err(e) => Err(e),
                Ok(f) => Ok(done.push(f)),
            },
        }
    }
}

/// The engine values of the first `n` fields of a struct, or the first
/// failure among them.
pub open spec fn encode_fields_prefix(
    fields: Seq<(Seq<char>, ValueView)>,
    n: nat,
    order: ByteOrder,
) -> EncodedList
    decreases fields, n,
{
    if n == 0 || n > fields.len() {
        Ok(Seq::empty())
    } else {
        match encode_fields_prefix(fields, (n - 1) as nat, order) {
            Err(e) => Err(e),
            Ok(done) => match encode_value(fields[n - 1].1, order) {
                Err(e) => Err(e),
                Ok(f) => Ok(done.push(f)),
            },
        }
    }
}

/// The engine values of the first `n` entries of a map, each a struct of
/// the key and the value, or the first failure among them, a key before
/// its value.
pub open spec fn encode_entries_prefix(
    entries: Seq<(ValueView, ValueView)>,
    n: nat,
    pair_type: LogicalTypeView,
    order: ByteOrder,
) -> EncodedList
    decreases entries, n,
{
    if n == 0 || n > entries.len() {
        Ok(Seq::empty())
    } else {
        match encode_entries_prefix(entries, (n - 1) as nat, pair_type, order) {
            Err(e) => Err(e),
            Ok(done) => match encode_value(entries[n - 1].0, order) {
                Err(e) => Err(e),
                Ok(key) => match encode_value(entries[n - 1].1, order) {
                    Err(e) => Err(e),
                    Ok(value) => Ok(done.push(nested(pair_type, seq![key, value]))),
                },
            },
        }
    }
}

/// The engine value of a value.
///
/// A null becomes the engine's null of its type; a scalar the engine's
/// scalar of the same kind.  A list, an array, a struct, a map and a
/// union become the sequence of their encoded children under their type,
/// a map having one struct of key and value for each entry.  A node, a
/// relationship and a path are never encoded: the result is their type.
/// The failure of a child is the failure of the whole.
pub open spec fn encode_value(v: ValueView, order: ByteOrder) -> Encoded
    decreases v, 0nat,
{
    match v {
        ValueView::Null(t) => Ok(ForeignValueView::Null(type_to_foreign(t))),
        ValueView::Bool(x) => Ok(ForeignValueView::Bool(x)),
        ValueView::Int64(x) => Ok(ForeignValueView::Int64(x)),
        ValueView::Int32(x) => Ok(ForeignValueView::Int32(x)),
        ValueView::Int16(x) => Ok(ForeignValueView::Int16(x)),
        ValueView::Int8(x) => Ok(ForeignValueView::Int8(x)),
        ValueView::UInt64(x) => Ok(ForeignValueView::UInt64(x)),
        ValueView::UInt32(x) => Ok(ForeignValueView::UInt32(x)),
        ValueView::UInt16(x) => Ok(ForeignValueView::UInt16(x)),
        ValueView::UInt8(x) => Ok(ForeignValueView::UInt8(x)),
        ValueView::Int128(x) => Ok(
            ForeignValueView::Int128 {
                high: int128_high(x as int) as i64,
                low: int128_low(x as int) as u64,
            },
        ),
        ValueView::UUID(x) => Ok(
            ForeignValueView::UUID {
                high: int128_high(uuid_to_signed(x as int)) as i64,
                low: int128_low(uuid_to_signed(x as int)) as u64,
            },
        ),
        ValueView::Double(x) => Ok(ForeignValueView::Double(x)),
        ValueView::Float(x) => Ok(ForeignValueView::Float(x)),
        ValueView::Date(days) => Ok(ForeignValueView::Date(days as i32)),
        ValueView::Timestamp(nanos) => Ok(
            ForeignValueView::Timestamp(trunc_div(nanos, 1000) as i64),
        ),
        ValueView::TimestampTz(nanos) => Ok(
            ForeignValueView::TimestampTz(trunc_div(nanos, 1000) as i64),
        ),
        ValueView::TimestampNs(nanos) => Ok(ForeignValueView::TimestampNs(nanos as i64)),
        ValueView::TimestampMs(nanos) => Ok(
            ForeignValueView::TimestampMs(trunc_div(nanos, 1_000_000) as i64),
        ),
        ValueView::TimestampSec(nanos) => Ok(
            ForeignValueView::TimestampSec(trunc_div(nanos, 1_000_000_000) as i64),
        ),
        ValueView::Interval(nanos) => Ok(
            ForeignValueView::Interval {
                months: interval_months(nanos) as i32,
                days: interval_days(nanos) as i32,
                micros: interval_micros(nanos) as i64,
            },
        ),
        ValueView::InternalID(id) => Ok(ForeignValueView::InternalID(id)),
        ValueView::String(s) => Ok(ForeignValueView::String(s)),
        ValueView::Blob(bytes) => Ok(ForeignValueView::Blob(bytes)),
        ValueView::List(_, items) => match encode_prefix(items, items.len(), order) {
            Err(e) => Err(e),
            Ok(children) => Ok(nested(type_of(v), children)),
        },
        ValueView::Array(_, items) => match encode_prefix(items, items.len(), order) {
            Err(e) => Err(e),
            Ok(children) => Ok(nested(type_of(v), children)),
        },
        ValueView::Struct(fields) => match encode_fields_prefix(fields, fields.len(), order) {
            Err(e) => Err(e),
            Ok(children) => Ok(nested(type_of(v), children)),
        },
        ValueView::MapOf(types, entries) => match encode_entries_prefix(
            entries,
            entries.len(),
            entry_type(types.0, types.1),
            order,
        ) {
            Err(e) => Err(e),
            Ok(children) => Ok(nested(type_of(v), children)),
        },
        ValueView::Union { types, value } => match encode_value(*value, order) {
            Err(e) => Err(e),
            Ok(child) => Ok(nested(type_of(v), seq![child])),
        },
        ValueView::Node(_) => Err(LogicalTypeView::Node),
        ValueView::Rel(_) => Err(LogicalTypeView::Rel),
        ValueView::RecursiveRel { .. } => Err(LogicalTypeView::RecursiveRel),
        ValueView::RDFVariant(x) => Ok(
            nested(
                LogicalTypeView::RDFVariant,
                seq![
                    ForeignValueView::UInt8(variant_tag(x).spec_repr()),
                    ForeignValueView::Blob(variant_payload(x, order)),
                ],
            ),
        ),
    }
}

/// The values of the first `n` children, or the first failure among
/// them.
pub open spec fn decode_prefix(children: Seq<ForeignValueView>, n: nat, order: ByteOrder) -> Result<
    Seq<ValueView>,
    ConversionErrorView,
>
    decreases children, n,
{
    if n == 0 || n > children.len() {
        Ok(Seq::empty())
    } else {
        match decode_prefix(children, (n - 1) as nat, order) {
            Err(e) => Err(e),
            Ok(done) => match decode_value(children[n - 1], order) {
                Err(e) => Err(e),
                Ok(v) => Ok(done.push(v)),
            },
        }
    }
}

/// The entries that the first `n` children of a map stand for, each child
/// holding a key and a value as its first two children, or the first
/// failure among them, a key before its value.
pub open spec fn decode_entries_prefix(
    children: Seq<ForeignValueView>,
    n: nat,
    order: ByteOrder,
) -> Result<Seq<(ValueView, ValueView)>, ConversionErrorView>
    decreases children, n,
{
    if n == 0 || n > children.len() {
        Ok(Seq::empty())
    } else {
        match decode_entries_prefix(children, (n - 1) as nat, order) {
            Err(e) => Err(e),
            Ok(done) => match children[n - 1] {
                ForeignValueView::Nested { data_type, children: pair } => if pair.len() >= 2 {
                    match decode_value(pair[0], order) {
                        Err(e) => Err(e),
                        Ok(key) => match decode_value(pair[1], order) {
                            Err(e) => Err(e),
                            Ok(value) => Ok(done.push((key, value))),
                        },
                    }
                } else {
                    arbitrary()
                },
                _ => arbitrary(),
            },
        }
    }
}

/// The first `n` properties with their values decoded, or the first
/// failure among them.
pub open spec fn decode_properties_prefix(
    properties: Seq<(Seq<char>, ForeignValueView)>,
    n: nat,
    order: ByteOrder,
) -> Result<Seq<(Seq<char>, ValueView)>, ConversionErrorView>
    decreases properties, n,
{
    if n == 0 || n > properties.len() {
        Ok(Seq::empty())
    } else {
        match decode_properties_prefix(properties, (n - 1) as nat, order) {
            Err(e) => Err(e),
            Ok(done) => match decode_value(properties[n - 1].1, order) {
                Err(e) => Err(e),
                Ok(v) => Ok(done.push((properties[n - 1].0, v))),
            },
        }
    }
}

/// The names of a struct type's members, each with the value at its
/// place; as many as there are of both.
pub open spec fn zip_fields(
    members: Seq<(Seq<char>, ForeignTypeView)>,
    values: Seq<ValueView>,
) -> Seq<(Seq<char>, ValueView)> {
    Seq::new(
        if members.len() <= values.len() {
            members.len()
        } else {
            values.len()
        },
        |i: int| (members[i].0, values[i]),
    )
}

/// The smaller of two lengths.
pub open spec fn shorter(a: nat, b: nat) -> nat {
    if a <= b {
        a
    } else {
        b
    }
}

/// The nodes that a decoded list of nodes holds.
pub open spec fn unwrap_nodes(v: ValueView) -> Seq<NodeValView> {
    Seq::new(v->List_1.len(), |i: int| v->List_1[i]->Node_0)
}

/// The relationships that a decoded list of relationships holds.
pub open spec fn unwrap_rels(v: ValueView) -> Seq<RelValView> {
    Seq::new(v->List_1.len(), |i: int| v->List_1[i]->Rel_0)
}

/// The timestamp of a count of units of `unit` nanoseconds, or `None`
/// where the calendar does not have it.
pub open spec fn decode_instant(count: i64, unit: int) -> Option<int> {
    if date_time_in_range(count * unit) {
        Some(count * unit)
    } else {
        None
    }
}

/// The value of a well-formed engine value; of another engine value
/// nothing is said.
///
/// Whether a value is null is asked first: a null of any type is the null
/// of that type.  A scalar is read by its kind; a date or a timestamp
/// outside the calendar is the error of its kind with the count read.
/// The children of a list or an array are decoded under the element type
/// that the value's type declares; those of a struct are paired with the
/// names of the type's members by position; those of a map are pairs of
/// key and value; the one child of a union comes with all alternatives
/// that the type declares.  A node or a relationship whose identifier is
/// null is the null of its type.  A path is the nodes and relationships
/// of its two lists.  The failure of a child is the failure of the whole.
pub open spec fn decode_value(f: ForeignValueView, order: ByteOrder) -> Decoded
    decreases f, 0nat,
{
    match f {
        ForeignValueView::Null(t) => Ok(ValueView::Null(type_from_foreign(t))),
        ForeignValueView::Bool(x) => Ok(ValueView::Bool(x)),
        ForeignValueView::Int64(x) => Ok(ValueView::Int64(x)),
        ForeignValueView::Int32(x) => Ok(ValueView::Int32(x)),
        ForeignValueView::Int16(x) => Ok(ValueView::Int16(x)),
        ForeignValueView::Int8(x) => Ok(ValueView::Int8(x)),
        ForeignValueView::UInt64(x) => Ok(ValueView::UInt64(x)),
        ForeignValueView::UInt32(x) => Ok(ValueView::UInt32(x)),
        ForeignValueView::UInt16(x) => Ok(ValueView::UInt16(x)),
        ForeignValueView::UInt8(x) => Ok(ValueView::UInt8(x)),
        ForeignValueView::Int128 { high, low } => Ok(
            ValueView::Int128(int128_join(high as int, low as int) as i128),
        ),
        ForeignValueView::UUID { high, low } => Ok(
            ValueView::UUID(uuid_from_signed(int128_join(high as int, low as int)) as u128),
        ),
        ForeignValueView::Double(x) => Ok(ValueView::Double(x)),
        ForeignValueView::Float(x) => Ok(ValueView::Float(x)),
        ForeignValueView::Date(days) => if date_in_range(days as int) {
            Ok(ValueView::Date(days as int))
        } else {
            Err(ConversionErrorView::Date(days))
        },
        ForeignValueView::Timestamp(micros) => match decode_instant(micros, 1000) {
            Some(nanos) => Ok(ValueView::Timestamp(nanos)),
            None => Err(ConversionErrorView::Timestamp(micros)),
        },
        ForeignValueView::TimestampTz(micros) => match decode_instant(micros, 1000) {
            Some(nanos) => Ok(ValueView::TimestampTz(nanos)),
            None => Err(ConversionErrorView::TimestampTz(micros)),
        },
        ForeignValueView::TimestampNs(count) => match decode_instant(count, 1) {
            Some(nanos) => Ok(ValueView::TimestampNs(nanos)),
            None => Err(ConversionErrorView::TimestampNs(count)),
        },
        ForeignValueView::TimestampMs(millis) => match decode_instant(millis, 1_000_000) {
            Some(nanos) => Ok(ValueView::TimestampMs(nanos)),
            None => Err(ConversionErrorView::TimestampMs(millis)),
        },
        ForeignValueView::TimestampSec(seconds) => match decode_instant(seconds, 1_000_000_000) {
            Some(nanos) => Ok(ValueView::TimestampSec(nanos)),
            None => Err(ConversionErrorView::TimestampSec(seconds)),
        },
        ForeignValueView::Interval { months, days, micros } => Ok(
            ValueView::Interval(interval_nanos(months as int, days as int, micros as int)),
        ),
        ForeignValueView::InternalID(id) => Ok(ValueView::InternalID(id)),
        ForeignValueView::String(s) => Ok(ValueView::String(s)),
        ForeignValueView::Blob(bytes) => Ok(ValueView::Blob(bytes)),
        ForeignValueView::Nested { data_type, children } => match data_type.id {
            LogicalTypeID::LIST => match decode_prefix(children, children.len(), order) {
                Err(e) => Err(e),
                Ok(items) => Ok(
                    ValueView::List(*type_from_foreign(data_type)->List_child_type, items),
                ),
            },
            LogicalTypeID::ARRAY => match decode_prefix(children, children.len(), order) {
                Err(e) => Err(e),
                Ok(items) => Ok(
                    ValueView::Array(*type_from_foreign(data_type)->Array_child_type, items),
                ),
            },
            LogicalTypeID::STRUCT => match decode_prefix(
                children,
                shorter(data_type.fields.len(), children.len()),
                order,
            ) {
                Err(e) => Err(e),
                Ok(items) => Ok(ValueView::Struct(zip_fields(data_type.fields, items))),
            },
            LogicalTypeID::MAP => match decode_entries_prefix(children, children.len(), order) {
                Err(e) => Err(e),
                Ok(entries) => Ok(
                    ValueView::MapOf(
                        (
                            *type_from_foreign(data_type)->MapOf_key_type,
                            *type_from_foreign(data_type)->MapOf_value_type,
                        ),
                        entries,
                    ),
                ),
            },
            LogicalTypeID::UNION => if children.len() >= 1 {
                match decode_value(children[0], order) {
                    Err(e) => Err(e),
                    Ok(value) => Ok(
                        ValueView::Union {
                            types: type_from_foreign(data_type)->Union_types,
                            value: Box::new(value),
                        },
                    ),
                }
            } else {
                arbitrary()
            },
            LogicalTypeID::RDF_VARIANT => if children.len() >= 2 {
                match (children[0], children[1]) {
                    (ForeignValueView::UInt8(tag), ForeignValueView::Blob(payload)) => {
                        match LogicalTypeID::spec_from_repr(tag) {
                            Some(id) => match variant_decode(id, payload, order) {
                                Err(e) => Err(e),
                                Ok(x) => Ok(ValueView::RDFVariant(x)),
                            },
                            None => arbitrary(),
                        }
                    },
                    _ => arbitrary(),
                }
            } else {
                arbitrary()
            },
            _ => arbitrary(),
        },
        ForeignValueView::Node { id, label, properties } => match id {
            None => Ok(ValueView::Null(LogicalTypeView::Node)),
            Some(id) => match decode_properties_prefix(properties, properties.len(), order) {
                Err(e) => Err(e),
                Ok(properties) => Ok(ValueView::Node(NodeValView { id, label, properties })),
            },
        },
        ForeignValueView::Rel { src, dst, label, properties } => match src {
            None => Ok(ValueView::Null(LogicalTypeView::Rel)),
            Some(src) => match decode_properties_prefix(properties, properties.len(), order) {
                Err(e) => Err(e),
                Ok(properties) => Ok(
                    ValueView::Rel(
                        RelValView { src_node: src, dst_node: dst, label, properties },
                    ),
                ),
            },
        },
        ForeignValueView::RecursiveRel { nodes, rels } => match decode_value(*nodes, order) {
            Err(e) => Err(e),
            Ok(node_list) => match decode_value(*rels, order) {
                Err(e) => Err(e),
                Ok(rel_list) => Ok(
                    ValueView::RecursiveRel {
                        nodes: unwrap_nodes(node_list),
                        rels: unwrap_rels(rel_list),
                    },
                ),
            },
        },
    }
}

/// A list of the engine whose element type is `element` and whose
/// children are all of the kind asked for, not null and well formed:
/// nodes with an identifier if `nodes` is true, relationships with a
/// source if it is false.
pub open spec fn path_list_well_formed(f: ForeignValueView, nodes: bool) -> bool
    decreases f, 0nat,
{
    match f {
        ForeignValueView::Nested { data_type, children } => {
            &&& data_type.id == LogicalTypeID::LIST
            &&& foreign_type_well_formed(data_type)
            &&& type_from_foreign(data_type) == (LogicalTypeView::List {
                child_type: Box::new(
                    if nodes {
                        LogicalTypeView::Node
                    } else {
                        LogicalTypeView::Rel
                    },
                ),
            })
            &&& forall|i: int|
                0 <= i < children.len() ==> {
                    &&& foreign_value_well_formed(children[i])
                    &&& if nodes {
                        children[i] matches ForeignValueView::Node { id: Some(_), .. }
                    } else {
                        children[i] matches ForeignValueView::Rel { src: Some(_), .. }
                    }
                }
        },
        _ => false,
    }
}

/// An entry of a map: a nested value whose first two children, the key
/// and the value, are well formed.
pub open spec fn map_entry_well_formed(f: ForeignValueView) -> bool
    decreases f, 0nat,
{
    match f {
        ForeignValueView::Nested { data_type: _, children: pair } => {
            &&& pair.len() >= 2
            &&& foreign_value_well_formed(pair[0])
            &&& foreign_value_well_formed(pair[1])
        },
        _ => false,
    }
}

/// An engine value that can be decoded.
///
/// The type of a null and of a nested value has the parts that its id
/// calls for.  A nested value has one of the ids list, array, struct,
/// map, union and variant.  Each child that is read is well formed: all
/// those of a list and an array, as many of a struct as its type has
/// members.  Each child of a map is a nested value with a key and a
/// value.  A union has one child.  A variant has a tag of 8 bits that
/// names a scalar and a blob that can be read as that scalar.  The
/// properties of a node with an identifier and of a relationship with a
/// source are well formed.  The two parts of a path are a list of nodes
/// and a list of relationships, none of them null.
pub open spec fn foreign_value_well_formed(f: ForeignValueView) -> bool
    decreases f, 1nat,
{
    match f {
        ForeignValueView::Null(t) => foreign_type_well_formed(t),
        ForeignValueView::Nested { data_type, children } => {
            &&& foreign_type_well_formed(data_type)
            &&& match data_type.id {
                LogicalTypeID::LIST | LogicalTypeID::ARRAY => forall|i: int|
                    0 <= i < children.len() ==> foreign_value_well_formed(children[i]),
                LogicalTypeID::STRUCT => forall|i: int|
                    0 <= i < children.len() && i < data_type.fields.len()
                        ==> foreign_value_well_formed(children[i]),
                LogicalTypeID::MAP => forall|i: int|
                    0 <= i < children.len() ==> map_entry_well_formed(children[i]),
                LogicalTypeID::UNION => children.len() == 1 && foreign_value_well_formed(
                    children[0],
                ),
                LogicalTypeID::RDF_VARIANT => children.len() >= 2 && match (
                    children[0],
                    children[1],
                ) {
                    (ForeignValueView::UInt8(tag), ForeignValueView::Blob(payload)) => {
                        match LogicalTypeID::spec_from_repr(tag) {
                            Some(id) => payload_well_formed(id, payload),
                            None => false,
                        }
                    },
                    _ => false,
                },
                _ => false,
            }
        },
        ForeignValueView::Node { id, label, properties } => id is Some ==> forall|i: int|
            0 <= i < properties.len() ==> foreign_value_well_formed(properties[i].1),
        ForeignValueView::Rel { src, dst, label, properties } => src is Some ==> forall|i: int|
            0 <= i < properties.len() ==> foreign_value_well_formed(properties[i].1),
        ForeignValueView::RecursiveRel { nodes, rels } => path_list_well_formed(*nodes, true)
            && path_list_well_formed(*rels, false),
        _ => true,
    }
}

} // verus!
