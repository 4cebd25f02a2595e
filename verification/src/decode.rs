//! From the engine's value to a value.

use vstd::prelude::*;
use crate::bytes::ByteOrder;
use crate::codec::{
    decode_entries_prefix, decode_instant, decode_prefix, decode_properties_prefix, decode_value,
    foreign_value_well_formed, map_entry_well_formed, path_list_well_formed, shorter,
    unwrap_nodes, unwrap_rels, zip_fields, Decoded,
};
use crate::error::{ConversionError, ConversionErrorView};
use crate::foreign::{
    foreign_members_view, foreign_properties_view, foreign_values_view, ForeignType,
    ForeignValue, ForeignValueView,
};
use crate::logical_type::{LogicalType, LogicalTypeID};
use crate::temporal::{Date, DateTime, Duration};
use crate::value::{
    clone_bytes, named_values_view, nodes_view, rels_view, value_pairs_view, values_view,
    NodeVal, RDFVariant, RelVal, Value, ValueView,
};
use crate::wide_int::{join_int128, uuid_from_int128};

verus! {

/// What an executable decoding says of its result: the value or the error
/// that `want` holds.
pub open spec fn decoded_as(r: Result<Value, ConversionError>, want: Decoded) -> bool {
    match r {
        Ok(v) => want == Ok::<ValueView, ConversionErrorView>(v@),
        Err(e) => want == Err::<ValueView, ConversionErrorView>(e@),
    }
}

/// Once a child has failed, the list fails with it however many more
/// children are taken.
pub proof fn lemma_decode_prefix_fails(
    children: Seq<ForeignValueView>,
    k: nat,
    n: nat,
    order: ByteOrder,
)
    requires
        decode_prefix(children, k, order) is Err,
        k <= n <= children.len(),
    ensures
        decode_prefix(children, n, order) == decode_prefix(children, k, order),
    decreases n,
{
    if n > k {
        lemma_decode_prefix_fails(children, k, (n - 1) as nat, order);
    }
}

/// Once an entry has failed, the map fails with it however many more
/// entries are taken.
pub proof fn lemma_decode_entries_prefix_fails(
    children: Seq<ForeignValueView>,
    k: nat,
    n: nat,
    order: ByteOrder,
)
    requires
        decode_entries_prefix(children, k, order) is Err,
        k <= n <= children.len(),
    ensures
        decode_entries_prefix(children, n, order) == decode_entries_prefix(children, k, order),
    decreases n,
{
    if n > k {
        lemma_decode_entries_prefix_fails(children, k, (n - 1) as nat, order);
    }
}

/// Once a property has failed, the list fails with it however many more
/// properties are taken.
pub proof fn lemma_decode_properties_prefix_fails(
    properties: Seq<(Seq<char>, ForeignValueView)>,
    k: nat,
    n: nat,
    order: ByteOrder,
)
    requires
        decode_properties_prefix(properties, k, order) is Err,
        k <= n <= properties.len(),
    ensures
        decode_properties_prefix(properties, n, order) == decode_properties_prefix(
            properties,
            k,
            order,
        ),
    decreases n,
{
    if n > k {
        lemma_decode_properties_prefix_fails(properties, k, (n - 1) as nat, order);
    }
}

/// Where the first `n` children decode, there are `n` values, each the
/// value of the child at its place.
pub proof fn lemma_decode_prefix_items(
    children: Seq<ForeignValueView>,
    n: nat,
    order: ByteOrder,
)
    requires
        n <= children.len(),
        decode_prefix(children, n, order) is Ok,
    ensures
        decode_prefix(children, n, order)->Ok_0.len() == n,
        forall|i: int|
            0 <= i < n ==> decode_value(#[trigger] children[i], order) == Ok::<
                ValueView,
                ConversionErrorView,
            >(decode_prefix(children, n, order)->Ok_0[i]),
    decreases n,
{
    if n > 0 {
        lemma_decode_prefix_items(children, (n - 1) as nat, order);
    }
}

/// The engine values that are a null or a scalar.
pub open spec fn is_plain_foreign(f: ForeignValueView) -> bool {
    !(f is Nested || f is Node || f is Rel || f is RecursiveRel)
}

/// Reads a timestamp of `count` units of `unit` nanoseconds.
fn read_instant(count: i64, unit: i128) -> (r: Option<DateTime>)
    requires
        unit == 1 || unit == 1000 || unit == 1_000_000 || unit == 1_000_000_000,
    ensures
        match r {
            Some(t) => decode_instant(count, unit as int) == Some(t@),
            None => decode_instant(count, unit as int) is None,
        },
{
    assert(-0x8000_0000_0000_0000 * 1_000_000_000 <= count * unit <= 0x7fff_ffff_ffff_ffff
        * 1_000_000_000) by (nonlinear_arith)
        requires
            -0x8000_0000_0000_0000 <= count <= 0x7fff_ffff_ffff_ffff,
            1 <= unit <= 1_000_000_000,
    ;
    DateTime::from_unix_nanos((count as i128) * unit)
}

/// Decodes a null or a scalar.
fn decode_plain(f: &ForeignValue, order: ByteOrder) -> (r: Result<Value, ConversionError>)
    requires
        is_plain_foreign(f@),
        foreign_value_well_formed(f@),
    ensures
        decoded_as(r, decode_value(f@, order)),
{
    match f {
        ForeignValue::Null(t) => Ok(Value::Null(LogicalType::from_foreign(t))),
        ForeignValue::Bool(x) => Ok(Value::Bool(*x)),
        ForeignValue::Int8(x) => Ok(Value::Int8(*x)),
        ForeignValue::Int16(x) => Ok(Value::Int16(*x)),
        ForeignValue::Int32(x) => Ok(Value::Int32(*x)),
        ForeignValue::Int64(x) => Ok(Value::Int64(*x)),
        ForeignValue::UInt8(x) => Ok(Value::UInt8(*x)),
        ForeignValue::UInt16(x) => Ok(Value::UInt16(*x)),
        ForeignValue::UInt32(x) => Ok(Value::UInt32(*x)),
        ForeignValue::UInt64(x) => Ok(Value::UInt64(*x)),
        ForeignValue::Int128 { high, low } => Ok(Value::Int128(join_int128(*high, *low))),
        ForeignValue::UUID { high, low } => Ok(
            Value::UUID(uuid_from_int128(join_int128(*high, *low))),
        ),
        ForeignValue::Float(x) => Ok(Value::Float(*x)),
        ForeignValue::Double(x) => Ok(Value::Double(*x)),
        ForeignValue::String(x) => Ok(Value::String(x.clone())),
        ForeignValue::Blob(x) => Ok(Value::Blob(clone_bytes(x))),
        ForeignValue::Interval { months, days, micros } => Ok(
            Value::Interval(Duration::from_interval(*months, *days, *micros)),
        ),
        ForeignValue::Date(days) => match Date::from_unix_days(*days) {
            Some(date) => Ok(Value::Date(date)),
            None => Err(ConversionError::Date(*days)),
        },
        ForeignValue::Timestamp(us) => match read_instant(*us, 1000) {
            Some(t) => Ok(Value::Timestamp(t)),
            None => Err(ConversionError::Timestamp(*us)),
        },
        ForeignValue::TimestampTz(us) => match read_instant(*us, 1000) {
            Some(t) => Ok(Value::TimestampTz(t)),
            None => Err(ConversionError::TimestampTz(*us)),
        },
        ForeignValue::TimestampNs(ns) => match read_instant(*ns, 1) {
            Some(t) => Ok(Value::TimestampNs(t)),
            None => Err(ConversionError::TimestampNs(*ns)),
        },
        ForeignValue::TimestampMs(ms) => match read_instant(*ms, 1_000_000) {
            Some(t) => Ok(Value::TimestampMs(t)),
            None => Err(ConversionError::TimestampMs(*ms)),
        },
        ForeignValue::TimestampSec(sec) => match read_instant(*sec, 1_000_000_000) {
            Some(t) => Ok(Value::TimestampSec(t)),
            None => Err(ConversionError::TimestampSec(*sec)),
        },
        ForeignValue::InternalID(id) => Ok(Value::InternalID(*id)),
        _ => unreached(),
    }
}

/// Decodes the first `n` children.
pub(crate) fn decode_children(children: &Vec<ForeignValue>, n: usize, order: ByteOrder) -> (r: Result<
    Vec<Value>,
    ConversionError,
>)
    requires
        n <= children.len(),
        forall|i: int| 0 <= i < n ==> foreign_value_well_formed(#[trigger] children[i]@),
    ensures
        match r {
            Ok(items) => decode_prefix(foreign_values_view(children@), n as nat, order) == Ok::<
                Seq<ValueView>,
                ConversionErrorView,
            >(values_view(items@)),
            Err(e) => decode_prefix(foreign_values_view(children@), n as nat, order) == Err::<
                Seq<ValueView>,
                ConversionErrorView,
            >(e@),
        },
    decreases children, 0nat,
{
    let ghost views = foreign_values_view(children@);
    let mut out: Vec<Value> = Vec::new();
    let mut i: usize = 0;
    assert(values_view(out@) =~= Seq::empty());
    while i < n
        invariant
            i <= n <= children.len(),
            views == foreign_values_view(children@),
            forall|j: int| 0 <= j < n ==> foreign_value_well_formed(#[trigger] children[j]@),
            decode_prefix(views, i as nat, order) == Ok::<Seq<ValueView>, ConversionErrorView>(
                values_view(out@),
            ),
        decreases n - i,
    {
        match Value::from_foreign(&children[i], order) {
            Err(e) => {
                proof {
                    lemma_decode_prefix_fails(views, (i + 1) as nat, n as nat, order);
                }
                return Err(e);
            },
            Ok(v) => {
                let ghost before = values_view(out@);
                out.push(v);
                assert(values_view(out@) =~= before.push(v@));
            },
        }
        i += 1;
    }
    Ok(out)
}

/// Decodes the children of a struct, each under the name of the member at
/// its place.
fn decode_fields(members: &Vec<(String, ForeignType)>, children: &Vec<ForeignValue>, order:
    ByteOrder) -> (r: Result<Vec<(String, Value)>, ConversionError>)
    requires
        forall|i: int|
            0 <= i < children.len() && i < members.len() ==> foreign_value_well_formed(
                #[trigger] children[i]@,
            ),
    ensures
        match r {
            Ok(fields) => decode_prefix(
                foreign_values_view(children@),
                shorter(members.len() as nat, children.len() as nat),
                order,
            ) is Ok && named_values_view(fields@) == zip_fields(
                foreign_members_view(members@),
                decode_prefix(
                    foreign_values_view(children@),
                    shorter(members.len() as nat, children.len() as nat),
                    order,
                )->Ok_0,
            ),
            Err(e) => decode_prefix(
                foreign_values_view(children@),
                shorter(members.len() as nat, children.len() as nat),
                order,
            ) == Err::<Seq<ValueView>, ConversionErrorView>(e@),
        },
    decreases children, 0nat,
{
    let ghost views = foreign_values_view(children@);
    let n: usize = if members.len() <= children.len() {
        members.len()
    } else {
        children.len()
    };
    let ghost mut done: Seq<ValueView> = Seq::empty();
    let mut out: Vec<(String, Value)> = Vec::new();
    let mut i: usize = 0;
    while i < n
        invariant
            i <= n,
            n == shorter(members.len() as nat, children.len() as nat),
            views == foreign_values_view(children@),
            forall|j: int|
                0 <= j < children.len() && j < members.len() ==> foreign_value_well_formed(
                    #[trigger] children[j]@,
                ),
            decode_prefix(views, i as nat, order) == Ok::<Seq<ValueView>, ConversionErrorView>(
                done,
            ),
            done.len() == i,
            out.len() == i,
            forall|j: int|
                0 <= j < i ==> (#[trigger] out[j]).0@ == members[j].0@ && out[j].1@ == done[j],
        decreases n - i,
    {
        match Value::from_foreign(&children[i], order) {
            Err(e) => {
                proof {
                    lemma_decode_prefix_fails(views, (i + 1) as nat, n as nat, order);
                }
                return Err(e);
            },
            Ok(v) => {
                proof {
                    done = done.push(v@);
                }
                out.push((members[i].0.clone(), v));
            },
        }
        i += 1;
    }
    assert(named_values_view(out@) =~= zip_fields(foreign_members_view(members@), done));
    Ok(out)
}

/// Decodes the entries of a map.
fn decode_entries(children: &Vec<ForeignValue>, order: ByteOrder) -> (r: Result<
    Vec<(Value, Value)>,
    ConversionError,
>)
    requires
        forall|i: int| 0 <= i < children.len() ==> map_entry_well_formed(#[trigger] children[i]@),
    ensures
        match r {
            Ok(entries) => decode_entries_prefix(
                foreign_values_view(children@),
                children.len() as nat,
                order,
            ) == Ok::<Seq<(ValueView, ValueView)>, ConversionErrorView>(
                value_pairs_view(entries@),
            ),
            Err(e) => decode_entries_prefix(
                foreign_values_view(children@),
                children.len() as nat,
                order,
            ) == Err::<Seq<(ValueView, ValueView)>, ConversionErrorView>(e@),
        },
    decreases children, 0nat,
{
    let ghost views = foreign_values_view(children@);
    let mut out: Vec<(Value, Value)> = Vec::new();
    let mut i: usize = 0;
    assert(value_pairs_view(out@) =~= Seq::empty());
    while i < children.len()
        invariant
            i <= children.len(),
            views == foreign_values_view(children@),
            forall|j: int|
                0 <= j < children.len() ==> map_entry_well_formed(#[trigger] children[j]@),
            decode_entries_prefix(views, i as nat, order) == Ok::<
                Seq<(ValueView, ValueView)>,
                ConversionErrorView,
            >(value_pairs_view(out@)),
        decreases children.len() - i,
    {
        assert(map_entry_well_formed(children[i as int]@));
        proof {
            children[i as int].lemma_view();
        }
        match &children[i] {
            ForeignValue::Nested { data_type: _, children: pair } => {
                assert(decreases_to!(children[i as int] => children[i as int]->Nested_children));
                let key = match Value::from_foreign(&pair[0], order) {
                    Err(e) => {
                        proof {
                            lemma_decode_entries_prefix_fails(
                                views,
                                (i + 1) as nat,
                                children.len() as nat,
                                order,
                            );
                        }
                        return Err(e);
                    },
                    Ok(v) => v,
                };
                let value = match Value::from_foreign(&pair[1], order) {
                    Err(e) => {
                        proof {
                            lemma_decode_entries_prefix_fails(
                                views,
                                (i + 1) as nat,
                                children.len() as nat,
                                order,
                            );
                        }
                        return Err(e);
                    },
                    Ok(v) => v,
                };
                let ghost before = value_pairs_view(out@);
                let ghost entry = (key@, value@);
                out.push((key, value));
                assert(value_pairs_view(out@) =~= before.push(entry));
            },
            _ => unreached(),
        }
        i += 1;
    }
    Ok(out)
}

/// Decodes the values of a list of properties.
fn decode_properties(properties: &Vec<(String, ForeignValue)>, order: ByteOrder) -> (r: Result<
    Vec<(String, Value)>,
    ConversionError,
>)
    requires
        forall|i: int|
            0 <= i < properties.len() ==> foreign_value_well_formed((#[trigger] properties[i]).1@),
    ensures
        match r {
            Ok(decoded) => decode_properties_prefix(
                foreign_properties_view(properties@),
                properties.len() as nat,
                order,
            ) == Ok::<Seq<(Seq<char>, ValueView)>, ConversionErrorView>(
                named_values_view(decoded@),
            ),
            Err(e) => decode_properties_prefix(
                foreign_properties_view(properties@),
                properties.len() as nat,
                order,
            ) == Err::<Seq<(Seq<char>, ValueView)>, ConversionErrorView>(e@),
        },
    decreases properties, 0nat,
{
    let ghost views = foreign_properties_view(properties@);
    let mut out: Vec<(String, Value)> = Vec::new();
    let mut i: usize = 0;
    assert(named_values_view(out@) =~= Seq::empty());
    while i < properties.len()
        invariant
            i <= properties.len(),
            views == foreign_properties_view(properties@),
            forall|j: int|
                0 <= j < properties.len() ==> foreign_value_well_formed(
                    (#[trigger] properties[j]).1@,
                ),
            decode_properties_prefix(views, i as nat, order) == Ok::<
                Seq<(Seq<char>, ValueView)>,
                ConversionErrorView,
            >(named_values_view(out@)),
        decreases properties.len() - i,
    {
        match Value::from_foreign(&properties[i].1, order) {
            Err(e) => {
                proof {
                    lemma_decode_properties_prefix_fails(
                        views,
                        (i + 1) as nat,
                        properties.len() as nat,
                        order,
                    );
                }
                return Err(e);
            },
            Ok(v) => {
                let ghost before = named_values_view(out@);
                let name = properties[i].0.clone();
                let ghost entry = (name@, v@);
                out.push((name, v));
                assert(named_values_view(out@) =~= before.push(entry));
            },
        }
        i += 1;
    }
    Ok(out)
}

/// A well-formed list of nodes or relationships can be decoded, and
/// where it decodes, the result is a list of as many values as it has
/// children, each a node or each a relationship.
pub proof fn lemma_path_list(f: ForeignValueView, nodes: bool, order: ByteOrder)
    requires
        path_list_well_formed(f, nodes),
    ensures
        foreign_value_well_formed(f),
        decode_value(f, order) matches Ok(v) ==> {
            &&& v is List
            &&& v->List_1.len() == f->Nested_children.len()
            &&& forall|i: int|
                0 <= i < v->List_1.len() ==> if nodes {
                    (#[trigger] v->List_1[i]) is Node
                } else {
                    v->List_1[i] is Rel
                }
        },
{
    let children = f->Nested_children;
    if decode_value(f, order) is Ok {
        lemma_decode_prefix_items(children, children.len(), order);
        let items = decode_prefix(children, children.len(), order)->Ok_0;
        assert(decode_value(f, order)->Ok_0->List_1 == items);
        assert forall|i: int| 0 <= i < items.len() implies if nodes {
            (#[trigger] items[i]) is Node
        } else {
            items[i] is Rel
        } by {
            assert(decode_value(children[i], order) == Ok::<ValueView, ConversionErrorView>(
                items[i],
            ));
            assert(foreign_value_well_formed(children[i]));
        }
    }
}

/// Takes the nodes out of a decoded list of nodes.
fn take_nodes(list: &Value) -> (r: Vec<NodeVal>)
    requires
        list is List,
        forall|i: int| 0 <= i < list@->List_1.len() ==> (#[trigger] list@->List_1[i]) is Node,
    ensures
        nodes_view(r@) == unwrap_nodes(list@),
{
    proof {
        list.lemma_view();
    }
    let mut out: Vec<NodeVal> = Vec::new();
    match list {
        Value::List(_, items) => {
            let mut i: usize = 0;
            while i < items.len()
                invariant
                    i <= items.len(),
                    list@->List_1 == values_view(items@),
                    forall|j: int|
                        0 <= j < list@->List_1.len() ==> (#[trigger] list@->List_1[j]) is Node,
                    out.len() == i,
                    forall|j: int| 0 <= j < i ==> (#[trigger] out[j])@ == items[j]@->Node_0,
                decreases items.len() - i,
            {
                assert(list@->List_1[i as int] is Node);
                match &items[i] {
                    Value::Node(node) => {
                        out.push(node.clone());
                    },
                    _ => unreached(),
                }
                i += 1;
            }
            assert(nodes_view(out@) =~= unwrap_nodes(list@));
        },
        _ => unreached(),
    }
    out
}

/// Takes the relationships out of a decoded list of relationships.
fn take_rels(list: &Value) -> (r: Vec<RelVal>)
    requires
        list is List,
        forall|i: int| 0 <= i < list@->List_1.len() ==> (#[trigger] list@->List_1[i]) is Rel,
    ensures
        rels_view(r@) == unwrap_rels(list@),
{
    proof {
        list.lemma_view();
    }
    let mut out: Vec<RelVal> = Vec::new();
    match list {
        Value::List(_, items) => {
            let mut i: usize = 0;
            while i < items.len()
                invariant
                    i <= items.len(),
                    list@->List_1 == values_view(items@),
                    forall|j: int|
                        0 <= j < list@->List_1.len() ==> (#[trigger] list@->List_1[j]) is Rel,
                    out.len() == i,
                    forall|j: int| 0 <= j < i ==> (#[trigger] out[j])@ == items[j]@->Rel_0,
                decreases items.len() - i,
            {
                assert(list@->List_1[i as int] is Rel);
                match &items[i] {
                    Value::Rel(rel) => {
                        out.push(rel.clone());
                    },
                    _ => unreached(),
                }
                i += 1;
            }
            assert(rels_view(out@) =~= unwrap_rels(list@));
        },
        _ => unreached(),
    }
    out
}

/// Decodes a value that is made of children.
fn decode_nested(f: &ForeignValue, order: ByteOrder) -> (r: Result<Value, ConversionError>)
    requires
        f is Nested,
        foreign_value_well_formed(f@),
    ensures
        decoded_as(r, decode_value(f@, order)),
    decreases f, 0nat,
{
    proof {
        f.lemma_view();
    }
    match f {
        ForeignValue::Nested { data_type, children } => {
            proof {
                data_type.lemma_fields_view();
            }
            assert(decreases_to!(f => f->Nested_children));
            let ghost views = foreign_values_view(children@);
            match data_type.id {
                LogicalTypeID::LIST => {
                    assert forall|i: int| 0 <= i < children.len() implies foreign_value_well_formed(
                        #[trigger] children[i]@,
                    ) by {
                        assert(foreign_value_well_formed(views[i]));
                    }
                    let items = match decode_children(children, children.len(), order) {
                        Err(e) => {
                            return Err(e);
                        },
                        Ok(items) => items,
                    };
                    match LogicalType::from_foreign(data_type) {
                        LogicalType::List { child_type } => {
                            let r = Value::List(*child_type, items);
                            proof {
                                r.lemma_view();
                            }
                            Ok(r)
                        },
                        _ => unreached(),
                    }
                },
                LogicalTypeID::ARRAY => {
                    assert forall|i: int| 0 <= i < children.len() implies foreign_value_well_formed(
                        #[trigger] children[i]@,
                    ) by {
                        assert(foreign_value_well_formed(views[i]));
                    }
                    let items = match decode_children(children, children.len(), order) {
                        Err(e) => {
                            return Err(e);
                        },
                        Ok(items) => items,
                    };
                    match LogicalType::from_foreign(data_type) {
                        LogicalType::Array { child_type, num_elements: _ } => {
                            let r = Value::Array(*child_type, items);
                            proof {
                                r.lemma_view();
                            }
                            Ok(r)
                        },
                        _ => unreached(),
                    }
                },
                LogicalTypeID::STRUCT => {
                    assert forall|i: int|
                        0 <= i < children.len() && i
                            < data_type.fields.len() implies foreign_value_well_formed(
                        #[trigger] children[i]@,
                    ) by {
                        assert(foreign_value_well_formed(views[i]));
                    }
                    let fields = match decode_fields(&data_type.fields, children, order) {
                        Err(e) => {
                            return Err(e);
                        },
                        Ok(fields) => fields,
                    };
                    let r = Value::Struct(fields);
                    proof {
                        r.lemma_view();
                    }
                    Ok(r)
                },
                LogicalTypeID::MAP => {
                    assert forall|i: int| 0 <= i < children.len() implies map_entry_well_formed(
                        #[trigger] children[i]@,
                    ) by {
                        assert(map_entry_well_formed(views[i]));
                    }
                    let entries = match decode_entries(children, order) {
                        Err(e) => {
                            return Err(e);
                        },
                        Ok(entries) => entries,
                    };
                    match LogicalType::from_foreign(data_type) {
                        LogicalType::MapOf { key_type, value_type } => {
                            let r = Value::MapOf((*key_type, *value_type), entries);
                            proof {
                                r.lemma_view();
                            }
                            Ok(r)
                        },
                        _ => unreached(),
                    }
                },
                LogicalTypeID::UNION => {
                    assert(foreign_value_well_formed(views[0]));
                    let types = match LogicalType::from_foreign(data_type) {
                        LogicalType::Union { types } => types,
                        _ => unreached(),
                    };
                    let value = match Value::from_foreign(&children[0], order) {
                        Err(e) => {
                            return Err(e);
                        },
                        Ok(value) => value,
                    };
                    proof {
                        (LogicalType::Union { types }).lemma_union_view();
                    }
                    Ok(Value::Union { types, value: Box::new(value) })
                },
                LogicalTypeID::RDF_VARIANT => {
                    assert(views[0] == children[0]@);
                    assert(views[1] == children[1]@);
                    match (&children[0], &children[1]) {
                        (ForeignValue::UInt8(tag), ForeignValue::Blob(payload)) => {
                            match LogicalTypeID::from_repr(*tag) {
                                Some(id) => {
                                    match RDFVariant::from_payload(id, clone_bytes(payload), order) {
                                        Err(e) => Err(e),
                                        Ok(x) => Ok(Value::RDFVariant(x)),
                                    }
                                },
                                None => unreached(),
                            }
                        },
                        _ => unreached(),
                    }
                },
                _ => unreached(),
            }
        },
        _ => unreached(),
    }
}

/// Decodes a node, a relationship or a path.
fn decode_graph(f: &ForeignValue, order: ByteOrder) -> (r: Result<Value, ConversionError>)
    requires
        f is Node || f is Rel || f is RecursiveRel,
        foreign_value_well_formed(f@),
    ensures
        decoded_as(r, decode_value(f@, order)),
    decreases f, 0nat,
{
    proof {
        f.lemma_view();
    }
    match f {
        ForeignValue::Node { id, label, properties } => match id {
            None => Ok(Value::Null(LogicalType::Node)),
            Some(id) => {
                assert(decreases_to!(f => f->Node_properties));
                let ghost views = foreign_properties_view(properties@);
                assert forall|i: int| 0 <= i < properties.len() implies foreign_value_well_formed(
                    (#[trigger] properties[i]).1@,
                ) by {
                    assert(foreign_value_well_formed(views[i].1));
                }
                let decoded = match decode_properties(properties, order) {
                    Err(e) => {
                        return Err(e);
                    },
                    Ok(decoded) => decoded,
                };
                Ok(Value::Node(NodeVal::with_properties(*id, label.clone(), decoded)))
            },
        },
        ForeignValue::Rel { src, dst, label, properties } => match src {
            None => Ok(Value::Null(LogicalType::Rel)),
            Some(src) => {
                assert(decreases_to!(f => f->Rel_properties));
                let ghost views = foreign_properties_view(properties@);
                assert forall|i: int| 0 <= i < properties.len() implies foreign_value_well_formed(
                    (#[trigger] properties[i]).1@,
                ) by {
                    assert(foreign_value_well_formed(views[i].1));
                }
                let decoded = match decode_properties(properties, order) {
                    Err(e) => {
                        return Err(e);
                    },
                    Ok(decoded) => decoded,
                };
                Ok(Value::Rel(RelVal::with_properties(*src, *dst, label.clone(), decoded)))
            },
        },
        ForeignValue::RecursiveRel { nodes, rels } => {
            proof {
                lemma_path_list(nodes@, true, order);
                lemma_path_list(rels@, false, order);
            }
            let node_list = match Value::from_foreign(nodes, order) {
                Err(e) => {
                    return Err(e);
                },
                Ok(list) => list,
            };
            let rel_list = match Value::from_foreign(rels, order) {
                Err(e) => {
                    return Err(e);
                },
                Ok(list) => list,
            };
            let r = Value::RecursiveRel { nodes: take_nodes(&node_list), rels: take_rels(&rel_list) };
            proof {
                r.lemma_view();
            }
            Ok(r)
        },
        _ => unreached(),
    }
}

impl Value {
    /// Reads the value of a well-formed engine value, the payload of a
    /// variant in the byte order given.
    ///
    /// The result is what [`decode_value`] says: the value, or the error
    /// of the first date, timestamp or string in it that has no
    /// counterpart.
    pub fn from_foreign(f: &ForeignValue, order: ByteOrder) -> (r: Result<Value, ConversionError>)
        requires
            foreign_value_well_formed(f@),
        ensures
            decoded_as(r, decode_value(f@, order)),
        decreases f, 1nat,
    {
        match f {
            ForeignValue::Nested { .. } => decode_nested(f, order),
            ForeignValue::Node { .. } | ForeignValue::Rel { .. } | ForeignValue::RecursiveRel {
                ..
            } => decode_graph(f, order),
            _ => decode_plain(f, order),
        }
    }
}

} // verus!
