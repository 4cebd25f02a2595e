//! When two values are the same value.

use vstd::prelude::*;
use vstd::std_specs::cmp::PartialEqSpecImpl;
use crate::logical_type::{named_types_view, LogicalType};
use crate::value::{
    named_values_view, nodes_view, rels_view, value_pairs_view, values_view, NodeVal, RDFVariant,
    RelVal, Value,
};

verus! {

/// Tells whether two lists of bytes hold the same bytes.
fn same_bytes(a: &Vec<u8>, b: &Vec<u8>) -> (r: bool)
    ensures
        r == (a@ == b@),
{
    if a.len() != b.len() {
        return false;
    }
    let mut i: usize = 0;
    while i < a.len()
        invariant
            i <= a.len(),
            a.len() == b.len(),
            forall|j: int| 0 <= j < i ==> a@[j] == b@[j],
        decreases a.len() - i,
    {
        if a[i] != b[i] {
            return false;
        }
        i += 1;
    }
    assert(a@ =~= b@);
    true
}

/// Tells whether two lists of named types are the same.
fn same_alternatives(a: &Vec<(String, LogicalType)>, b: &Vec<(String, LogicalType)>) -> (r: bool)
    ensures
        r == (named_types_view(a@) == named_types_view(b@)),
{
    if a.len() != b.len() {
        assert(named_types_view(a@).len() != named_types_view(b@).len());
        return false;
    }
    let mut i: usize = 0;
    while i < a.len()
        invariant
            i <= a.len(),
            a.len() == b.len(),
            forall|j: int|
                0 <= j < i ==> #[trigger] named_types_view(a@)[j] == named_types_view(b@)[j],
        decreases a.len() - i,
    {
        if a[i].0 != b[i].0 || a[i].1 != b[i].1 {
            assert(named_types_view(a@)[i as int] != named_types_view(b@)[i as int]);
            return false;
        }
        i += 1;
    }
    assert(named_types_view(a@) =~= named_types_view(b@));
    true
}

/// Tells whether two dynamically typed scalars are the same.
fn same_variant(a: &RDFVariant, b: &RDFVariant) -> (r: bool)
    ensures
        r == (a@ == b@),
{
    match (a, b) {
        (RDFVariant::Bool(x), RDFVariant::Bool(y)) => *x == *y,
        (RDFVariant::Int64(x), RDFVariant::Int64(y)) => *x == *y,
        (RDFVariant::Int32(x), RDFVariant::Int32(y)) => *x == *y,
        (RDFVariant::Int16(x), RDFVariant::Int16(y)) => *x == *y,
        (RDFVariant::Int8(x), RDFVariant::Int8(y)) => *x == *y,
        (RDFVariant::UInt64(x), RDFVariant::UInt64(y)) => *x == *y,
        (RDFVariant::UInt32(x), RDFVariant::UInt32(y)) => *x == *y,
        (RDFVariant::UInt16(x), RDFVariant::UInt16(y)) => *x == *y,
        (RDFVariant::UInt8(x), RDFVariant::UInt8(y)) => *x == *y,
        (RDFVariant::Double(x), RDFVariant::Double(y)) => *x == *y,
        (RDFVariant::Float(x), RDFVariant::Float(y)) => *x == *y,
        (RDFVariant::Date(x), RDFVariant::Date(y)) => x.unix_days() == y.unix_days(),
        (RDFVariant::Interval(x), RDFVariant::Interval(y)) => x.whole_nanoseconds()
            == y.whole_nanoseconds(),
        (RDFVariant::Timestamp(x), RDFVariant::Timestamp(y)) => x.unix_nanos() == y.unix_nanos(),
        (RDFVariant::String(x), RDFVariant::String(y)) => *x == *y,
        (RDFVariant::Blob(x), RDFVariant::Blob(y)) => same_bytes(x, y),
        _ => false,
    }
}

/// Tells whether two lists of values are the same.
fn same_values(a: &Vec<Value>, b: &Vec<Value>) -> (r: bool)
    ensures
        r == (values_view(a@) == values_view(b@)),
    decreases a,
{
    if a.len() != b.len() {
        assert(values_view(a@).len() != values_view(b@).len());
        return false;
    }
    let mut i: usize = 0;
    while i < a.len()
        invariant
            i <= a.len(),
            a.len() == b.len(),
            forall|j: int| 0 <= j < i ==> #[trigger] values_view(a@)[j] == values_view(b@)[j],
        decreases a.len() - i,
    {
        if !same_value(&a[i], &b[i]) {
            assert(values_view(a@)[i as int] != values_view(b@)[i as int]);
            return false;
        }
        i += 1;
    }
    assert(values_view(a@) =~= values_view(b@));
    true
}

/// Tells whether two lists of named values are the same.
fn same_named_values(a: &Vec<(String, Value)>, b: &Vec<(String, Value)>) -> (r: bool)
    ensures
        r == (named_values_view(a@) == named_values_view(b@)),
    decreases a,
{
    if a.len() != b.len() {
        assert(named_values_view(a@).len() != named_values_view(b@).len());
        return false;
    }
    let mut i: usize = 0;
    while i < a.len()
        invariant
            i <= a.len(),
            a.len() == b.len(),
            forall|j: int|
                0 <= j < i ==> #[trigger] named_values_view(a@)[j] == named_values_view(b@)[j],
        decreases a.len() - i,
    {
        if a[i].0 != b[i].0 || !same_value(&a[i].1, &b[i].1) {
            assert(named_values_view(a@)[i as int] != named_values_view(b@)[i as int]);
            return false;
        }
        i += 1;
    }
    assert(named_values_view(a@) =~= named_values_view(b@));
    true
}

/// Tells whether two lists of pairs of values are the same.
fn same_pairs(a: &Vec<(Value, Value)>, b: &Vec<(Value, Value)>) -> (r: bool)
    ensures
        r == (value_pairs_view(a@) == value_pairs_view(b@)),
    decreases a,
{
    if a.len() != b.len() {
        assert(value_pairs_view(a@).len() != value_pairs_view(b@).len());
        return false;
    }
    let mut i: usize = 0;
    while i < a.len()
        invariant
            i <= a.len(),
            a.len() == b.len(),
            forall|j: int|
                0 <= j < i ==> #[trigger] value_pairs_view(a@)[j] == value_pairs_view(b@)[j],
        decreases a.len() - i,
    {
        if !same_value(&a[i].0, &b[i].0) || !same_value(&a[i].1, &b[i].1) {
            assert(value_pairs_view(a@)[i as int] != value_pairs_view(b@)[i as int]);
            return false;
        }
        i += 1;
    }
    assert(value_pairs_view(a@) =~= value_pairs_view(b@));
    true
}

/// Tells whether two nodes are the same.
fn same_node(a: &NodeVal, b: &NodeVal) -> (r: bool)
    ensures
        r == (a@ == b@),
    decreases a,
{
    *a.get_node_id() == *b.get_node_id() && *a.get_label_name() == *b.get_label_name()
        && same_named_values(a.get_properties(), b.get_properties())
}

/// Tells whether two relationships are the same.
fn same_rel(a: &RelVal, b: &RelVal) -> (r: bool)
    ensures
        r == (a@ == b@),
    decreases a,
{
    *a.get_src_node() == *b.get_src_node() && *a.get_dst_node() == *b.get_dst_node()
        && *a.get_label_name() == *b.get_label_name() && same_named_values(
        a.get_properties(),
        b.get_properties(),
    )
}

/// Tells whether two lists of nodes are the same.
fn same_nodes(a: &Vec<NodeVal>, b: &Vec<NodeVal>) -> (r: bool)
    ensures
        r == (nodes_view(a@) == nodes_view(b@)),
    decreases a,
{
    if a.len() != b.len() {
        assert(nodes_view(a@).len() != nodes_view(b@).len());
        return false;
    }
    let mut i: usize = 0;
    while i < a.len()
        invariant
            i <= a.len(),
            a.len() == b.len(),
            forall|j: int| 0 <= j < i ==> #[trigger] nodes_view(a@)[j] == nodes_view(b@)[j],
        decreases a.len() - i,
    {
        if !same_node(&a[i], &b[i]) {
            assert(nodes_view(a@)[i as int] != nodes_view(b@)[i as int]);
            return false;
        }
        i += 1;
    }
    assert(nodes_view(a@) =~= nodes_view(b@));
    true
}

/// Tells whether two lists of relationships are the same.
fn same_rels(a: &Vec<RelVal>, b: &Vec<RelVal>) -> (r: bool)
    ensures
        r == (rels_view(a@) == rels_view(b@)),
    decreases a,
{
    if a.len() != b.len() {
        assert(rels_view(a@).len() != rels_view(b@).len());
        return false;
    }
    let mut i: usize = 0;
    while i < a.len()
        invariant
            i <= a.len(),
            a.len() == b.len(),
            forall|j: int| 0 <= j < i ==> #[trigger] rels_view(a@)[j] == rels_view(b@)[j],
        decreases a.len() - i,
    {
        if !same_rel(&a[i], &b[i]) {
            assert(rels_view(a@)[i as int] != rels_view(b@)[i as int]);
            return false;
        }
        i += 1;
    }
    assert(rels_view(a@) =~= rels_view(b@));
    true
}

/// Tells whether two values that are a null or a scalar are the same.
fn same_scalar(a: &Value, b: &Value) -> (r: bool)
    requires
        crate::codec::is_plain_value(a@) || a is RDFVariant,
    ensures
        r == (a@ == b@),
{
    match (a, b) {
        (Value::Null(x), Value::Null(y)) => *x == *y,
        (Value::Bool(x), Value::Bool(y)) => *x == *y,
        (Value::Int64(x), Value::Int64(y)) => *x == *y,
        (Value::Int32(x), Value::Int32(y)) => *x == *y,
        (Value::Int16(x), Value::Int16(y)) => *x == *y,
        (Value::Int8(x), Value::Int8(y)) => *x == *y,
        (Value::UInt64(x), Value::UInt64(y)) => *x == *y,
        (Value::UInt32(x), Value::UInt32(y)) => *x == *y,
        (Value::UInt16(x), Value::UInt16(y)) => *x == *y,
        (Value::UInt8(x), Value::UInt8(y)) => *x == *y,
        (Value::Int128(x), Value::Int128(y)) => *x == *y,
        (Value::Double(x), Value::Double(y)) => *x == *y,
        (Value::Float(x), Value::Float(y)) => *x == *y,
        (Value::Date(x), Value::Date(y)) => x.unix_days() == y.unix_days(),
        (Value::Interval(x), Value::Interval(y)) => x.whole_nanoseconds() == y.whole_nanoseconds(),
        (Value::Timestamp(x), Value::Timestamp(y)) => x.unix_nanos() == y.unix_nanos(),
        (Value::TimestampTz(x), Value::TimestampTz(y)) => x.unix_nanos() == y.unix_nanos(),
        (Value::TimestampNs(x), Value::TimestampNs(y)) => x.unix_nanos() == y.unix_nanos(),
        (Value::TimestampMs(x), Value::TimestampMs(y)) => x.unix_nanos() == y.unix_nanos(),
        (Value::TimestampSec(x), Value::TimestampSec(y)) => x.unix_nanos() == y.unix_nanos(),
        (Value::InternalID(x), Value::InternalID(y)) => *x == *y,
        (Value::String(x), Value::String(y)) => *x == *y,
        (Value::Blob(x), Value::Blob(y)) => same_bytes(x, y),
        (Value::UUID(x), Value::UUID(y)) => *x == *y,
        (Value::RDFVariant(x), Value::RDFVariant(y)) => same_variant(x, y),
        _ => false,
    }
}

/// Tells whether two values are the same: of the same kind, with the same
/// declared types, and holding the same values in the same order.
fn same_value(a: &Value, b: &Value) -> (r: bool)
    ensures
        r == (a@ == b@),
    decreases a,
{
    proof {
        a.lemma_view();
        b.lemma_view();
    }
    match (a, b) {
        (Value::List(t, x), Value::List(u, y)) => {
            assert(decreases_to!(a => a->List_1));
            *t == *u && same_values(x, y)
        },
        (Value::Array(t, x), Value::Array(u, y)) => {
            assert(decreases_to!(a => a->Array_1));
            *t == *u && same_values(x, y)
        },
        (Value::Struct(x), Value::Struct(y)) => {
            assert(decreases_to!(a => a->Struct_0));
            same_named_values(x, y)
        },
        (Value::Node(x), Value::Node(y)) => same_node(x, y),
        (Value::Rel(x), Value::Rel(y)) => same_rel(x, y),
        (
            Value::RecursiveRel { nodes: n, rels: r },
            Value::RecursiveRel { nodes: m, rels: s },
        ) => {
            assert(decreases_to!(a => a->RecursiveRel_nodes));
            assert(decreases_to!(a => a->RecursiveRel_rels));
            let nodes_same = same_nodes(n, m);
            let rels_same = same_rels(r, s);
            nodes_same && rels_same
        },
        (Value::MapOf(t, x), Value::MapOf(u, y)) => {
            assert(decreases_to!(a => a->MapOf_1));
            t.0 == u.0 && t.1 == u.1 && same_pairs(x, y)
        },
        (Value::Union { types: t, value: x }, Value::Union { types: u, value: y }) => {
            same_alternatives(t, u) && same_value(x, y)
        },
        (
            Value::List(..) | Value::Array(..) | Value::Struct(..) | Value::Node(..)
            | Value::Rel(..) | Value::RecursiveRel { .. } | Value::MapOf(..) | Value::Union { .. },
            _,
        ) => false,
        _ => same_scalar(a, b),
    }
}

impl PartialEq for RDFVariant {
    /// Two scalars are equal if and only if they are of the same kind and
    /// hold the same number, text or bytes.
    fn eq(&self, other: &RDFVariant) -> (r: bool) {
        same_variant(self, other)
    }
}

impl PartialEqSpecImpl for RDFVariant {
    open spec fn obeys_eq_spec() -> bool {
        true
    }

    open spec fn eq_spec(&self, other: &RDFVariant) -> bool {
        self@ == other@
    }
}

impl PartialEq for NodeVal {
    /// Two nodes are equal if and only if they have the same identifier,
    /// the same label and the same properties in the same order.
    fn eq(&self, other: &NodeVal) -> (r: bool) {
        same_node(self, other)
    }
}

impl PartialEqSpecImpl for NodeVal {
    open spec fn obeys_eq_spec() -> bool {
        true
    }

    open spec fn eq_spec(&self, other: &NodeVal) -> bool {
        self@ == other@
    }
}

impl PartialEq for RelVal {
    /// Two relationships are equal if and only if they join the same
    /// nodes and have the same label and the same properties in the same
    /// order.
    fn eq(&self, other: &RelVal) -> (r: bool) {
        same_rel(self, other)
    }
}

impl PartialEqSpecImpl for RelVal {
    open spec fn obeys_eq_spec() -> bool {
        true
    }

    open spec fn eq_spec(&self, other: &RelVal) -> bool {
        self@ == other@
    }
}

impl PartialEq for Value {
    /// Two values are equal if and only if they are of the same kind, with
    /// the same declared types, and hold the same values in the same
    /// order.
    fn eq(&self, other: &Value) -> (r: bool) {
        same_value(self, other)
    }
}

impl PartialEqSpecImpl for Value {
    open spec fn obeys_eq_spec() -> bool {
        true
    }

    open spec fn eq_spec(&self, other: &Value) -> bool {
        self@ == other@
    }
}

} // verus!
