//! When a value keeps to the types it declares.

use vstd::prelude::*;
use crate::logical_type::{named_types_view, LogicalType};
use crate::value::{
    named_values_view, nodes_view, rels_view, type_of, value_pairs_view, values_view, NodeVal,
    RelVal, Value, ValueView,
};

verus! {

/// Every value of a property list is well typed.
pub open spec fn properties_well_typed(properties: Seq<(Seq<char>, ValueView)>) -> bool
    decreases properties,
{
    forall|i: int| 0 <= i < properties.len() ==> well_typed((#[trigger] properties[i]).1)
}

/// A value keeps to the types it declares: every element of a list and of
/// an array has the declared element type; every key and every value of a
/// map has the declared key type and value type; the value of a union has
/// the type of one of the declared alternatives; and all values inside a
/// value keep to their types in turn.
pub open spec fn well_typed(v: ValueView) -> bool
    decreases v,
{
    match v {
        ValueView::List(t, items) => forall|i: int|
            0 <= i < items.len() ==> well_typed(#[trigger] items[i]) && type_of(items[i]) == t,
        ValueView::Array(t, items) => forall|i: int|
            0 <= i < items.len() ==> well_typed(#[trigger] items[i]) && type_of(items[i]) == t,
        ValueView::Struct(fields) => properties_well_typed(fields),
        ValueView::MapOf(types, entries) => forall|i: int|
            0 <= i < entries.len() ==> {
                &&& well_typed((#[trigger] entries[i]).0)
                &&& type_of(entries[i].0) == types.0
                &&& well_typed(entries[i].1)
                &&& type_of(entries[i].1) == types.1
            },
        ValueView::Union { types, value } => well_typed(*value) && exists|i: int|
            0 <= i < types.len() && (#[trigger] types[i]).1 == type_of(*value),
        ValueView::Node(node) => properties_well_typed(node.properties),
        ValueView::Rel(rel) => properties_well_typed(rel.properties),
        ValueView::RecursiveRel { nodes, rels } => {
            &&& forall|i: int|
                0 <= i < nodes.len() ==> properties_well_typed((#[trigger] nodes[i]).properties)
            &&& forall|i: int|
                0 <= i < rels.len() ==> properties_well_typed((#[trigger] rels[i]).properties)
        },
        _ => true,
    }
}

/// Tells whether every value of a list is well typed and of type `t`.
fn items_keep_to(items: &Vec<Value>, t: &LogicalType) -> (r: bool)
    ensures
        r == (forall|i: int|
            0 <= i < items.len() ==> well_typed(#[trigger] values_view(items@)[i]) && type_of(
                values_view(items@)[i],
            ) == t@),
    decreases items,
{
    let mut i: usize = 0;
    while i < items.len()
        invariant
            i <= items.len(),
            forall|j: int|
                0 <= j < i ==> well_typed(#[trigger] values_view(items@)[j]) && type_of(
                    values_view(items@)[j],
                ) == t@,
        decreases items.len() - i,
    {
        if !items[i].is_well_typed() || items[i].logical_type() != *t {
            assert(!(well_typed(values_view(items@)[i as int]) && type_of(
                values_view(items@)[i as int],
            ) == t@));
            return false;
        }
        i += 1;
    }
    true
}

/// Tells whether every value of a property list is well typed.
fn properties_keep_to_types(properties: &Vec<(String, Value)>) -> (r: bool)
    ensures
        r == properties_well_typed(named_values_view(properties@)),
    decreases properties,
{
    let mut i: usize = 0;
    while i < properties.len()
        invariant
            i <= properties.len(),
            forall|j: int|
                0 <= j < i ==> well_typed((#[trigger] named_values_view(properties@)[j]).1),
        decreases properties.len() - i,
    {
        if !properties[i].1.is_well_typed() {
            assert(!well_typed(named_values_view(properties@)[i as int].1));
            return false;
        }
        i += 1;
    }
    true
}

/// Tells whether every key and every value of a map is well typed and of
/// the key type and the value type.
fn entries_keep_to(entries: &Vec<(Value, Value)>, key_type: &LogicalType, value_type: &LogicalType)
    -> (r: bool)
    ensures
        r == (forall|i: int|
            0 <= i < entries.len() ==> {
                &&& well_typed((#[trigger] value_pairs_view(entries@)[i]).0)
                &&& type_of(value_pairs_view(entries@)[i].0) == key_type@
                &&& well_typed(value_pairs_view(entries@)[i].1)
                &&& type_of(value_pairs_view(entries@)[i].1) == value_type@
            }),
    decreases entries,
{
    let mut i: usize = 0;
    while i < entries.len()
        invariant
            i <= entries.len(),
            forall|j: int|
                0 <= j < i ==> {
                    &&& well_typed((#[trigger] value_pairs_view(entries@)[j]).0)
                    &&& type_of(value_pairs_view(entries@)[j].0) == key_type@
                    &&& well_typed(value_pairs_view(entries@)[j].1)
                    &&& type_of(value_pairs_view(entries@)[j].1) == value_type@
                },
        decreases entries.len() - i,
    {
        let ok = entries[i].0.is_well_typed() && entries[i].0.logical_type() == *key_type
            && entries[i].1.is_well_typed() && entries[i].1.logical_type() == *value_type;
        if !ok {
            let ghost entry = value_pairs_view(entries@)[i as int];
            assert(!(well_typed(entry.0) && type_of(entry.0) == key_type@ && well_typed(entry.1)
                && type_of(entry.1) == value_type@));
            return false;
        }
        i += 1;
    }
    true
}

/// Tells whether a type is among the alternatives of a union.
fn is_alternative(types: &Vec<(String, LogicalType)>, t: &LogicalType) -> (r: bool)
    ensures
        r == (exists|i: int|
            0 <= i < types.len() && (#[trigger] named_types_view(types@)[i]).1 == t@),
{
    let mut i: usize = 0;
    while i < types.len()
        invariant
            i <= types.len(),
            forall|j: int| 0 <= j < i ==> (#[trigger] named_types_view(types@)[j]).1 != t@,
        decreases types.len() - i,
    {
        if types[i].1 == *t {
            assert(named_types_view(types@)[i as int].1 == t@);
            return true;
        }
        i += 1;
    }
    false
}

/// Tells whether the properties of every node are well typed.
fn nodes_keep_to_types(nodes: &Vec<NodeVal>) -> (r: bool)
    ensures
        r == (forall|i: int|
            0 <= i < nodes.len() ==> properties_well_typed(
                (#[trigger] nodes_view(nodes@)[i]).properties,
            )),
    decreases nodes,
{
    let mut i: usize = 0;
    while i < nodes.len()
        invariant
            i <= nodes.len(),
            forall|j: int|
                0 <= j < i ==> properties_well_typed((#[trigger] nodes_view(nodes@)[j]).properties),
        decreases nodes.len() - i,
    {
        if !nodes[i].is_well_typed() {
            assert(!properties_well_typed(nodes_view(nodes@)[i as int].properties));
            return false;
        }
        i += 1;
    }
    true
}

/// Tells whether the properties of every relationship are well typed.
fn rels_keep_to_types(rels: &Vec<RelVal>) -> (r: bool)
    ensures
        r == (forall|i: int|
            0 <= i < rels.len() ==> properties_well_typed(
                (#[trigger] rels_view(rels@)[i]).properties,
            )),
    decreases rels,
{
    let mut i: usize = 0;
    while i < rels.len()
        invariant
            i <= rels.len(),
            forall|j: int|
                0 <= j < i ==> properties_well_typed((#[trigger] rels_view(rels@)[j]).properties),
        decreases rels.len() - i,
    {
        if !rels[i].is_well_typed() {
            assert(!properties_well_typed(rels_view(rels@)[i as int].properties));
            return false;
        }
        i += 1;
    }
    true
}

impl NodeVal {
    /// Tells whether the properties of this node keep to the types they
    /// declare.
    pub fn is_well_typed(&self) -> (r: bool)
        ensures
            r == properties_well_typed(self@.properties),
        decreases self,
    {
        properties_keep_to_types(self.get_properties())
    }
}

impl RelVal {
    /// Tells whether the properties of this relationship keep to the
    /// types they declare.
    pub fn is_well_typed(&self) -> (r: bool)
        ensures
            r == properties_well_typed(self@.properties),
        decreases self,
    {
        properties_keep_to_types(self.get_properties())
    }
}

impl Value {
    /// Tells whether this value keeps to the types it declares.
    pub fn is_well_typed(&self) -> (r: bool)
        ensures
            r == well_typed(self@),
        decreases self,
    {
        proof {
            self.lemma_view();
        }
        match self {
            Value::List(t, items) => {
                assert(decreases_to!(self => self->List_1));
                items_keep_to(items, t)
            },
            Value::Array(t, items) => {
                assert(decreases_to!(self => self->Array_1));
                items_keep_to(items, t)
            },
            Value::Struct(fields) => {
                assert(decreases_to!(self => self->Struct_0));
                properties_keep_to_types(fields)
            },
            Value::MapOf(types, entries) => {
                assert(decreases_to!(self => self->MapOf_1));
                entries_keep_to(entries, &types.0, &types.1)
            },
            Value::Union { types, value } => {
                let inner = value.is_well_typed();
                let listed = is_alternative(types, &value.logical_type());
                inner && listed
            },
            Value::Node(node) => node.is_well_typed(),
            Value::Rel(rel) => rel.is_well_typed(),
            Value::RecursiveRel { nodes, rels } => {
                assert(decreases_to!(self => self->RecursiveRel_nodes));
                assert(decreases_to!(self => self->RecursiveRel_rels));
                let nodes_ok = nodes_keep_to_types(nodes);
                let rels_ok = rels_keep_to_types(rels);
                assert(self@->RecursiveRel_nodes == nodes_view(nodes@));
                assert(self@->RecursiveRel_rels == rels_view(rels@));
                nodes_ok && rels_ok
            },
            _ => true,
        }
    }
}

} // verus!
