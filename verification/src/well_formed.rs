//! Telling, before decoding, whether an engine value can be decoded.

use vstd::prelude::*;
use crate::bytes::ByteOrder;
use crate::codec::{
    decode_value, foreign_value_well_formed, map_entry_well_formed, path_list_well_formed,
};
use crate::decode::decoded_as;
use crate::error::ConversionError;
use crate::foreign::{
    foreign_properties_view, foreign_values_view, ForeignValue, ForeignValueView,
};
use crate::logical_type::{LogicalType, LogicalTypeID};
use crate::value::{RDFVariant, Value};

verus! {

/// Tells whether the first `n` children are well formed.
fn children_well_formed(children: &Vec<ForeignValue>, n: usize) -> (r: bool)
    requires
        n <= children.len(),
    ensures
        r == (forall|i: int|
            0 <= i < n ==> foreign_value_well_formed(#[trigger] foreign_values_view(children@)[i])),
    decreases children, 0nat,
{
    let mut i: usize = 0;
    while i < n
        invariant
            i <= n <= children.len(),
            forall|j: int|
                0 <= j < i ==> foreign_value_well_formed(
                    #[trigger] foreign_values_view(children@)[j],
                ),
        decreases n - i,
    {
        if !children[i].is_well_formed() {
            assert(!foreign_value_well_formed(foreign_values_view(children@)[i as int]));
            return false;
        }
        i += 1;
    }
    true
}

/// Tells whether every child is an entry of a map.
fn entries_well_formed(children: &Vec<ForeignValue>) -> (r: bool)
    ensures
        r == (forall|i: int|
            0 <= i < children.len() ==> map_entry_well_formed(
                #[trigger] foreign_values_view(children@)[i],
            )),
    decreases children, 0nat,
{
    let mut i: usize = 0;
    while i < children.len()
        invariant
            i <= children.len(),
            forall|j: int|
                0 <= j < i ==> map_entry_well_formed(#[trigger] foreign_values_view(children@)[j]),
        decreases children.len() - i,
    {
        proof {
            children[i as int].lemma_view();
        }
        let ok = match &children[i] {
            ForeignValue::Nested { data_type: _, children: pair } => {
                assert(decreases_to!(children[i as int] => children[i as int]->Nested_children));
                pair.len() >= 2 && pair[0].is_well_formed() && pair[1].is_well_formed()
            },
            _ => false,
        };
        if !ok {
            assert(!map_entry_well_formed(foreign_values_view(children@)[i as int]));
            return false;
        }
        i += 1;
    }
    true
}

/// Tells whether the value of every property is well formed.
fn properties_well_formed(properties: &Vec<(String, ForeignValue)>) -> (r: bool)
    ensures
        r == (forall|i: int|
            0 <= i < properties.len() ==> foreign_value_well_formed(
                (#[trigger] foreign_properties_view(properties@)[i]).1,
            )),
    decreases properties, 0nat,
{
    let mut i: usize = 0;
    while i < properties.len()
        invariant
            i <= properties.len(),
            forall|j: int|
                0 <= j < i ==> foreign_value_well_formed(
                    (#[trigger] foreign_properties_view(properties@)[j]).1,
                ),
        decreases properties.len() - i,
    {
        if !properties[i].1.is_well_formed() {
            assert(!foreign_value_well_formed(foreign_properties_view(properties@)[i as int].1));
            return false;
        }
        i += 1;
    }
    true
}

/// Tells whether an engine value is a list of nodes, or of relationships,
/// as a path holds one.
fn path_list_ok(f: &ForeignValue, nodes: bool) -> (r: bool)
    ensures
        r == path_list_well_formed(f@, nodes),
    decreases f, 0nat,
{
    proof {
        f.lemma_view();
    }
    match f {
        ForeignValue::Nested { data_type, children } => {
            proof {
                data_type.lemma_fields_view();
            }
            if !matches!(data_type.id, LogicalTypeID::LIST) {
                return false;
            }
            if !data_type.is_well_formed() {
                return false;
            }
            proof {
                reveal_with_fuel(LogicalType::model, 2);
            }
            let element_ok = match LogicalType::from_foreign(data_type) {
                LogicalType::List { child_type } => {
                    if nodes {
                        matches!(*child_type, LogicalType::Node)
                    } else {
                        matches!(*child_type, LogicalType::Rel)
                    }
                },
                _ => false,
            };
            if !element_ok {
                return false;
            }
            assert(decreases_to!(f => f->Nested_children));
            let ghost views = foreign_values_view(children@);
            let mut i: usize = 0;
            while i < children.len()
                invariant
                    i <= children.len(),
                    f is Nested,
                    f->Nested_children == *children,
                    f@->Nested_children == views,
                    views == foreign_values_view(children@),
                    forall|j: int|
                        0 <= j < i ==> {
                            &&& foreign_value_well_formed(#[trigger] views[j])
                            &&& if nodes {
                                views[j] matches ForeignValueView::Node { id: Some(_), .. }
                            } else {
                                views[j] matches ForeignValueView::Rel { src: Some(_), .. }
                            }
                        },
                decreases children.len() - i,
            {
                proof {
                    children[i as int].lemma_view();
                }
                assert(decreases_to!(f => f->Nested_children));
                let kind_ok = match &children[i] {
                    ForeignValue::Node { id, .. } => nodes && id.is_some(),
                    ForeignValue::Rel { src, .. } => !nodes && src.is_some(),
                    _ => false,
                };
                if !kind_ok || !children[i].is_well_formed() {
                    assert(!(foreign_value_well_formed(views[i as int]) && if nodes {
                        views[i as int] matches ForeignValueView::Node { id: Some(_), .. }
                    } else {
                        views[i as int] matches ForeignValueView::Rel { src: Some(_), .. }
                    }));
                    return false;
                }
                i += 1;
            }
            true
        },
        _ => false,
    }
}

impl ForeignValue {
    /// Tells whether this engine value can be decoded.
    pub fn is_well_formed(&self) -> (r: bool)
        ensures
            r == foreign_value_well_formed(self@),
        decreases self, 1nat,
    {
        proof {
            self.lemma_view();
        }
        match self {
            ForeignValue::Null(t) => t.is_well_formed(),
            ForeignValue::Nested { data_type, children } => {
                proof {
                    data_type.lemma_fields_view();
                }
                assert(decreases_to!(self => self->Nested_children));
                if !data_type.is_well_formed() {
                    return false;
                }
                match data_type.id {
                    LogicalTypeID::LIST | LogicalTypeID::ARRAY => children_well_formed(
                        children,
                        children.len(),
                    ),
                    LogicalTypeID::STRUCT => {
                        let n: usize = if data_type.fields.len() <= children.len() {
                            data_type.fields.len()
                        } else {
                            children.len()
                        };
                        children_well_formed(children, n)
                    },
                    LogicalTypeID::MAP => entries_well_formed(children),
                    LogicalTypeID::UNION => {
                        if children.len() != 1 {
                            return false;
                        }
                        assert(foreign_values_view(children@)[0] == children[0]@);
                        children[0].is_well_formed()
                    },
                    LogicalTypeID::RDF_VARIANT => {
                        if children.len() < 2 {
                            return false;
                        }
                        assert(foreign_values_view(children@)[0] == children[0]@);
                        assert(foreign_values_view(children@)[1] == children[1]@);
                        match (&children[0], &children[1]) {
                            (ForeignValue::UInt8(tag), ForeignValue::Blob(payload)) => {
                                match LogicalTypeID::from_repr(*tag) {
                                    Some(id) => RDFVariant::payload_fits(id, payload),
                                    None => false,
                                }
                            },
                            _ => false,
                        }
                    },
                    _ => false,
                }
            },
            ForeignValue::Node { id, label: _, properties } => {
                assert(decreases_to!(self => self->Node_properties));
                assert(self@->Node_properties == foreign_properties_view(properties@));
                id.is_none() || properties_well_formed(properties)
            },
            ForeignValue::Rel { src, dst: _, label: _, properties } => {
                assert(decreases_to!(self => self->Rel_properties));
                assert(self@->Rel_properties == foreign_properties_view(properties@));
                src.is_none() || properties_well_formed(properties)
            },
            ForeignValue::RecursiveRel { nodes, rels } => path_list_ok(nodes, true)
                && path_list_ok(rels, false),
            _ => true,
        }
    }
}

impl Value {
    /// Reads the value of an engine value, or `None` where the engine
    /// value is not well formed.
    pub fn try_from_foreign(f: &ForeignValue, order: ByteOrder) -> (r: Option<
        Result<Value, ConversionError>,
    >)
        ensures
            r is Some <==> foreign_value_well_formed(f@),
            r matches Some(decoded) ==> decoded_as(decoded, decode_value(f@, order)),
    {
        if f.is_well_formed() {
            Some(Value::from_foreign(f, order))
        } else {
            None
        }
    }
}

} // verus!
