//! The values that queries consume and produce.

use vstd::prelude::*;
use crate::internal_id::InternalID;
use crate::logical_type::{named_types_view, LogicalType, LogicalTypeView};
use crate::temporal::{Date, DateTime, Duration};

verus! {

/// A scalar of the engine's dynamically typed column.
///
/// `Float` and `Double` hold the bits of an IEEE 754 number of 32 and of
/// 64 bits.
#[derive(Debug)]
pub enum RDFVariant {
    Bool(bool),
    Int64(i64),
    Int32(i32),
    Int16(i16),
    Int8(i8),
    UInt64(u64),
    UInt32(u32),
    UInt16(u16),
    UInt8(u8),
    Double(u64),
    Float(u32),
    Date(Date),
    Interval(Duration),
    Timestamp(DateTime),
    String(String),
    Blob(Vec<u8>),
}

/// The mathematical value of an [`RDFVariant`].
pub ghost enum RDFVariantView {
    Bool(bool),
    Int64(i64),
    Int32(i32),
    Int16(i16),
    Int8(i8),
    UInt64(u64),
    UInt32(u32),
    UInt16(u16),
    UInt8(u8),
    Double(u64),
    Float(u32),
    Date(int),
    Interval(int),
    Timestamp(int),
    String(Seq<char>),
    Blob(Seq<u8>),
}

impl View for RDFVariant {
    type V = RDFVariantView;

    open spec fn view(&self) -> RDFVariantView {
        match self {
            RDFVariant::Bool(x) => RDFVariantView::Bool(*x),
            RDFVariant::Int64(x) => RDFVariantView::Int64(*x),
            RDFVariant::Int32(x) => RDFVariantView::Int32(*x),
            RDFVariant::Int16(x) => RDFVariantView::Int16(*x),
            RDFVariant::Int8(x) => RDFVariantView::Int8(*x),
            RDFVariant::UInt64(x) => RDFVariantView::UInt64(*x),
            RDFVariant::UInt32(x) => RDFVariantView::UInt32(*x),
            RDFVariant::UInt16(x) => RDFVariantView::UInt16(*x),
            RDFVariant::UInt8(x) => RDFVariantView::UInt8(*x),
            RDFVariant::Double(x) => RDFVariantView::Double(*x),
            RDFVariant::Float(x) => RDFVariantView::Float(*x),
            RDFVariant::Date(x) => RDFVariantView::Date(x@),
            RDFVariant::Interval(x) => RDFVariantView::Interval(x@),
            RDFVariant::Timestamp(x) => RDFVariantView::Timestamp(x@),
            RDFVariant::String(x) => RDFVariantView::String(x@),
            RDFVariant::Blob(x) => RDFVariantView::Blob(x@),
        }
    }
}

/// A node of the graph: its identifier, its label and its properties in
/// their order.
#[derive(Debug)]
pub struct NodeVal {
    id: InternalID,
    label: String,
    properties: Vec<(String, Value)>,
}

/// A relationship of the graph: the identifiers of the nodes it joins, its
/// label and its properties in their order.
#[derive(Debug)]
pub struct RelVal {
    src_node: InternalID,
    dst_node: InternalID,
    label: String,
    properties: Vec<(String, Value)>,
}

/// A value of one of the engine's types.
///
/// `Float` and `Double` hold the bits of an IEEE 754 number of 32 and of
/// 64 bits; `UUID` holds the 128 bits of the identifier, its first byte
/// highest.
#[derive(Debug)]
pub enum Value {
    Null(LogicalType),
    Bool(bool),
    Int64(i64),
    Int32(i32),
    Int16(i16),
    Int8(i8),
    UInt64(u64),
    UInt32(u32),
    UInt16(u16),
    UInt8(u8),
    Int128(i128),
    Double(u64),
    Float(u32),
    Date(Date),
    /// Sent to the engine with microsecond precision.
    Interval(Duration),
    /// Sent to the engine as microseconds.
    Timestamp(DateTime),
    TimestampTz(DateTime),
    TimestampNs(DateTime),
    TimestampMs(DateTime),
    TimestampSec(DateTime),
    InternalID(InternalID),
    String(String),
    Blob(Vec<u8>),
    /// The element type, which an empty list could not tell, and the
    /// elements.
    List(LogicalType, Vec<Value>),
    /// The element type and the elements.
    Array(LogicalType, Vec<Value>),
    Struct(Vec<(String, Value)>),
    Node(NodeVal),
    Rel(RelVal),
    RecursiveRel {
        /// The nodes inside the path, without its first and last node.
        nodes: Vec<NodeVal>,
        /// The relationships of the path, in their order.
        rels: Vec<RelVal>,
    },
    /// The key type and the value type, and the entries in their order.
    MapOf((LogicalType, LogicalType), Vec<(Value, Value)>),
    /// All alternatives that the union type declares, and the one value
    /// it holds.
    Union { types: Vec<(String, LogicalType)>, value: Box<Value> },
    UUID(u128),
    RDFVariant(RDFVariant),
}

/// The mathematical value of a [`NodeVal`].
pub ghost struct NodeValView {
    pub id: InternalID,
    pub label: Seq<char>,
    pub properties: Seq<(Seq<char>, ValueView)>,
}

/// The mathematical value of a [`RelVal`].
pub ghost struct RelValView {
    pub src_node: InternalID,
    pub dst_node: InternalID,
    pub label: Seq<char>,
    pub properties: Seq<(Seq<char>, ValueView)>,
}

/// The mathematical value of a [`Value`].
pub ghost enum ValueView {
    Null(LogicalTypeView),
    Bool(bool),
    Int64(i64),
    Int32(i32),
    Int16(i16),
    Int8(i8),
    UInt64(u64),
    UInt32(u32),
    UInt16(u16),
    UInt8(u8),
    Int128(i128),
    Double(u64),
    Float(u32),
    Date(int),
    Interval(int),
    Timestamp(int),
    TimestampTz(int),
    TimestampNs(int),
    TimestampMs(int),
    TimestampSec(int),
    InternalID(InternalID),
    String(Seq<char>),
    Blob(Seq<u8>),
    List(LogicalTypeView, Seq<ValueView>),
    Array(LogicalTypeView, Seq<ValueView>),
    Struct(Seq<(Seq<char>, ValueView)>),
    Node(NodeValView),
    Rel(RelValView),
    RecursiveRel { nodes: Seq<NodeValView>, rels: Seq<RelValView> },
    MapOf((LogicalTypeView, LogicalTypeView), Seq<(ValueView, ValueView)>),
    Union { types: Seq<(Seq<char>, LogicalTypeView)>, value: Box<ValueView> },
    UUID(u128),
    RDFVariant(RDFVariantView),
}

/// The view of a list of values.
pub open spec fn values_view(items: Seq<Value>) -> Seq<ValueView> {
    Seq::new(items.len(), |i: int| items[i]@)
}

/// The view of a list of named values.
pub open spec fn named_values_view(fields: Seq<(String, Value)>) -> Seq<(Seq<char>, ValueView)> {
    Seq::new(fields.len(), |i: int| (fields[i].0@, fields[i].1@))
}

/// The view of a list of pairs of values.
pub open spec fn value_pairs_view(entries: Seq<(Value, Value)>) -> Seq<(ValueView, ValueView)> {
    Seq::new(entries.len(), |i: int| (entries[i].0@, entries[i].1@))
}

/// The view of a list of nodes.
pub open spec fn nodes_view(nodes: Seq<NodeVal>) -> Seq<NodeValView> {
    Seq::new(nodes.len(), |i: int| nodes[i]@)
}

/// The view of a list of relationships.
pub open spec fn rels_view(rels: Seq<RelVal>) -> Seq<RelValView> {
    Seq::new(rels.len(), |i: int| rels[i]@)
}

/// The view of a property list, entry by entry.
pub open spec fn properties_model(properties: Vec<(String, Value)>) -> Seq<(Seq<char>, ValueView)>
    decreases properties,
{
    Seq::new(
        properties.len() as nat,
        |i: int|
            if 0 <= i < properties.len() {
                (properties[i].0@, properties[i].1.model())
            } else {
                (Seq::empty(), ValueView::Bool(false))
            },
    )
}

impl NodeVal {
    /// The view, built along the structure.
    pub closed spec fn model(self) -> NodeValView
        decreases self,
    {
        NodeValView {
            id: self.id,
            label: self.label@,
            properties: properties_model(self.properties),
        }
    }
}

impl RelVal {
    /// The view, built along the structure.
    pub closed spec fn model(self) -> RelValView
        decreases self,
    {
        RelValView {
            src_node: self.src_node,
            dst_node: self.dst_node,
            label: self.label@,
            properties: properties_model(self.properties),
        }
    }
}

impl Value {
    /// The view, built along the structure.
    pub open spec fn model(self) -> ValueView
        decreases self,
    {
        match self {
            Value::Null(t) => ValueView::Null(t@),
            Value::Bool(x) => ValueView::Bool(x),
            Value::Int64(x) => ValueView::Int64(x),
            Value::Int32(x) => ValueView::Int32(x),
            Value::Int16(x) => ValueView::Int16(x),
            Value::Int8(x) => ValueView::Int8(x),
            Value::UInt64(x) => ValueView::UInt64(x),
            Value::UInt32(x) => ValueView::UInt32(x),
            Value::UInt16(x) => ValueView::UInt16(x),
            Value::UInt8(x) => ValueView::UInt8(x),
            Value::Int128(x) => ValueView::Int128(x),
            Value::Double(x) => ValueView::Double(x),
            Value::Float(x) => ValueView::Float(x),
            Value::Date(x) => ValueView::Date(x@),
            Value::Interval(x) => ValueView::Interval(x@),
            Value::Timestamp(x) => ValueView::Timestamp(x@),
            Value::TimestampTz(x) => ValueView::TimestampTz(x@),
            Value::TimestampNs(x) => ValueView::TimestampNs(x@),
            Value::TimestampMs(x) => ValueView::TimestampMs(x@),
            Value::TimestampSec(x) => ValueView::TimestampSec(x@),
            Value::InternalID(x) => ValueView::InternalID(x),
            Value::String(x) => ValueView::String(x@),
            Value::Blob(x) => ValueView::Blob(x@),
            Value::List(t, items) => ValueView::List(
                t@,
                Seq::new(
                    items.len() as nat,
                    |i: int|
                        if 0 <= i < items.len() {
                            items[i].model()
                        } else {
                            ValueView::Bool(false)
                        },
                ),
            ),
            Value::Array(t, items) => ValueView::Array(
                t@,
                Seq::new(
                    items.len() as nat,
                    |i: int|
                        if 0 <= i < items.len() {
                            items[i].model()
                        } else {
                            ValueView::Bool(false)
                        },
                ),
            ),
            Value::Struct(fields) => ValueView::Struct(properties_model(fields)),
            Value::Node(node) => ValueView::Node(node.model()),
            Value::Rel(rel) => ValueView::Rel(rel.model()),
            Value::RecursiveRel { nodes, rels } => ValueView::RecursiveRel {
                nodes: Seq::new(
                    nodes.len() as nat,
                    |i: int|
                        if 0 <= i < nodes.len() {
                            nodes[i].model()
                        } else {
                            arbitrary()
                        },
                ),
                rels: Seq::new(
                    rels.len() as nat,
                    |i: int|
                        if 0 <= i < rels.len() {
                            rels[i].model()
                        } else {
                            arbitrary()
                        },
                ),
            },
            Value::MapOf(types, entries) => ValueView::MapOf(
                (types.0@, types.1@),
                Seq::new(
                    entries.len() as nat,
                    |i: int|
                        if 0 <= i < entries.len() {
                            (entries[i].0.model(), entries[i].1.model())
                        } else {
                            (ValueView::Bool(false), ValueView::Bool(false))
                        },
                ),
            ),
            Value::Union { types, value } => ValueView::Union {
                types: named_types_view(types@),
                value: Box::new((*value).model()),
            },
            Value::UUID(x) => ValueView::UUID(x),
            Value::RDFVariant(x) => ValueView::RDFVariant(x@),
        }
    }
}

impl View for NodeVal {
    type V = NodeValView;

    open spec fn view(&self) -> NodeValView {
        self.model()
    }
}

impl View for RelVal {
    type V = RelValView;

    open spec fn view(&self) -> RelValView {
        self.model()
    }
}

impl View for Value {
    type V = ValueView;

    open spec fn view(&self) -> ValueView {
        self.model()
    }
}

/// A property list, seen through `@`, is the list of the views of its
/// entries.
pub proof fn lemma_properties_model(properties: Vec<(String, Value)>)
    ensures
        properties_model(properties) == named_values_view(properties@),
{
    assert(properties_model(properties) =~= named_values_view(properties@));
}

impl Value {
    /// What `@` gives for the variants that hold lists: the views of the
    /// items, in their order.
    pub proof fn lemma_view(self)
        ensures
            self matches Value::List(t, items) ==> self@ == ValueView::List(
                t@,
                values_view(items@),
            ),
            self matches Value::Array(t, items) ==> self@ == ValueView::Array(
                t@,
                values_view(items@),
            ),
            self matches Value::Struct(fields) ==> self@ == ValueView::Struct(
                named_values_view(fields@),
            ),
            self matches Value::MapOf(types, entries) ==> self@ == ValueView::MapOf(
                (types.0@, types.1@),
                value_pairs_view(entries@),
            ),
            self matches Value::RecursiveRel { nodes, rels } ==> self@ == (ValueView::RecursiveRel {
                nodes: nodes_view(nodes@),
                rels: rels_view(rels@),
            }),
    {
        match self {
            Value::List(t, items) => {
                assert(self@->List_1 =~= values_view(items@));
            },
            Value::Array(t, items) => {
                assert(self@->Array_1 =~= values_view(items@));
            },
            Value::Struct(fields) => {
                lemma_properties_model(fields);
            },
            Value::MapOf(types, entries) => {
                assert(self@->MapOf_1 =~= value_pairs_view(entries@));
            },
            Value::RecursiveRel { nodes, rels } => {
                assert(self@->RecursiveRel_nodes =~= nodes_view(nodes@));
                assert(self@->RecursiveRel_rels =~= rels_view(rels@));
            },
            _ => {},
        }
    }
}

impl NodeVal {
    /// A node without properties.
    pub fn new(id: InternalID, label: String) -> (r: NodeVal)
        ensures
            r@ == (NodeValView { id, label: label@, properties: Seq::empty() }),
    {
        let r = NodeVal { id, label, properties: Vec::new() };
        assert(r@.properties =~= Seq::empty());
        r
    }

    /// A node with the properties given, in their order.
    pub fn with_properties(id: InternalID, label: String, properties: Vec<(String, Value)>) -> (r:
        NodeVal)
        ensures
            r@ == (NodeValView {
                id,
                label: label@,
                properties: named_values_view(properties@),
            }),
    {
        proof {
            lemma_properties_model(properties);
        }
        NodeVal { id, label, properties }
    }

    /// The identifier of the node.
    pub fn get_node_id(&self) -> (r: &InternalID)
        ensures
            *r == self@.id,
    {
        &self.id
    }

    /// The label of the node.
    pub fn get_label_name(&self) -> (r: &String)
        ensures
            r@ == self@.label,
    {
        &self.label
    }

    /// Adds a property after those that the node has.
    pub fn add_property(&mut self, key: String, value: Value)
        ensures
            final(self)@ == (NodeValView {
                properties: old(self)@.properties.push((key@, value@)),
                ..old(self)@
            }),
    {
        self.properties.push((key, value));
        assert(self@.properties =~= old(self)@.properties.push((key@, value@)));
    }

    /// The properties of the node, in their order.
    pub fn get_properties(&self) -> (r: &Vec<(String, Value)>)
        ensures
            named_values_view(r@) == self@.properties,
            decreases_to!(self => r),
    {
        proof {
            lemma_properties_model(self.properties);
        }
        &self.properties
    }
}

impl RelVal {
    /// A relationship without properties.
    pub fn new(src_node: InternalID, dst_node: InternalID, label: String) -> (r: RelVal)
        ensures
            r@ == (RelValView { src_node, dst_node, label: label@, properties: Seq::empty() }),
    {
        let r = RelVal { src_node, dst_node, label, properties: Vec::new() };
        assert(r@.properties =~= Seq::empty());
        r
    }

    /// A relationship with the properties given, in their order.
    pub fn with_properties(
        src_node: InternalID,
        dst_node: InternalID,
        label: String,
        properties: Vec<(String, Value)>,
    ) -> (r: RelVal)
        ensures
            r@ == (RelValView {
                src_node,
                dst_node,
                label: label@,
                properties: named_values_view(properties@),
            }),
    {
        proof {
            lemma_properties_model(properties);
        }
        RelVal { src_node, dst_node, label, properties }
    }

    /// The identifier of the node that the relationship leaves.
    pub fn get_src_node(&self) -> (r: &InternalID)
        ensures
            *r == self@.src_node,
    {
        &self.src_node
    }

    /// The identifier of the node that the relationship enters.
    pub fn get_dst_node(&self) -> (r: &InternalID)
        ensures
            *r == self@.dst_node,
    {
        &self.dst_node
    }

    /// The label of the relationship.
    pub fn get_label_name(&self) -> (r: &String)
        ensures
            r@ == self@.label,
    {
        &self.label
    }

    /// Adds a property after those that the relationship has.
    pub fn add_property(&mut self, key: String, value: Value)
        ensures
            final(self)@ == (RelValView {
                properties: old(self)@.properties.push((key@, value@)),
                ..old(self)@
            }),
    {
        self.properties.push((key, value));
        assert(self@.properties =~= old(self)@.properties.push((key@, value@)));
    }

    /// The properties of the relationship, in their order.
    pub fn get_properties(&self) -> (r: &Vec<(String, Value)>)
        ensures
            named_values_view(r@) == self@.properties,
            decreases_to!(self => r),
    {
        proof {
            lemma_properties_model(self.properties);
        }
        &self.properties
    }
}

/// The type of a value.  A null has the type it names; a list has its
/// declared element type; an array also has the number of its elements; a
/// struct has the names and the types of its fields, in their order; a
/// union has all its declared alternatives.
pub open spec fn type_of(v: ValueView) -> LogicalTypeView
    decreases v,
{
    match v {
        ValueView::Null(t) => t,
        ValueView::Bool(_) => LogicalTypeView::Bool,
        ValueView::Int64(_) => LogicalTypeView::Int64,
        ValueView::Int32(_) => LogicalTypeView::Int32,
        ValueView::Int16(_) => LogicalTypeView::Int16,
        ValueView::Int8(_) => LogicalTypeView::Int8,
        ValueView::UInt64(_) => LogicalTypeView::UInt64,
        ValueView::UInt32(_) => LogicalTypeView::UInt32,
        ValueView::UInt16(_) => LogicalTypeView::UInt16,
        ValueView::UInt8(_) => LogicalTypeView::UInt8,
        ValueView::Int128(_) => LogicalTypeView::Int128,
        ValueView::Double(_) => LogicalTypeView::Double,
        ValueView::Float(_) => LogicalTypeView::Float,
        ValueView::Date(_) => LogicalTypeView::Date,
        ValueView::Interval(_) => LogicalTypeView::Interval,
        ValueView::Timestamp(_) => LogicalTypeView::Timestamp,
        ValueView::TimestampTz(_) => LogicalTypeView::TimestampTz,
        ValueView::TimestampNs(_) => LogicalTypeView::TimestampNs,
        ValueView::TimestampMs(_) => LogicalTypeView::TimestampMs,
        ValueView::TimestampSec(_) => LogicalTypeView::TimestampSec,
        ValueView::InternalID(_) => LogicalTypeView::InternalID,
        ValueView::String(_) => LogicalTypeView::String,
        ValueView::Blob(_) => LogicalTypeView::Blob,
        ValueView::List(t, _) => LogicalTypeView::List { child_type: Box::new(t) },
        ValueView::Array(t, items) => LogicalTypeView::Array {
            child_type: Box::new(t),
            num_elements: items.len() as u64,
        },
        ValueView::Struct(fields) => LogicalTypeView::Struct {
            fields: Seq::new(
                fields.len(),
                |i: int|
                    if 0 <= i < fields.len() {
                        (fields[i].0, type_of(fields[i].1))
                    } else {
                        (Seq::empty(), LogicalTypeView::Any)
                    },
            ),
        },
        ValueView::Node(_) => LogicalTypeView::Node,
        ValueView::Rel(_) => LogicalTypeView::Rel,
        ValueView::RecursiveRel { .. } => LogicalTypeView::RecursiveRel,
        ValueView::MapOf(types, _) => LogicalTypeView::MapOf {
            key_type: Box::new(types.0),
            value_type: Box::new(types.1),
        },
        ValueView::Union { types, .. } => LogicalTypeView::Union { types },
        ValueView::UUID(_) => LogicalTypeView::UUID,
        ValueView::RDFVariant(_) => LogicalTypeView::RDFVariant,
    }
}

/// Copies a list of bytes.
pub(crate) fn clone_bytes(bytes: &Vec<u8>) -> (r: Vec<u8>)
    ensures
        r@ == bytes@,
{
    let mut out: Vec<u8> = Vec::new();
    let mut i: usize = 0;
    while i < bytes.len()
        invariant
            i <= bytes.len(),
            out@ == bytes@.take(i as int),
        decreases bytes.len() - i,
    {
        out.push(bytes[i]);
        assert(bytes@.take(i as int + 1) =~= bytes@.take(i as int).push(bytes@[i as int]));
        i += 1;
    }
    assert(bytes@.take(i as int) =~= bytes@);
    out
}

/// Copies a list of named types.
pub(crate) fn clone_types(types: &Vec<(String, LogicalType)>) -> (r: Vec<(String, LogicalType)>)
    ensures
        named_types_view(r@) == named_types_view(types@),
{
    let mut out: Vec<(String, LogicalType)> = Vec::new();
    let mut i: usize = 0;
    while i < types.len()
        invariant
            i <= types.len(),
            out.len() == i,
            forall|j: int|
                0 <= j < i ==> out[j].0@ == types[j].0@ && out[j].1@ == (#[trigger] types[j]).1@,
        decreases types.len() - i,
    {
        out.push((types[i].0.clone(), types[i].1.clone()));
        i += 1;
    }
    assert(named_types_view(out@) =~= named_types_view(types@));
    out
}

/// The types of the fields of a struct, with their names.
fn field_types(fields: &Vec<(String, Value)>) -> (r: Vec<(String, LogicalType)>)
    ensures
        named_types_view(r@) == type_of(ValueView::Struct(named_values_view(fields@)))->Struct_fields,
    decreases fields,
{
    let ghost want = type_of(ValueView::Struct(named_values_view(fields@)))->Struct_fields;
    let mut out: Vec<(String, LogicalType)> = Vec::new();
    let mut i: usize = 0;
    while i < fields.len()
        invariant
            i <= fields.len(),
            out.len() == i,
            want == type_of(ValueView::Struct(named_values_view(fields@)))->Struct_fields,
            forall|j: int| 0 <= j < i ==> (#[trigger] out[j]).0@ == want[j].0 && out[j].1@ == want[j].1,
        decreases fields.len() - i,
    {
        let name = fields[i].0.clone();
        let typ = fields[i].1.logical_type();
        out.push((name, typ));
        i += 1;
    }
    assert(named_types_view(out@) =~= want);
    out
}

impl Value {
    /// The type of this value.
    pub fn logical_type(&self) -> (r: LogicalType)
        ensures
            r@ == type_of(self@),
        decreases self,
    {
        proof {
            self.lemma_view();
        }
        match self {
            Value::Bool(_) => LogicalType::Bool,
            Value::Int8(_) => LogicalType::Int8,
            Value::Int16(_) => LogicalType::Int16,
            Value::Int32(_) => LogicalType::Int32,
            Value::Int64(_) => LogicalType::Int64,
            Value::UInt8(_) => LogicalType::UInt8,
            Value::UInt16(_) => LogicalType::UInt16,
            Value::UInt32(_) => LogicalType::UInt32,
            Value::UInt64(_) => LogicalType::UInt64,
            Value::Int128(_) => LogicalType::Int128,
            Value::Float(_) => LogicalType::Float,
            Value::Double(_) => LogicalType::Double,
            Value::Date(_) => LogicalType::Date,
            Value::Interval(_) => LogicalType::Interval,
            Value::Timestamp(_) => LogicalType::Timestamp,
            Value::TimestampTz(_) => LogicalType::TimestampTz,
            Value::TimestampNs(_) => LogicalType::TimestampNs,
            Value::TimestampMs(_) => LogicalType::TimestampMs,
            Value::TimestampSec(_) => LogicalType::TimestampSec,
            Value::String(_) => LogicalType::String,
            Value::Blob(_) => LogicalType::Blob,
            Value::Null(x) => x.clone(),
            Value::List(x, _) => LogicalType::List { child_type: Box::new(x.clone()) },
            Value::Array(x, value) => LogicalType::Array {
                child_type: Box::new(x.clone()),
                num_elements: value.len() as u64,
            },
            Value::Struct(values) => {
                assert(decreases_to!(self => self->Struct_0));
                let r = LogicalType::Struct { fields: field_types(values) };
                proof {
                    r.lemma_struct_view();
                }
                r
            },
            Value::InternalID(_) => LogicalType::InternalID,
            Value::Node(_) => LogicalType::Node,
            Value::Rel(_) => LogicalType::Rel,
            Value::RecursiveRel { .. } => LogicalType::RecursiveRel,
            Value::MapOf(types, _) => LogicalType::MapOf {
                key_type: Box::new(types.0.clone()),
                value_type: Box::new(types.1.clone()),
            },
            Value::Union { types, .. } => {
                let r = LogicalType::Union { types: clone_types(types) };
                proof {
                    r.lemma_union_view();
                }
                r
            },
            Value::UUID(_) => LogicalType::UUID,
            Value::RDFVariant(_) => LogicalType::RDFVariant,
        }
    }
}

impl Clone for RDFVariant {
    fn clone(&self) -> (r: Self)
        ensures
            r@ == self@,
    {
        match self {
            RDFVariant::Bool(x) => RDFVariant::Bool(*x),
            RDFVariant::Int64(x) => RDFVariant::Int64(*x),
            RDFVariant::Int32(x) => RDFVariant::Int32(*x),
            RDFVariant::Int16(x) => RDFVariant::Int16(*x),
            RDFVariant::Int8(x) => RDFVariant::Int8(*x),
            RDFVariant::UInt64(x) => RDFVariant::UInt64(*x),
            RDFVariant::UInt32(x) => RDFVariant::UInt32(*x),
            RDFVariant::UInt16(x) => RDFVariant::UInt16(*x),
            RDFVariant::UInt8(x) => RDFVariant::UInt8(*x),
            RDFVariant::Double(x) => RDFVariant::Double(*x),
            RDFVariant::Float(x) => RDFVariant::Float(*x),
            RDFVariant::Date(x) => RDFVariant::Date(*x),
            RDFVariant::Interval(x) => RDFVariant::Interval(*x),
            RDFVariant::Timestamp(x) => RDFVariant::Timestamp(*x),
            RDFVariant::String(x) => RDFVariant::String(x.clone()),
            RDFVariant::Blob(x) => RDFVariant::Blob(clone_bytes(x)),
        }
    }
}

/// Copies a list of named values.
fn clone_named_values(fields: &Vec<(String, Value)>) -> (r: Vec<(String, Value)>)
    ensures
        named_values_view(r@) == named_values_view(fields@),
    decreases fields,
{
    let mut out: Vec<(String, Value)> = Vec::new();
    let mut i: usize = 0;
    while i < fields.len()
        invariant
            i <= fields.len(),
            out.len() == i,
            forall|j: int|
                0 <= j < i ==> out[j].0@ == fields[j].0@ && out[j].1@ == (#[trigger] fields[j]).1@,
        decreases fields.len() - i,
    {
        let name = fields[i].0.clone();
        let value = clone_value(&fields[i].1);
        out.push((name, value));
        i += 1;
    }
    assert(named_values_view(out@) =~= named_values_view(fields@));
    out
}

/// Copies a list of values.
fn clone_values(items: &Vec<Value>) -> (r: Vec<Value>)
    ensures
        values_view(r@) == values_view(items@),
    decreases items,
{
    let mut out: Vec<Value> = Vec::new();
    let mut i: usize = 0;
    while i < items.len()
        invariant
            i <= items.len(),
            out.len() == i,
            forall|j: int| 0 <= j < i ==> out[j]@ == (#[trigger] items[j])@,
        decreases items.len() - i,
    {
        let value = clone_value(&items[i]);
        out.push(value);
        i += 1;
    }
    assert(values_view(out@) =~= values_view(items@));
    out
}

/// Copies a list of pairs of values.
fn clone_pairs(entries: &Vec<(Value, Value)>) -> (r: Vec<(Value, Value)>)
    ensures
        value_pairs_view(r@) == value_pairs_view(entries@),
    decreases entries,
{
    let mut out: Vec<(Value, Value)> = Vec::new();
    let mut i: usize = 0;
    while i < entries.len()
        invariant
            i <= entries.len(),
            out.len() == i,
            forall|j: int|
                0 <= j < i ==> out[j].0@ == entries[j].0@ && out[j].1@ == (
                #[trigger] entries[j]).1@,
        decreases entries.len() - i,
    {
        let key = clone_value(&entries[i].0);
        let value = clone_value(&entries[i].1);
        out.push((key, value));
        i += 1;
    }
    assert(value_pairs_view(out@) =~= value_pairs_view(entries@));
    out
}

/// Copies a node.
fn clone_node(node: &NodeVal) -> (r: NodeVal)
    ensures
        r@ == node@,
    decreases node,
{
    proof {
        lemma_properties_model(node.properties);
    }
    let r = NodeVal {
        id: node.id,
        label: node.label.clone(),
        properties: clone_named_values(&node.properties),
    };
    proof {
        lemma_properties_model(r.properties);
    }
    r
}

/// Copies a relationship.
fn clone_rel(rel: &RelVal) -> (r: RelVal)
    ensures
        r@ == rel@,
    decreases rel,
{
    proof {
        lemma_properties_model(rel.properties);
    }
    let r = RelVal {
        src_node: rel.src_node,
        dst_node: rel.dst_node,
        label: rel.label.clone(),
        properties: clone_named_values(&rel.properties),
    };
    proof {
        lemma_properties_model(r.properties);
    }
    r
}

/// Copies a list of nodes.
fn clone_nodes(nodes: &Vec<NodeVal>) -> (r: Vec<NodeVal>)
    ensures
        nodes_view(r@) == nodes_view(nodes@),
    decreases nodes,
{
    let mut out: Vec<NodeVal> = Vec::new();
    let mut i: usize = 0;
    while i < nodes.len()
        invariant
            i <= nodes.len(),
            out.len() == i,
            forall|j: int| 0 <= j < i ==> out[j]@ == (#[trigger] nodes[j])@,
        decreases nodes.len() - i,
    {
        let node = clone_node(&nodes[i]);
        out.push(node);
        i += 1;
    }
    assert(nodes_view(out@) =~= nodes_view(nodes@));
    out
}

/// Copies a list of relationships.
fn clone_rels(rels: &Vec<RelVal>) -> (r: Vec<RelVal>)
    ensures
        rels_view(r@) == rels_view(rels@),
    decreases rels,
{
    let mut out: Vec<RelVal> = Vec::new();
    let mut i: usize = 0;
    while i < rels.len()
        invariant
            i <= rels.len(),
            out.len() == i,
            forall|j: int| 0 <= j < i ==> out[j]@ == (#[trigger] rels[j])@,
        decreases rels.len() - i,
    {
        let rel = clone_rel(&rels[i]);
        out.push(rel);
        i += 1;
    }
    assert(rels_view(out@) =~= rels_view(rels@));
    out
}

/// Copies a value.
fn clone_value(v: &Value) -> (r: Value)
    ensures
        r@ == v@,
    decreases v,
{
    proof {
        v.lemma_view();
    }
    let r = match v {
        Value::Null(t) => Value::Null(t.clone()),
        Value::Bool(x) => Value::Bool(*x),
        Value::Int64(x) => Value::Int64(*x),
        Value::Int32(x) => Value::Int32(*x),
        Value::Int16(x) => Value::Int16(*x),
        Value::Int8(x) => Value::Int8(*x),
        Value::UInt64(x) => Value::UInt64(*x),
        Value::UInt32(x) => Value::UInt32(*x),
        Value::UInt16(x) => Value::UInt16(*x),
        Value::UInt8(x) => Value::UInt8(*x),
        Value::Int128(x) => Value::Int128(*x),
        Value::Double(x) => Value::Double(*x),
        Value::Float(x) => Value::Float(*x),
        Value::Date(x) => Value::Date(*x),
        Value::Interval(x) => Value::Interval(*x),
        Value::Timestamp(x) => Value::Timestamp(*x),
        Value::TimestampTz(x) => Value::TimestampTz(*x),
        Value::TimestampNs(x) => Value::TimestampNs(*x),
        Value::TimestampMs(x) => Value::TimestampMs(*x),
        Value::TimestampSec(x) => Value::TimestampSec(*x),
        Value::InternalID(x) => Value::InternalID(*x),
        Value::String(x) => Value::String(x.clone()),
        Value::Blob(x) => Value::Blob(clone_bytes(x)),
        Value::List(t, items) => {
            assert(decreases_to!(v => v->List_1));
            Value::List(t.clone(), clone_values(items))
        },
        Value::Array(t, items) => {
            assert(decreases_to!(v => v->Array_1));
            Value::Array(t.clone(), clone_values(items))
        },
        Value::Struct(fields) => {
            assert(decreases_to!(v => v->Struct_0));
            Value::Struct(clone_named_values(fields))
        },
        Value::Node(node) => Value::Node(clone_node(node)),
        Value::Rel(rel) => Value::Rel(clone_rel(rel)),
        Value::RecursiveRel { nodes, rels } => {
            assert(decreases_to!(v => v->RecursiveRel_nodes));
            assert(decreases_to!(v => v->RecursiveRel_rels));
            Value::RecursiveRel { nodes: clone_nodes(nodes), rels: clone_rels(rels) }
        },
        Value::MapOf(types, entries) => {
            assert(decreases_to!(v => v->MapOf_1));
            Value::MapOf((types.0.clone(), types.1.clone()), clone_pairs(entries))
        },
        Value::Union { types, value } => Value::Union {
            types: clone_types(types),
            value: Box::new(clone_value(value)),
        },
        Value::UUID(x) => Value::UUID(*x),
        Value::RDFVariant(x) => Value::RDFVariant(x.clone()),
    };
    proof {
        r.lemma_view();
    }
    r
}

impl Clone for NodeVal {
    fn clone(&self) -> (r: Self)
        ensures
            r@ == self@,
    {
        clone_node(self)
    }
}

impl Clone for RelVal {
    fn clone(&self) -> (r: Self)
        ensures
            r@ == self@,
    {
        clone_rel(self)
    }
}

impl Clone for Value {
    fn clone(&self) -> (r: Self)
        ensures
            r@ == self@,
    {
        clone_value(self)
    }
}

} // verus!
