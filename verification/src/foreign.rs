//! The engine's side of the boundary, as plain data.

use vstd::prelude::*;
use crate::internal_id::InternalID;
use crate::logical_type::LogicalTypeID;
use crate::type_codec::plain_foreign_type;

verus! {

/// A type as the engine holds it: an id, and, for the ids that have them,
/// an element type, an element count and named member types.
///
/// A list and an array have an element type; an array also has a count.  A
/// struct has its fields as members.  A union has a leading tag member and
/// then its alternatives.  A map has, as its element type, a struct whose
/// first two members are the key and the value.
#[derive(Debug, PartialEq, Eq)]
pub struct ForeignType {
    pub id: LogicalTypeID,
    pub child_type: Option<Box<ForeignType>>,
    pub num_elements: u64,
    pub fields: Vec<(String, ForeignType)>,
}

/// The mathematical value of a [`ForeignType`].
pub ghost struct ForeignTypeView {
    pub id: LogicalTypeID,
    pub child_type: Option<Box<ForeignTypeView>>,
    pub num_elements: u64,
    pub fields: Seq<(Seq<char>, ForeignTypeView)>,
}

impl ForeignType {
    /// The view, built along the structure.
    pub open spec fn model(self) -> ForeignTypeView
        decreases self,
    {
        ForeignTypeView {
            id: self.id,
            child_type: match self.child_type {
                Some(child) => Some(Box::new((*child).model())),
                None => None,
            },
            num_elements: self.num_elements,
            fields: Seq::new(
                self.fields.len() as nat,
                |i: int|
                    if 0 <= i < self.fields.len() {
                        (self.fields[i].0@, self.fields[i].1.model())
                    } else {
                        (Seq::empty(), arbitrary())
                    },
            ),
        }
    }
}

/// The view of a list of members.
pub open spec fn foreign_members_view(fields: Seq<(String, ForeignType)>) -> Seq<
    (Seq<char>, ForeignTypeView),
> {
    Seq::new(fields.len(), |i: int| (fields[i].0@, fields[i].1@))
}

impl ForeignType {
    /// The members of an engine type, seen through `@`, are the views of
    /// its members.
    pub proof fn lemma_fields_view(self)
        ensures
            self@.fields == foreign_members_view(self.fields@),
            self@.id == self.id,
            self@.num_elements == self.num_elements,
            self@.child_type is Some <==> self.child_type is Some,
            self.child_type matches Some(child) ==> self@.child_type == Some(Box::new(child@)),
    {
        assert(self@.fields =~= foreign_members_view(self.fields@));
    }

    /// An engine type that has only an id.
    pub fn plain(id: LogicalTypeID) -> (r: ForeignType)
        ensures
            r@ == crate::type_codec::plain_foreign_type(id),
    {
        let r = ForeignType { id, child_type: None, num_elements: 0, fields: Vec::new() };
        assert(r@.fields =~= Seq::empty());
        r
    }
}

impl View for ForeignType {
    type V = ForeignTypeView;

    open spec fn view(&self) -> ForeignTypeView {
        self.model()
    }
}

/// A value as the engine holds it: what its accessors hand out of one, and
/// what its constructors take.
///
/// A scalar holds the number that the engine stores: a 128-bit integer as
/// its high and low halves, a date as days and a timestamp as a count in
/// its own unit from the start of 1970, an interval as months, days and
/// microseconds, a floating-point number as its bits.  `Nested` is the one
/// form of every value that is made of an ordered sequence of children.
#[derive(Debug, PartialEq)]
pub enum ForeignValue {
    Null(ForeignType),
    Bool(bool),
    Int64(i64),
    Int32(i32),
    Int16(i16),
    Int8(i8),
    UInt64(u64),
    UInt32(u32),
    UInt16(u16),
    UInt8(u8),
    Int128 { high: i64, low: u64 },
    UUID { high: i64, low: u64 },
    Double(u64),
    Float(u32),
    Date(i32),
    Timestamp(i64),
    TimestampTz(i64),
    TimestampNs(i64),
    TimestampMs(i64),
    TimestampSec(i64),
    Interval { months: i32, days: i32, micros: i64 },
    InternalID(InternalID),
    String(String),
    Blob(Vec<u8>),
    Nested { data_type: ForeignType, children: Vec<ForeignValue> },
    /// `id` is `None` where the engine has a null in place of the node's
    /// identifier.
    Node { id: Option<InternalID>, label: String, properties: Vec<(String, ForeignValue)> },
    /// `src` is `None` where the engine has a null in place of the
    /// identifier of the source node.
    Rel {
        src: Option<InternalID>,
        dst: InternalID,
        label: String,
        properties: Vec<(String, ForeignValue)>,
    },
    RecursiveRel { nodes: Box<ForeignValue>, rels: Box<ForeignValue> },
}

/// The mathematical value of a [`ForeignValue`].
pub ghost enum ForeignValueView {
    Null(ForeignTypeView),
    Bool(bool),
    Int64(i64),
    Int32(i32),
    Int16(i16),
    Int8(i8),
    UInt64(u64),
    UInt32(u32),
    UInt16(u16),
    UInt8(u8),
    Int128 { high: i64, low: u64 },
    UUID { high: i64, low: u64 },
    Double(u64),
    Float(u32),
    Date(i32),
    Timestamp(i64),
    TimestampTz(i64),
    TimestampNs(i64),
    TimestampMs(i64),
    TimestampSec(i64),
    Interval { months: i32, days: i32, micros: i64 },
    InternalID(InternalID),
    String(Seq<char>),
    Blob(Seq<u8>),
    Nested { data_type: ForeignTypeView, children: Seq<ForeignValueView> },
    Node { id: Option<InternalID>, label: Seq<char>, properties: Seq<(Seq<char>, ForeignValueView)> },
    Rel {
        src: Option<InternalID>,
        dst: InternalID,
        label: Seq<char>,
        properties: Seq<(Seq<char>, ForeignValueView)>,
    },
    RecursiveRel { nodes: Box<ForeignValueView>, rels: Box<ForeignValueView> },
}

/// The view of a list of engine values.
pub open spec fn foreign_values_view(items: Seq<ForeignValue>) -> Seq<ForeignValueView> {
    Seq::new(items.len(), |i: int| items[i]@)
}

/// The view of a list of named engine values.
pub open spec fn foreign_properties_view(properties: Seq<(String, ForeignValue)>) -> Seq<
    (Seq<char>, ForeignValueView),
> {
    Seq::new(properties.len(), |i: int| (properties[i].0@, properties[i].1@))
}

/// The view of a property list, entry by entry.
pub open spec fn foreign_properties_model(properties: Vec<(String, ForeignValue)>) -> Seq<
    (Seq<char>, ForeignValueView),
>
    decreases properties,
{
    Seq::new(
        properties.len() as nat,
        |i: int|
            if 0 <= i < properties.len() {
                (properties[i].0@, properties[i].1.model())
            } else {
                (Seq::empty(), ForeignValueView::Bool(false))
            },
    )
}

impl ForeignValue {
    /// The view, built along the structure.
    pub open spec fn model(self) -> ForeignValueView
        decreases self,
    {
        match self {
            ForeignValue::Null(t) => ForeignValueView::Null(t@),
            ForeignValue::Bool(x) => ForeignValueView::Bool(x),
            ForeignValue::Int64(x) => ForeignValueView::Int64(x),
            ForeignValue::Int32(x) => ForeignValueView::Int32(x),
            ForeignValue::Int16(x) => ForeignValueView::Int16(x),
            ForeignValue::Int8(x) => ForeignValueView::Int8(x),
            ForeignValue::UInt64(x) => ForeignValueView::UInt64(x),
            ForeignValue::UInt32(x) => ForeignValueView::UInt32(x),
            ForeignValue::UInt16(x) => ForeignValueView::UInt16(x),
            ForeignValue::UInt8(x) => ForeignValueView::UInt8(x),
            ForeignValue::Int128 { high, low } => ForeignValueView::Int128 { high, low },
            ForeignValue::UUID { high, low } => ForeignValueView::UUID { high, low },
            ForeignValue::Double(x) => ForeignValueView::Double(x),
            ForeignValue::Float(x) => ForeignValueView::Float(x),
            ForeignValue::Date(x) => ForeignValueView::Date(x),
            ForeignValue::Timestamp(x) => ForeignValueView::Timestamp(x),
            ForeignValue::TimestampTz(x) => ForeignValueView::TimestampTz(x),
            ForeignValue::TimestampNs(x) => ForeignValueView::TimestampNs(x),
            ForeignValue::TimestampMs(x) => ForeignValueView::TimestampMs(x),
            ForeignValue::TimestampSec(x) => ForeignValueView::TimestampSec(x),
            ForeignValue::Interval { months, days, micros } => ForeignValueView::Interval {
                months,
                days,
                micros,
            },
            ForeignValue::InternalID(x) => ForeignValueView::InternalID(x),
            ForeignValue::String(x) => ForeignValueView::String(x@),
            ForeignValue::Blob(x) => ForeignValueView::Blob(x@),
            ForeignValue::Nested { data_type, children } => ForeignValueView::Nested {
                data_type: data_type@,
                children: Seq::new(
                    children.len() as nat,
                    |i: int|
                        if 0 <= i < children.len() {
                            children[i].model()
                        } else {
                            ForeignValueView::Bool(false)
                        },
                ),
            },
            ForeignValue::Node { id, label, properties } => ForeignValueView::Node {
                id,
                label: label@,
                properties: foreign_properties_model(properties),
            },
            ForeignValue::Rel { src, dst, label, properties } => ForeignValueView::Rel {
                src,
                dst,
                label: label@,
                properties: foreign_properties_model(properties),
            },
            ForeignValue::RecursiveRel { nodes, rels } => ForeignValueView::RecursiveRel {
                nodes: Box::new((*nodes).model()),
                rels: Box::new((*rels).model()),
            },
        }
    }

    /// What `@` gives for the variants that hold lists: the views of the
    /// items, in their order.
    pub proof fn lemma_view(self)
        ensures
            self matches ForeignValue::Nested { data_type, children } ==> self@
                == (ForeignValueView::Nested {
                data_type: data_type@,
                children: foreign_values_view(children@),
            }),
            self matches ForeignValue::Node { id, label, properties } ==> self@
                == (ForeignValueView::Node {
                id,
                label: label@,
                properties: foreign_properties_view(properties@),
            }),
            self matches ForeignValue::Rel { src, dst, label, properties } ==> self@
                == (ForeignValueView::Rel {
                src,
                dst,
                label: label@,
                properties: foreign_properties_view(properties@),
            }),
    {
        match self {
            ForeignValue::Nested { data_type, children } => {
                assert(self@->Nested_children =~= foreign_values_view(children@));
            },
            ForeignValue::Node { id, label, properties } => {
                assert(foreign_properties_model(properties) =~= foreign_properties_view(
                    properties@,
                ));
            },
            ForeignValue::Rel { src, dst, label, properties } => {
                assert(foreign_properties_model(properties) =~= foreign_properties_view(
                    properties@,
                ));
            },
            _ => {},
        }
    }
}

impl View for ForeignValue {
    type V = ForeignValueView;

    open spec fn view(&self) -> ForeignValueView {
        self.model()
    }
}

impl ForeignValueView {
    /// The type that the engine reports for a value.
    pub open spec fn data_type(self) -> ForeignTypeView {
        match self {
            ForeignValueView::Null(t) => t,
            ForeignValueView::Bool(_) => plain_foreign_type(LogicalTypeID::BOOL),
            ForeignValueView::Int64(_) => plain_foreign_type(LogicalTypeID::INT64),
            ForeignValueView::Int32(_) => plain_foreign_type(LogicalTypeID::INT32),
            ForeignValueView::Int16(_) => plain_foreign_type(LogicalTypeID::INT16),
            ForeignValueView::Int8(_) => plain_foreign_type(LogicalTypeID::INT8),
            ForeignValueView::UInt64(_) => plain_foreign_type(LogicalTypeID::UINT64),
            ForeignValueView::UInt32(_) => plain_foreign_type(LogicalTypeID::UINT32),
            ForeignValueView::UInt16(_) => plain_foreign_type(LogicalTypeID::UINT16),
            ForeignValueView::UInt8(_) => plain_foreign_type(LogicalTypeID::UINT8),
            ForeignValueView::Int128 { .. } => plain_foreign_type(LogicalTypeID::INT128),
            ForeignValueView::UUID { .. } => plain_foreign_type(LogicalTypeID::UUID),
            ForeignValueView::Double(_) => plain_foreign_type(LogicalTypeID::DOUBLE),
            ForeignValueView::Float(_) => plain_foreign_type(LogicalTypeID::FLOAT),
            ForeignValueView::Date(_) => plain_foreign_type(LogicalTypeID::DATE),
            ForeignValueView::Timestamp(_) => plain_foreign_type(LogicalTypeID::TIMESTAMP),
            ForeignValueView::TimestampTz(_) => plain_foreign_type(LogicalTypeID::TIMESTAMP_TZ),
            ForeignValueView::TimestampNs(_) => plain_foreign_type(LogicalTypeID::TIMESTAMP_NS),
            ForeignValueView::TimestampMs(_) => plain_foreign_type(LogicalTypeID::TIMESTAMP_MS),
            ForeignValueView::TimestampSec(_) => plain_foreign_type(LogicalTypeID::TIMESTAMP_SEC),
            ForeignValueView::Interval { .. } => plain_foreign_type(LogicalTypeID::INTERVAL),
            ForeignValueView::InternalID(_) => plain_foreign_type(LogicalTypeID::INTERNAL_ID),
            ForeignValueView::String(_) => plain_foreign_type(LogicalTypeID::STRING),
            ForeignValueView::Blob(_) => plain_foreign_type(LogicalTypeID::BLOB),
            ForeignValueView::Nested { data_type, .. } => data_type,
            ForeignValueView::Node { .. } => plain_foreign_type(LogicalTypeID::NODE),
            ForeignValueView::Rel { .. } => plain_foreign_type(LogicalTypeID::REL),
            ForeignValueView::RecursiveRel { .. } => plain_foreign_type(
                LogicalTypeID::RECURSIVE_REL,
            ),
        }
    }
}

/// Copies a list of members.
fn clone_members(fields: &Vec<(String, ForeignType)>) -> (r: Vec<(String, ForeignType)>)
    ensures
        foreign_members_view(r@) == foreign_members_view(fields@),
    decreases fields,
{
    let mut out: Vec<(String, ForeignType)> = Vec::new();
    let mut i: usize = 0;
    while i < fields.len()
        invariant
            i <= fields.len(),
            out.len() == i,
            forall|j: int|
                0 <= j < i ==> out[j].0@ == fields[j].0@ && out[j].1@ == (#[trigger] fields[j]).1@,
        decreases fields.len() - i,
    {
        let name = fields[i].0.clone();
        let typ = clone_foreign_type(&fields[i].1);
        out.push((name, typ));
        i += 1;
    }
    assert(foreign_members_view(out@) =~= foreign_members_view(fields@));
    out
}

/// Copies an engine type.
fn clone_foreign_type(t: &ForeignType) -> (r: ForeignType)
    ensures
        r@ == t@,
    decreases t,
{
    let child_type = match &t.child_type {
        Some(child) => Some(Box::new(clone_foreign_type(child))),
        None => None,
    };
    let r = ForeignType {
        id: t.id,
        child_type,
        num_elements: t.num_elements,
        fields: clone_members(&t.fields),
    };
    proof {
        r.lemma_fields_view();
        t.lemma_fields_view();
    }
    r
}

impl Clone for ForeignType {
    fn clone(&self) -> (r: Self)
        ensures
            r@ == self@,
    {
        clone_foreign_type(self)
    }
}

/// Copies a list of engine values.
fn clone_foreign_values(items: &Vec<ForeignValue>) -> (r: Vec<ForeignValue>)
    ensures
        foreign_values_view(r@) == foreign_values_view(items@),
    decreases items,
{
    let mut out: Vec<ForeignValue> = Vec::new();
    let mut i: usize = 0;
    while i < items.len()
        invariant
            i <= items.len(),
            out.len() == i,
            forall|j: int| 0 <= j < i ==> out[j]@ == (#[trigger] items[j])@,
        decreases items.len() - i,
    {
        let value = clone_foreign_value(&items[i]);
        out.push(value);
        i += 1;
    }
    assert(foreign_values_view(out@) =~= foreign_values_view(items@));
    out
}

/// Copies a list of named engine values.
fn clone_foreign_properties(properties: &Vec<(String, ForeignValue)>) -> (r: Vec<
    (String, ForeignValue),
>)
    ensures
        foreign_properties_view(r@) == foreign_properties_view(properties@),
    decreases properties,
{
    let mut out: Vec<(String, ForeignValue)> = Vec::new();
    let mut i: usize = 0;
    while i < properties.len()
        invariant
            i <= properties.len(),
            out.len() == i,
            forall|j: int|
                0 <= j < i ==> out[j].0@ == properties[j].0@ && out[j].1@ == (
                #[trigger] properties[j]).1@,
        decreases properties.len() - i,
    {
        let name = properties[i].0.clone();
        let value = clone_foreign_value(&properties[i].1);
        out.push((name, value));
        i += 1;
    }
    assert(foreign_properties_view(out@) =~= foreign_properties_view(properties@));
    out
}

/// Copies an engine value.
fn clone_foreign_value(f: &ForeignValue) -> (r: ForeignValue)
    ensures
        r@ == f@,
    decreases f,
{
    proof {
        f.lemma_view();
    }
    let r = match f {
        ForeignValue::Null(t) => ForeignValue::Null(t.clone()),
        ForeignValue::Bool(x) => ForeignValue::Bool(*x),
        ForeignValue::Int64(x) => ForeignValue::Int64(*x),
        ForeignValue::Int32(x) => ForeignValue::Int32(*x),
        ForeignValue::Int16(x) => ForeignValue::Int16(*x),
        ForeignValue::Int8(x) => ForeignValue::Int8(*x),
        ForeignValue::UInt64(x) => ForeignValue::UInt64(*x),
        ForeignValue::UInt32(x) => ForeignValue::UInt32(*x),
        ForeignValue::UInt16(x) => ForeignValue::UInt16(*x),
        ForeignValue::UInt8(x) => ForeignValue::UInt8(*x),
        ForeignValue::Int128 { high, low } => ForeignValue::Int128 { high: *high, low: *low },
        ForeignValue::UUID { high, low } => ForeignValue::UUID { high: *high, low: *low },
        ForeignValue::Double(x) => ForeignValue::Double(*x),
        ForeignValue::Float(x) => ForeignValue::Float(*x),
        ForeignValue::Date(x) => ForeignValue::Date(*x),
        ForeignValue::Timestamp(x) => ForeignValue::Timestamp(*x),
        ForeignValue::TimestampTz(x) => ForeignValue::TimestampTz(*x),
        ForeignValue::TimestampNs(x) => ForeignValue::TimestampNs(*x),
        ForeignValue::TimestampMs(x) => ForeignValue::TimestampMs(*x),
        ForeignValue::TimestampSec(x) => ForeignValue::TimestampSec(*x),
        ForeignValue::Interval { months, days, micros } => ForeignValue::Interval {
            months: *months,
            days: *days,
            micros: *micros,
        },
        ForeignValue::InternalID(x) => ForeignValue::InternalID(*x),
        ForeignValue::String(x) => ForeignValue::String(x.clone()),
        ForeignValue::Blob(x) => ForeignValue::Blob(crate::value::clone_bytes(x)),
        ForeignValue::Nested { data_type, children } => {
            assert(decreases_to!(f => f->Nested_children));
            ForeignValue::Nested {
                data_type: data_type.clone(),
                children: clone_foreign_values(children),
            }
        },
        ForeignValue::Node { id, label, properties } => {
            assert(decreases_to!(f => f->Node_properties));
            ForeignValue::Node {
                id: *id,
                label: label.clone(),
                properties: clone_foreign_properties(properties),
            }
        },
        ForeignValue::Rel { src, dst, label, properties } => {
            assert(decreases_to!(f => f->Rel_properties));
            ForeignValue::Rel {
                src: *src,
                dst: *dst,
                label: label.clone(),
                properties: clone_foreign_properties(properties),
            }
        },
        ForeignValue::RecursiveRel { nodes, rels } => ForeignValue::RecursiveRel {
            nodes: Box::new(clone_foreign_value(nodes)),
            rels: Box::new(clone_foreign_value(rels)),
        },
    };
    proof {
        r.lemma_view();
    }
    r
}

impl Clone for ForeignValue {
    fn clone(&self) -> (r: Self)
        ensures
            r@ == self@,
    {
        clone_foreign_value(self)
    }
}

} // verus!
