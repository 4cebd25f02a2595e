//! The closed description of a value's shape, and the numbering that the
//! engine uses for it.

use vstd::prelude::*;

verus! {

/// The engine's numbering of its types.
#[allow(non_camel_case_types)]
#[derive(Debug, Clone, Copy, PartialEq, Eq, Structural)]
pub enum LogicalTypeID {
    ANY,
    NODE,
    REL,
    RECURSIVE_REL,
    SERIAL,
    BOOL,
    INT64,
    INT32,
    INT16,
    INT8,
    UINT64,
    UINT32,
    UINT16,
    UINT8,
    INT128,
    DOUBLE,
    FLOAT,
    DATE,
    TIMESTAMP,
    INTERVAL,
    ARRAY,
    INTERNAL_ID,
    TIMESTAMP_SEC,
    TIMESTAMP_MS,
    TIMESTAMP_NS,
    TIMESTAMP_TZ,
    STRING,
    BLOB,
    LIST,
    STRUCT,
    MAP,
    UNION,
    RDF_VARIANT,
    UUID,
}

impl LogicalTypeID {
    /// The number that stands for this type on the engine's side.
    pub open spec fn spec_repr(self) -> u8 {
        match self {
            LogicalTypeID::ANY => 0,
            LogicalTypeID::NODE => 10,
            LogicalTypeID::REL => 11,
            LogicalTypeID::RECURSIVE_REL => 12,
            LogicalTypeID::SERIAL => 13,
            LogicalTypeID::BOOL => 22,
            LogicalTypeID::INT64 => 23,
            LogicalTypeID::INT32 => 24,
            LogicalTypeID::INT16 => 25,
            LogicalTypeID::INT8 => 26,
            LogicalTypeID::UINT64 => 27,
            LogicalTypeID::UINT32 => 28,
            LogicalTypeID::UINT16 => 29,
            LogicalTypeID::UINT8 => 30,
            LogicalTypeID::INT128 => 31,
            LogicalTypeID::DOUBLE => 32,
            LogicalTypeID::FLOAT => 33,
            LogicalTypeID::DATE => 34,
            LogicalTypeID::TIMESTAMP => 35,
            LogicalTypeID::INTERVAL => 36,
            LogicalTypeID::ARRAY => 37,
            LogicalTypeID::INTERNAL_ID => 40,
            LogicalTypeID::TIMESTAMP_SEC => 41,
            LogicalTypeID::TIMESTAMP_MS => 42,
            LogicalTypeID::TIMESTAMP_NS => 43,
            LogicalTypeID::TIMESTAMP_TZ => 44,
            LogicalTypeID::STRING => 50,
            LogicalTypeID::BLOB => 51,
            LogicalTypeID::LIST => 52,
            LogicalTypeID::STRUCT => 53,
            LogicalTypeID::MAP => 54,
            LogicalTypeID::UNION => 55,
            LogicalTypeID::RDF_VARIANT => 56,
            LogicalTypeID::UUID => 58,
        }
    }

    /// The type that a number stands for, if it stands for one.
    pub open spec fn spec_from_repr(repr: u8) -> Option<LogicalTypeID> {
        if repr == 0 {
            Some(LogicalTypeID::ANY)
        } else if repr == 10 {
            Some(LogicalTypeID::NODE)
        } else if repr == 11 {
            Some(LogicalTypeID::REL)
        } else if repr == 12 {
            Some(LogicalTypeID::RECURSIVE_REL)
        } else if repr == 13 {
            Some(LogicalTypeID::SERIAL)
        } else if repr == 22 {
            Some(LogicalTypeID::BOOL)
        } else if repr == 23 {
            Some(LogicalTypeID::INT64)
        } else if repr == 24 {
            Some(LogicalTypeID::INT32)
        } else if repr == 25 {
            Some(LogicalTypeID::INT16)
        } else if repr == 26 {
            Some(LogicalTypeID::INT8)
        } else if repr == 27 {
            Some(LogicalTypeID::UINT64)
        } else if repr == 28 {
            Some(LogicalTypeID::UINT32)
        } else if repr == 29 {
            Some(LogicalTypeID::UINT16)
        } else if repr == 30 {
            Some(LogicalTypeID::UINT8)
        } else if repr == 31 {
            Some(LogicalTypeID::INT128)
        } else if repr == 32 {
            Some(LogicalTypeID::DOUBLE)
        } else if repr == 33 {
            Some(LogicalTypeID::FLOAT)
        } else if repr == 34 {
            Some(LogicalTypeID::DATE)
        } else if repr == 35 {
            Some(LogicalTypeID::TIMESTAMP)
        } else if repr == 36 {
            Some(LogicalTypeID::INTERVAL)
        } else if repr == 37 {
            Some(LogicalTypeID::ARRAY)
        } else if repr == 40 {
            Some(LogicalTypeID::INTERNAL_ID)
        } else if repr == 41 {
            Some(LogicalTypeID::TIMESTAMP_SEC)
        } else if repr == 42 {
            Some(LogicalTypeID::TIMESTAMP_MS)
        } else if repr == 43 {
            Some(LogicalTypeID::TIMESTAMP_NS)
        } else if repr == 44 {
            Some(LogicalTypeID::TIMESTAMP_TZ)
        } else if repr == 50 {
            Some(LogicalTypeID::STRING)
        } else if repr == 51 {
            Some(LogicalTypeID::BLOB)
        } else if repr == 52 {
            Some(LogicalTypeID::LIST)
        } else if repr == 53 {
            Some(LogicalTypeID::STRUCT)
        } else if repr == 54 {
            Some(LogicalTypeID::MAP)
        } else if repr == 55 {
            Some(LogicalTypeID::UNION)
        } else if repr == 56 {
            Some(LogicalTypeID::RDF_VARIANT)
        } else if repr == 58 {
            Some(LogicalTypeID::UUID)
        } else {
            None
        }
    }

    /// True of the five ids whose types carry child types.
    pub open spec fn is_nested(self) -> bool {
        self == LogicalTypeID::LIST || self == LogicalTypeID::ARRAY || self
            == LogicalTypeID::STRUCT || self == LogicalTypeID::MAP || self == LogicalTypeID::UNION
    }

    /// The engine's number for this id.
    pub fn repr(self) -> (r: u8)
        ensures
            r == self.spec_repr(),
            LogicalTypeID::spec_from_repr(r) == Some(self),
    {
        match self {
            LogicalTypeID::ANY => 0,
            LogicalTypeID::NODE => 10,
            LogicalTypeID::REL => 11,
            LogicalTypeID::RECURSIVE_REL => 12,
            LogicalTypeID::SERIAL => 13,
            LogicalTypeID::BOOL => 22,
            LogicalTypeID::INT64 => 23,
            LogicalTypeID::INT32 => 24,
            LogicalTypeID::INT16 => 25,
            LogicalTypeID::INT8 => 26,
            LogicalTypeID::UINT64 => 27,
            LogicalTypeID::UINT32 => 28,
            LogicalTypeID::UINT16 => 29,
            LogicalTypeID::UINT8 => 30,
            LogicalTypeID::INT128 => 31,
            LogicalTypeID::DOUBLE => 32,
            LogicalTypeID::FLOAT => 33,
            LogicalTypeID::DATE => 34,
            LogicalTypeID::TIMESTAMP => 35,
            LogicalTypeID::INTERVAL => 36,
            LogicalTypeID::ARRAY => 37,
            LogicalTypeID::INTERNAL_ID => 40,
            LogicalTypeID::TIMESTAMP_SEC => 41,
            LogicalTypeID::TIMESTAMP_MS => 42,
            LogicalTypeID::TIMESTAMP_NS => 43,
            LogicalTypeID::TIMESTAMP_TZ => 44,
            LogicalTypeID::STRING => 50,
            LogicalTypeID::BLOB => 51,
            LogicalTypeID::LIST => 52,
            LogicalTypeID::STRUCT => 53,
            LogicalTypeID::MAP => 54,
            LogicalTypeID::UNION => 55,
            LogicalTypeID::RDF_VARIANT => 56,
            LogicalTypeID::UUID => 58,
        }
    }

    /// Reads an id from the engine's number.  `None` is the answer for a
    /// number outside the enumeration; a caller that got the number from
    /// the engine has then met an engine of another version.
    pub fn from_repr(repr: u8) -> (r: Option<LogicalTypeID>)
        ensures
            r == LogicalTypeID::spec_from_repr(repr),
            r matches Some(id) ==> id.spec_repr() == repr,
    {
        if repr == 0 {
            Some(LogicalTypeID::ANY)
        } else if repr == 10 {
            Some(LogicalTypeID::NODE)
        } else if repr == 11 {
            Some(LogicalTypeID::REL)
        } else if repr == 12 {
            Some(LogicalTypeID::RECURSIVE_REL)
        } else if repr == 13 {
            Some(LogicalTypeID::SERIAL)
        } else if repr == 22 {
            Some(LogicalTypeID::BOOL)
        } else if repr == 23 {
            Some(LogicalTypeID::INT64)
        } else if repr == 24 {
            Some(LogicalTypeID::INT32)
        } else if repr == 25 {
            Some(LogicalTypeID::INT16)
        } else if repr == 26 {
            Some(LogicalTypeID::INT8)
        } else if repr == 27 {
            Some(LogicalTypeID::UINT64)
        } else if repr == 28 {
            Some(LogicalTypeID::UINT32)
        } else if repr == 29 {
            Some(LogicalTypeID::UINT16)
        } else if repr == 30 {
            Some(LogicalTypeID::UINT8)
        } else if repr == 31 {
            Some(LogicalTypeID::INT128)
        } else if repr == 32 {
            Some(LogicalTypeID::DOUBLE)
        } else if repr == 33 {
            Some(LogicalTypeID::FLOAT)
        } else if repr == 34 {
            Some(LogicalTypeID::DATE)
        } else if repr == 35 {
            Some(LogicalTypeID::TIMESTAMP)
        } else if repr == 36 {
            Some(LogicalTypeID::INTERVAL)
        } else if repr == 37 {
            Some(LogicalTypeID::ARRAY)
        } else if repr == 40 {
            Some(LogicalTypeID::INTERNAL_ID)
        } else if repr == 41 {
            Some(LogicalTypeID::TIMESTAMP_SEC)
        } else if repr == 42 {
            Some(LogicalTypeID::TIMESTAMP_MS)
        } else if repr == 43 {
            Some(LogicalTypeID::TIMESTAMP_NS)
        } else if repr == 44 {
            Some(LogicalTypeID::TIMESTAMP_TZ)
        } else if repr == 50 {
            Some(LogicalTypeID::STRING)
        } else if repr == 51 {
            Some(LogicalTypeID::BLOB)
        } else if repr == 52 {
            Some(LogicalTypeID::LIST)
        } else if repr == 53 {
            Some(LogicalTypeID::STRUCT)
        } else if repr == 54 {
            Some(LogicalTypeID::MAP)
        } else if repr == 55 {
            Some(LogicalTypeID::UNION)
        } else if repr == 56 {
            Some(LogicalTypeID::RDF_VARIANT)
        } else if repr == 58 {
            Some(LogicalTypeID::UUID)
        } else {
            None
        }
    }
}

/// Type of the [`Value`](crate::value::Value)s produced and consumed by
/// queries.  It carries what a value alone cannot: the fields of a struct,
/// the element type of an empty list.
#[derive(Debug)]
pub enum LogicalType {
    /// Special type for use with `Value::Null`.
    Any,
    Bool,
    /// Has no value of its own: the engine returns serial values as `Int64`.
    Serial,
    Int64,
    Int32,
    Int16,
    Int8,
    UInt64,
    UInt32,
    UInt16,
    UInt8,
    Int128,
    Double,
    Float,
    Date,
    Interval,
    Timestamp,
    TimestampTz,
    TimestampNs,
    TimestampMs,
    TimestampSec,
    InternalID,
    String,
    Blob,
    List { child_type: Box<LogicalType> },
    Array { child_type: Box<LogicalType>, num_elements: u64 },
    Struct { fields: Vec<(String, LogicalType)> },
    Node,
    Rel,
    RecursiveRel,
    MapOf { key_type: Box<LogicalType>, value_type: Box<LogicalType> },
    Union { types: Vec<(String, LogicalType)> },
    UUID,
    RDFVariant,
}

/// The mathematical value of a [`LogicalType`]: names are sequences of
/// characters, field lists are sequences, in their order.
pub ghost enum LogicalTypeView {
    Any,
    Bool,
    Serial,
    Int64,
    Int32,
    Int16,
    Int8,
    UInt64,
    UInt32,
    UInt16,
    UInt8,
    Int128,
    Double,
    Float,
    Date,
    Interval,
    Timestamp,
    TimestampTz,
    TimestampNs,
    TimestampMs,
    TimestampSec,
    InternalID,
    String,
    Blob,
    List { child_type: Box<LogicalTypeView> },
    Array { child_type: Box<LogicalTypeView>, num_elements: u64 },
    Struct { fields: Seq<(Seq<char>, LogicalTypeView)> },
    Node,
    Rel,
    RecursiveRel,
    MapOf { key_type: Box<LogicalTypeView>, value_type: Box<LogicalTypeView> },
    Union { types: Seq<(Seq<char>, LogicalTypeView)> },
    UUID,
    RDFVariant,
}

/// The view of a list of named types.
pub open spec fn named_types_view(fields: Seq<(String, LogicalType)>) -> Seq<
    (Seq<char>, LogicalTypeView),
> {
    Seq::new(fields.len(), |i: int| (fields[i].0@, fields[i].1@))
}

impl LogicalType {
    /// The view, built along the structure.
    pub open spec fn model(self) -> LogicalTypeView
        decreases self,
    {
        match self {
            LogicalType::Any => LogicalTypeView::Any,
            LogicalType::Bool => LogicalTypeView::Bool,
            LogicalType::Serial => LogicalTypeView::Serial,
            LogicalType::Int64 => LogicalTypeView::Int64,
            LogicalType::Int32 => LogicalTypeView::Int32,
            LogicalType::Int16 => LogicalTypeView::Int16,
            LogicalType::Int8 => LogicalTypeView::Int8,
            LogicalType::UInt64 => LogicalTypeView::UInt64,
            LogicalType::UInt32 => LogicalTypeView::UInt32,
            LogicalType::UInt16 => LogicalTypeView::UInt16,
            LogicalType::UInt8 => LogicalTypeView::UInt8,
            LogicalType::Int128 => LogicalTypeView::Int128,
            LogicalType::Double => LogicalTypeView::Double,
            LogicalType::Float => LogicalTypeView::Float,
            LogicalType::Date => LogicalTypeView::Date,
            LogicalType::Interval => LogicalTypeView::Interval,
            LogicalType::Timestamp => LogicalTypeView::Timestamp,
            LogicalType::TimestampTz => LogicalTypeView::TimestampTz,
            LogicalType::TimestampNs => LogicalTypeView::TimestampNs,
            LogicalType::TimestampMs => LogicalTypeView::TimestampMs,
            LogicalType::TimestampSec => LogicalTypeView::TimestampSec,
            LogicalType::InternalID => LogicalTypeView::InternalID,
            LogicalType::String => LogicalTypeView::String,
            LogicalType::Blob => LogicalTypeView::Blob,
            LogicalType::List { child_type } => LogicalTypeView::List {
                child_type: Box::new((*child_type).model()),
            },
            LogicalType::Array { child_type, num_elements } => LogicalTypeView::Array {
                child_type: Box::new((*child_type).model()),
                num_elements,
            },
            LogicalType::Struct { fields } => LogicalTypeView::Struct {
                fields: Seq::new(
                    fields.len() as nat,
                    |i: int|
                        if 0 <= i < fields.len() {
                            (fields[i].0@, fields[i].1.model())
                        } else {
                            (Seq::empty(), LogicalTypeView::Any)
                        },
                ),
            },
            LogicalType::Node => LogicalTypeView::Node,
            LogicalType::Rel => LogicalTypeView::Rel,
            LogicalType::RecursiveRel => LogicalTypeView::RecursiveRel,
            LogicalType::MapOf { key_type, value_type } => LogicalTypeView::MapOf {
                key_type: Box::new((*key_type).model()),
                value_type: Box::new((*value_type).model()),
            },
            LogicalType::Union { types } => LogicalTypeView::Union {
                types: Seq::new(
                    types.len() as nat,
                    |i: int|
                        if 0 <= i < types.len() {
                            (types[i].0@, types[i].1.model())
                        } else {
                            (Seq::empty(), LogicalTypeView::Any)
                        },
                ),
            },
            LogicalType::UUID => LogicalTypeView::UUID,
            LogicalType::RDFVariant => LogicalTypeView::RDFVariant,
        }
    }

    /// The fields of a struct type, seen through `@`, are the views of its
    /// fields.
    pub proof fn lemma_struct_view(self)
        requires
            self is Struct,
        ensures
            self@ == (LogicalTypeView::Struct {
                fields: named_types_view(self->Struct_fields@),
            }),
    {
        assert(self@->Struct_fields =~= named_types_view(self->Struct_fields@));
    }

    /// The alternatives of a union type, seen through `@`, are the views of
    /// its alternatives.
    pub proof fn lemma_union_view(self)
        requires
            self is Union,
        ensures
            self@ == (LogicalTypeView::Union { types: named_types_view(self->Union_types@) }),
    {
        assert(self@->Union_types =~= named_types_view(self->Union_types@));
    }
}

impl View for LogicalType {
    type V = LogicalTypeView;

    open spec fn view(&self) -> LogicalTypeView {
        self.model()
    }
}

impl LogicalTypeView {
    /// The id of a type.
    pub open spec fn id(self) -> LogicalTypeID {
        match self {
            LogicalTypeView::Any => LogicalTypeID::ANY,
            LogicalTypeView::Bool => LogicalTypeID::BOOL,
            LogicalTypeView::Serial => LogicalTypeID::SERIAL,
            LogicalTypeView::Int64 => LogicalTypeID::INT64,
            LogicalTypeView::Int32 => LogicalTypeID::INT32,
            LogicalTypeView::Int16 => LogicalTypeID::INT16,
            LogicalTypeView::Int8 => LogicalTypeID::INT8,
            LogicalTypeView::UInt64 => LogicalTypeID::UINT64,
            LogicalTypeView::UInt32 => LogicalTypeID::UINT32,
            LogicalTypeView::UInt16 => LogicalTypeID::UINT16,
            LogicalTypeView::UInt8 => LogicalTypeID::UINT8,
            LogicalTypeView::Int128 => LogicalTypeID::INT128,
            LogicalTypeView::Double => LogicalTypeID::DOUBLE,
            LogicalTypeView::Float => LogicalTypeID::FLOAT,
            LogicalTypeView::Date => LogicalTypeID::DATE,
            LogicalTypeView::Interval => LogicalTypeID::INTERVAL,
            LogicalTypeView::Timestamp => LogicalTypeID::TIMESTAMP,
            LogicalTypeView::TimestampTz => LogicalTypeID::TIMESTAMP_TZ,
            LogicalTypeView::TimestampNs => LogicalTypeID::TIMESTAMP_NS,
            LogicalTypeView::TimestampMs => LogicalTypeID::TIMESTAMP_MS,
            LogicalTypeView::TimestampSec => LogicalTypeID::TIMESTAMP_SEC,
            LogicalTypeView::InternalID => LogicalTypeID::INTERNAL_ID,
            LogicalTypeView::String => LogicalTypeID::STRING,
            LogicalTypeView::Blob => LogicalTypeID::BLOB,
            LogicalTypeView::List { .. } => LogicalTypeID::LIST,
            LogicalTypeView::Array { .. } => LogicalTypeID::ARRAY,
            LogicalTypeView::Struct { .. } => LogicalTypeID::STRUCT,
            LogicalTypeView::Node => LogicalTypeID::NODE,
            LogicalTypeView::Rel => LogicalTypeID::REL,
            LogicalTypeView::RecursiveRel => LogicalTypeID::RECURSIVE_REL,
            LogicalTypeView::MapOf { .. } => LogicalTypeID::MAP,
            LogicalTypeView::Union { .. } => LogicalTypeID::UNION,
            LogicalTypeView::UUID => LogicalTypeID::UUID,
            LogicalTypeView::RDFVariant => LogicalTypeID::RDF_VARIANT,
        }
    }

    /// The type without children that an id names; `Any` for the five ids
    /// whose types have children.
    pub open spec fn simple(id: LogicalTypeID) -> LogicalTypeView {
        match id {
            LogicalTypeID::ANY => LogicalTypeView::Any,
            LogicalTypeID::BOOL => LogicalTypeView::Bool,
            LogicalTypeID::SERIAL => LogicalTypeView::Serial,
            LogicalTypeID::INT64 => LogicalTypeView::Int64,
            LogicalTypeID::INT32 => LogicalTypeView::Int32,
            LogicalTypeID::INT16 => LogicalTypeView::Int16,
            LogicalTypeID::INT8 => LogicalTypeView::Int8,
            LogicalTypeID::UINT64 => LogicalTypeView::UInt64,
            LogicalTypeID::UINT32 => LogicalTypeView::UInt32,
            LogicalTypeID::UINT16 => LogicalTypeView::UInt16,
            LogicalTypeID::UINT8 => LogicalTypeView::UInt8,
            LogicalTypeID::INT128 => LogicalTypeView::Int128,
            LogicalTypeID::DOUBLE => LogicalTypeView::Double,
            LogicalTypeID::FLOAT => LogicalTypeView::Float,
            LogicalTypeID::DATE => LogicalTypeView::Date,
            LogicalTypeID::INTERVAL => LogicalTypeView::Interval,
            LogicalTypeID::TIMESTAMP => LogicalTypeView::Timestamp,
            LogicalTypeID::TIMESTAMP_TZ => LogicalTypeView::TimestampTz,
            LogicalTypeID::TIMESTAMP_NS => LogicalTypeView::TimestampNs,
            LogicalTypeID::TIMESTAMP_MS => LogicalTypeView::TimestampMs,
            LogicalTypeID::TIMESTAMP_SEC => LogicalTypeView::TimestampSec,
            LogicalTypeID::INTERNAL_ID => LogicalTypeView::InternalID,
            LogicalTypeID::STRING => LogicalTypeView::String,
            LogicalTypeID::BLOB => LogicalTypeView::Blob,
            LogicalTypeID::NODE => LogicalTypeView::Node,
            LogicalTypeID::REL => LogicalTypeView::Rel,
            LogicalTypeID::RECURSIVE_REL => LogicalTypeView::RecursiveRel,
            LogicalTypeID::UUID => LogicalTypeView::UUID,
            LogicalTypeID::RDF_VARIANT => LogicalTypeView::RDFVariant,
            LogicalTypeID::LIST => LogicalTypeView::Any,
            LogicalTypeID::ARRAY => LogicalTypeView::Any,
            LogicalTypeID::STRUCT => LogicalTypeView::Any,
            LogicalTypeID::MAP => LogicalTypeView::Any,
            LogicalTypeID::UNION => LogicalTypeView::Any,
        }
    }
}

impl LogicalType {
    /// The engine's id for this type.
    pub fn id(&self) -> (r: LogicalTypeID)
        ensures
            r == self@.id(),
    {
        match self {
            LogicalType::Any => LogicalTypeID::ANY,
            LogicalType::Bool => LogicalTypeID::BOOL,
            LogicalType::Serial => LogicalTypeID::SERIAL,
            LogicalType::Int8 => LogicalTypeID::INT8,
            LogicalType::Int16 => LogicalTypeID::INT16,
            LogicalType::Int32 => LogicalTypeID::INT32,
            LogicalType::Int64 => LogicalTypeID::INT64,
            LogicalType::UInt8 => LogicalTypeID::UINT8,
            LogicalType::UInt16 => LogicalTypeID::UINT16,
            LogicalType::UInt32 => LogicalTypeID::UINT32,
            LogicalType::UInt64 => LogicalTypeID::UINT64,
            LogicalType::Int128 => LogicalTypeID::INT128,
            LogicalType::Float => LogicalTypeID::FLOAT,
            LogicalType::Double => LogicalTypeID::DOUBLE,
            LogicalType::String => LogicalTypeID::STRING,
            LogicalType::Blob => LogicalTypeID::BLOB,
            LogicalType::Interval => LogicalTypeID::INTERVAL,
            LogicalType::Date => LogicalTypeID::DATE,
            LogicalType::Timestamp => LogicalTypeID::TIMESTAMP,
            LogicalType::TimestampTz => LogicalTypeID::TIMESTAMP_TZ,
            LogicalType::TimestampNs => LogicalTypeID::TIMESTAMP_NS,
            LogicalType::TimestampMs => LogicalTypeID::TIMESTAMP_MS,
            LogicalType::TimestampSec => LogicalTypeID::TIMESTAMP_SEC,
            LogicalType::InternalID => LogicalTypeID::INTERNAL_ID,
            LogicalType::List { .. } => LogicalTypeID::LIST,
            LogicalType::Array { .. } => LogicalTypeID::ARRAY,
            LogicalType::Struct { .. } => LogicalTypeID::STRUCT,
            LogicalType::Node => LogicalTypeID::NODE,
            LogicalType::Rel => LogicalTypeID::REL,
            LogicalType::RecursiveRel => LogicalTypeID::RECURSIVE_REL,
            LogicalType::MapOf { .. } => LogicalTypeID::MAP,
            LogicalType::Union { .. } => LogicalTypeID::UNION,
            LogicalType::UUID => LogicalTypeID::UUID,
            LogicalType::RDFVariant => LogicalTypeID::RDF_VARIANT,
        }
    }

    /// The type without children that an id names.
    pub fn simple(id: LogicalTypeID) -> (r: LogicalType)
        ensures
            r@ == LogicalTypeView::simple(id),
    {
        match id {
            LogicalTypeID::ANY => LogicalType::Any,
            LogicalTypeID::BOOL => LogicalType::Bool,
            LogicalTypeID::SERIAL => LogicalType::Serial,
            LogicalTypeID::INT64 => LogicalType::Int64,
            LogicalTypeID::INT32 => LogicalType::Int32,
            LogicalTypeID::INT16 => LogicalType::Int16,
            LogicalTypeID::INT8 => LogicalType::Int8,
            LogicalTypeID::UINT64 => LogicalType::UInt64,
            LogicalTypeID::UINT32 => LogicalType::UInt32,
            LogicalTypeID::UINT16 => LogicalType::UInt16,
            LogicalTypeID::UINT8 => LogicalType::UInt8,
            LogicalTypeID::INT128 => LogicalType::Int128,
            LogicalTypeID::DOUBLE => LogicalType::Double,
            LogicalTypeID::FLOAT => LogicalType::Float,
            LogicalTypeID::DATE => LogicalType::Date,
            LogicalTypeID::INTERVAL => LogicalType::Interval,
            LogicalTypeID::TIMESTAMP => LogicalType::Timestamp,
            LogicalTypeID::TIMESTAMP_TZ => LogicalType::TimestampTz,
            LogicalTypeID::TIMESTAMP_NS => LogicalType::TimestampNs,
            LogicalTypeID::TIMESTAMP_MS => LogicalType::TimestampMs,
            LogicalTypeID::TIMESTAMP_SEC => LogicalType::TimestampSec,
            LogicalTypeID::INTERNAL_ID => LogicalType::InternalID,
            LogicalTypeID::STRING => LogicalType::String,
            LogicalTypeID::BLOB => LogicalType::Blob,
            LogicalTypeID::NODE => LogicalType::Node,
            LogicalTypeID::REL => LogicalType::Rel,
            LogicalTypeID::RECURSIVE_REL => LogicalType::RecursiveRel,
            LogicalTypeID::UUID => LogicalType::UUID,
            LogicalTypeID::RDF_VARIANT => LogicalType::RDFVariant,
            LogicalTypeID::LIST => LogicalType::Any,
            LogicalTypeID::ARRAY => LogicalType::Any,
            LogicalTypeID::STRUCT => LogicalType::Any,
            LogicalTypeID::MAP => LogicalType::Any,
            LogicalTypeID::UNION => LogicalType::Any,
        }
    }
}

} // verus!

verus! {

/// Copies a list of named types.
fn clone_named_types(fields: &Vec<(String, LogicalType)>) -> (r: Vec<(String, LogicalType)>)
    ensures
        named_types_view(r@) == named_types_view(fields@),
    decreases fields,
{
    let mut out: Vec<(String, LogicalType)> = Vec::new();
    let mut i: usize = 0;
    while i < fields.len()
        invariant
            i <= fields.len(),
            out.len() == i,
            forall|j: int|
                0 <= j < i ==> out[j].0@ == fields[j].0@ && out[j].1@ == (#[trigger] fields[j]).1@,
        decreases fields.len() - i,
    {
        let name = fields[i].0.clone();
        let typ = clone_type(&fields[i].1);
        out.push((name, typ));
        i += 1;
    }
    assert(named_types_view(out@) =~= named_types_view(fields@));
    out
}

/// Copies a type.
fn clone_type(t: &LogicalType) -> (r: LogicalType)
    ensures
        r@ == t@,
    decreases t,
{
    match t {
        LogicalType::List { child_type } => LogicalType::List {
            child_type: Box::new(clone_type(child_type)),
        },
        LogicalType::Array { child_type, num_elements } => LogicalType::Array {
            child_type: Box::new(clone_type(child_type)),
            num_elements: *num_elements,
        },
        LogicalType::Struct { fields } => {
            assert(decreases_to!(t => t->Struct_fields));
            let r = LogicalType::Struct { fields: clone_named_types(fields) };
            proof {
                r.lemma_struct_view();
                t.lemma_struct_view();
            }
            r
        },
        LogicalType::MapOf { key_type, value_type } => LogicalType::MapOf {
            key_type: Box::new(clone_type(key_type)),
            value_type: Box::new(clone_type(value_type)),
        },
        LogicalType::Union { types } => {
            assert(decreases_to!(t => t->Union_types));
            let r = LogicalType::Union { types: clone_named_types(types) };
            proof {
                r.lemma_union_view();
                t.lemma_union_view();
            }
            r
        },
        _ => {
            let r = LogicalType::simple(t.id());
            r
        },
    }
}

impl Clone for LogicalType {
    fn clone(&self) -> (r: Self)
        ensures
            r@ == self@,
    {
        clone_type(self)
    }
}

} // verus!

verus! {

/// The name of a type's kind.
pub open spec fn kind_name(t: LogicalTypeView) -> Seq<char> {
    match t {
        LogicalTypeView::Any => "Any"@,
        LogicalTypeView::Bool => "Bool"@,
        LogicalTypeView::Serial => "Serial"@,
        LogicalTypeView::Int64 => "Int64"@,
        LogicalTypeView::Int32 => "Int32"@,
        LogicalTypeView::Int16 => "Int16"@,
        LogicalTypeView::Int8 => "Int8"@,
        LogicalTypeView::UInt64 => "UInt64"@,
        LogicalTypeView::UInt32 => "UInt32"@,
        LogicalTypeView::UInt16 => "UInt16"@,
        LogicalTypeView::UInt8 => "UInt8"@,
        LogicalTypeView::Int128 => "Int128"@,
        LogicalTypeView::Double => "Double"@,
        LogicalTypeView::Float => "Float"@,
        LogicalTypeView::Date => "Date"@,
        LogicalTypeView::Interval => "Interval"@,
        LogicalTypeView::Timestamp => "Timestamp"@,
        LogicalTypeView::TimestampTz => "TimestampTz"@,
        LogicalTypeView::TimestampNs => "TimestampNs"@,
        LogicalTypeView::TimestampMs => "TimestampMs"@,
        LogicalTypeView::TimestampSec => "TimestampSec"@,
        LogicalTypeView::InternalID => "InternalID"@,
        LogicalTypeView::String => "String"@,
        LogicalTypeView::Blob => "Blob"@,
        LogicalTypeView::List { .. } => "List"@,
        LogicalTypeView::Array { .. } => "Array"@,
        LogicalTypeView::Struct { .. } => "Struct"@,
        LogicalTypeView::Node => "Node"@,
        LogicalTypeView::Rel => "Rel"@,
        LogicalTypeView::RecursiveRel => "RecursiveRel"@,
        LogicalTypeView::MapOf { .. } => "Map"@,
        LogicalTypeView::Union { .. } => "Union"@,
        LogicalTypeView::UUID => "UUID"@,
        LogicalTypeView::RDFVariant => "RDFVariant"@,
    }
}

impl LogicalType {
    /// The name of this type's kind.
    pub fn name(&self) -> (r: &'static str)
        ensures
            r@ == kind_name(self@),
    {
        match self {
            LogicalType::Any => "Any",
            LogicalType::Bool => "Bool",
            LogicalType::Serial => "Serial",
            LogicalType::Int64 => "Int64",
            LogicalType::Int32 => "Int32",
            LogicalType::Int16 => "Int16",
            LogicalType::Int8 => "Int8",
            LogicalType::UInt64 => "UInt64",
            LogicalType::UInt32 => "UInt32",
            LogicalType::UInt16 => "UInt16",
            LogicalType::UInt8 => "UInt8",
            LogicalType::Int128 => "Int128",
            LogicalType::Double => "Double",
            LogicalType::Float => "Float",
            LogicalType::Date => "Date",
            LogicalType::Interval => "Interval",
            LogicalType::Timestamp => "Timestamp",
            LogicalType::TimestampTz => "TimestampTz",
            LogicalType::TimestampNs => "TimestampNs",
            LogicalType::TimestampMs => "TimestampMs",
            LogicalType::TimestampSec => "TimestampSec",
            LogicalType::InternalID => "InternalID",
            LogicalType::String => "String",
            LogicalType::Blob => "Blob",
            LogicalType::List { .. } => "List",
            LogicalType::Array { .. } => "Array",
            LogicalType::Struct { .. } => "Struct",
            LogicalType::Node => "Node",
            LogicalType::Rel => "Rel",
            LogicalType::RecursiveRel => "RecursiveRel",
            LogicalType::MapOf { .. } => "Map",
            LogicalType::Union { .. } => "Union",
            LogicalType::UUID => "UUID",
            LogicalType::RDFVariant => "RDFVariant",
        }
    }
}

} // verus!
