//! From a value to the engine's value.

use vstd::prelude::*;
use crate::bytes::ByteOrder;
use crate::codec::{
    encode_entries_prefix, encode_fields_prefix, encode_prefix, encode_value, entry_type,
    foreign_value_well_formed, is_plain_value, nested, Encoded, EncodedList,
};
use crate::error::Error;
use crate::foreign::{foreign_values_view, ForeignType, ForeignValue, ForeignValueView};
use crate::logical_type::{LogicalType, LogicalTypeID, LogicalTypeView};
use crate::text::owned;
use crate::value::{
    clone_bytes, named_values_view, type_of, value_pairs_view, values_view, Value, ValueView,
};
use crate::wide_int::{split_int128, uuid_to_int128};

verus! {

/// Once a value of a list has failed, the list fails with it however many
/// more values are taken.
pub proof fn lemma_encode_prefix_fails(
    items: Seq<ValueView>,
    k: nat,
    n: nat,
    order: ByteOrder,
)
    requires
        encode_prefix(items, k, order) is Err,
        k <= n <= items.len(),
    ensures
        encode_prefix(items, n, order) == encode_prefix(items, k, order),
    decreases n,
{
    if n > k {
        lemma_encode_prefix_fails(items, k, (n - 1) as nat, order);
    }
}

/// Once a field of a struct has failed, the struct fails with it however
/// many more fields are taken.
pub proof fn lemma_encode_fields_prefix_fails(
    fields: Seq<(Seq<char>, ValueView)>,
    k: nat,
    n: nat,
    order: ByteOrder,
)
    requires
        encode_fields_prefix(fields, k, order) is Err,
        k <= n <= fields.len(),
    ensures
        encode_fields_prefix(fields, n, order) == encode_fields_prefix(fields, k, order),
    decreases n,
{
    if n > k {
        lemma_encode_fields_prefix_fails(fields, k, (n - 1) as nat, order);
    }
}

/// Once an entry of a map has failed, the map fails with it however many
/// more entries are taken.
pub proof fn lemma_encode_entries_prefix_fails(
    entries: Seq<(ValueView, ValueView)>,
    k: nat,
    n: nat,
    pair_type: LogicalTypeView,
    order: ByteOrder,
)
    requires
        encode_entries_prefix(entries, k, pair_type, order) is Err,
        k <= n <= entries.len(),
    ensures
        encode_entries_prefix(entries, n, pair_type, order) == encode_entries_prefix(
            entries,
            k,
            pair_type,
            order,
        ),
    decreases n,
{
    if n > k {
        lemma_encode_entries_prefix_fails(entries, k, (n - 1) as nat, pair_type, order);
    }
}

/// The first `n` fields of a struct, where they are encoded, are encoded
/// as `n` engine values.
pub proof fn lemma_encode_fields_prefix_len(
    fields: Seq<(Seq<char>, ValueView)>,
    n: nat,
    order: ByteOrder,
)
    requires
        n <= fields.len(),
    ensures
        encode_fields_prefix(fields, n, order) matches Ok(children) ==> children.len() == n,
    decreases n,
{
    if n > 0 {
        lemma_encode_fields_prefix_len(fields, (n - 1) as nat, order);
    }
}

/// What an executable encoding says of its result: the engine value that
/// `want` holds, or the error `ReadOnlyType` with the type that `want`
/// holds.
pub open spec fn encoded_as(r: Result<ForeignValue, Error>, want: Encoded) -> bool {
    match r {
        Ok(f) => want == Ok::<ForeignValueView, LogicalTypeView>(f@),
        Err(e) => e matches Error::ReadOnlyType(t) && want == Err::<
            ForeignValueView,
            LogicalTypeView,
        >(t@),
    }
}

/// The same for a list of engine values.
pub open spec fn encoded_list_as(r: Result<Vec<ForeignValue>, Error>, want: EncodedList) -> bool {
    match r {
        Ok(fs) => want == Ok::<Seq<ForeignValueView>, LogicalTypeView>(foreign_values_view(fs@)),
        Err(e) => e matches Error::ReadOnlyType(t) && want == Err::<
            Seq<ForeignValueView>,
            LogicalTypeView,
        >(t@),
    }
}

/// Encodes the values of a list, in their order.
fn encode_items(items: &Vec<Value>, order: ByteOrder) -> (r: Result<Vec<ForeignValue>, Error>)
    ensures
        encoded_list_as(r, encode_prefix(values_view(items@), items.len() as nat, order)),
    decreases items, 0nat,
{
    let ghost views = values_view(items@);
    let mut out: Vec<ForeignValue> = Vec::new();
    let mut i: usize = 0;
    assert(foreign_values_view(out@) =~= Seq::empty());
    while i < items.len()
        invariant
            i <= items.len(),
            views == values_view(items@),
            encode_prefix(views, i as nat, order) == Ok::<Seq<ForeignValueView>, LogicalTypeView>(
                foreign_values_view(out@),
            ),
        decreases items.len() - i,
    {
        match items[i].to_foreign(order) {
            Err(e) => {
                proof {
                    lemma_encode_prefix_fails(views, (i + 1) as nat, items.len() as nat, order);
                }
                return Err(e);
            },
            Ok(f) => {
                let ghost before = foreign_values_view(out@);
                out.push(f);
                assert(foreign_values_view(out@) =~= before.push(f@));
            },
        }
        i += 1;
    }
    Ok(out)
}

/// Encodes the values of the fields of a struct, in their order.
pub(crate) fn encode_fields(fields: &Vec<(String, Value)>, order: ByteOrder) -> (r: Result<
    Vec<ForeignValue>,
    Error,
>)
    ensures
        encoded_list_as(
            r,
            encode_fields_prefix(named_values_view(fields@), fields.len() as nat, order),
        ),
    decreases fields, 0nat,
{
    let ghost views = named_values_view(fields@);
    let mut out: Vec<ForeignValue> = Vec::new();
    let mut i: usize = 0;
    assert(foreign_values_view(out@) =~= Seq::empty());
    while i < fields.len()
        invariant
            i <= fields.len(),
            views == named_values_view(fields@),
            encode_fields_prefix(views, i as nat, order) == Ok::<
                Seq<ForeignValueView>,
                LogicalTypeView,
            >(foreign_values_view(out@)),
        decreases fields.len() - i,
    {
        match fields[i].1.to_foreign(order) {
            Err(e) => {
                proof {
                    lemma_encode_fields_prefix_fails(
                        views,
                        (i + 1) as nat,
                        fields.len() as nat,
                        order,
                    );
                }
                return Err(e);
            },
            Ok(f) => {
                let ghost before = foreign_values_view(out@);
                out.push(f);
                assert(foreign_values_view(out@) =~= before.push(f@));
            },
        }
        i += 1;
    }
    Ok(out)
}

/// Encodes the entries of a map, each as a struct of its key and its
/// value.
fn encode_entries(
    entries: &Vec<(Value, Value)>,
    key_type: &LogicalType,
    value_type: &LogicalType,
    order: ByteOrder,
) -> (r: Result<Vec<ForeignValue>, Error>)
    ensures
        encoded_list_as(
            r,
            encode_entries_prefix(
                value_pairs_view(entries@),
                entries.len() as nat,
                entry_type(key_type@, value_type@),
                order,
            ),
        ),
    decreases entries, 0nat,
{
    let ghost views = value_pairs_view(entries@);
    let ghost pair_type = entry_type(key_type@, value_type@);
    let mut fields: Vec<(String, LogicalType)> = Vec::new();
    fields.push((owned("KEY"), key_type.clone()));
    fields.push((owned("VALUE"), value_type.clone()));
    let list_type = LogicalType::Struct { fields };
    proof {
        list_type.lemma_struct_view();
        assert(list_type@->Struct_fields =~= seq![("KEY"@, key_type@), ("VALUE"@, value_type@)]);
    }
    let entry_foreign_type = list_type.to_foreign();
    let mut out: Vec<ForeignValue> = Vec::new();
    let mut i: usize = 0;
    assert(foreign_values_view(out@) =~= Seq::empty());
    while i < entries.len()
        invariant
            i <= entries.len(),
            views == value_pairs_view(entries@),
            pair_type == entry_type(key_type@, value_type@),
            entry_foreign_type@ == crate::type_codec::type_to_foreign(pair_type),
            encode_entries_prefix(views, i as nat, pair_type, order) == Ok::<
                Seq<ForeignValueView>,
                LogicalTypeView,
            >(foreign_values_view(out@)),
        decreases entries.len() - i,
    {
        let key = match entries[i].0.to_foreign(order) {
            Err(e) => {
                proof {
                    lemma_encode_entries_prefix_fails(
                        views,
                        (i + 1) as nat,
                        entries.len() as nat,
                        pair_type,
                        order,
                    );
                }
                return Err(e);
            },
            Ok(f) => f,
        };
        let value = match entries[i].1.to_foreign(order) {
            Err(e) => {
                proof {
                    lemma_encode_entries_prefix_fails(
                        views,
                        (i + 1) as nat,
                        entries.len() as nat,
                        pair_type,
                        order,
                    );
                }
                return Err(e);
            },
            Ok(f) => f,
        };
        let mut pair: Vec<ForeignValue> = Vec::new();
        let ghost key_view = key@;
        let ghost value_view = value@;
        pair.push(key);
        pair.push(value);
        let entry = ForeignValue::Nested { data_type: entry_foreign_type.clone(), children: pair };
        proof {
            entry.lemma_view();
            assert(foreign_values_view(pair@) =~= seq![key_view, value_view]);
        }
        let ghost before = foreign_values_view(out@);
        out.push(entry);
        assert(foreign_values_view(out@) =~= before.push(entry@));
        i += 1;
    }
    Ok(out)
}

impl Value {
    /// Encodes a null or a scalar.
    fn encode_plain(&self, order: ByteOrder) -> (r: ForeignValue)
        requires
            is_plain_value(self@),
        ensures
            encode_value(self@, order) == Ok::<ForeignValueView, LogicalTypeView>(r@),
    {
        match self {
            Value::Null(typ) => ForeignValue::Null(typ.to_foreign()),
            Value::Bool(value) => ForeignValue::Bool(*value),
            Value::Int8(value) => ForeignValue::Int8(*value),
            Value::Int16(value) => ForeignValue::Int16(*value),
            Value::Int32(value) => ForeignValue::Int32(*value),
            Value::Int64(value) => ForeignValue::Int64(*value),
            Value::UInt8(value) => ForeignValue::UInt8(*value),
            Value::UInt16(value) => ForeignValue::UInt16(*value),
            Value::UInt32(value) => ForeignValue::UInt32(*value),
            Value::UInt64(value) => ForeignValue::UInt64(*value),
            Value::Int128(value) => {
                let (high, low) = split_int128(*value);
                ForeignValue::Int128 { high, low }
            },
            Value::UUID(value) => {
                let (high, low) = split_int128(uuid_to_int128(*value));
                ForeignValue::UUID { high, low }
            },
            Value::Float(value) => ForeignValue::Float(*value),
            Value::Double(value) => ForeignValue::Double(*value),
            Value::String(value) => ForeignValue::String(value.clone()),
            Value::Blob(value) => ForeignValue::Blob(clone_bytes(value)),
            Value::Timestamp(value) => ForeignValue::Timestamp((value.unix_nanos() / 1000) as i64),
            Value::TimestampTz(value) => ForeignValue::TimestampTz(
                (value.unix_nanos() / 1000) as i64,
            ),
            Value::TimestampNs(value) => ForeignValue::TimestampNs(
                #[verifier::truncate]
                (value.unix_nanos() as i64),
            ),
            Value::TimestampMs(value) => ForeignValue::TimestampMs(
                (value.unix_nanos() / 1_000_000) as i64,
            ),
            Value::TimestampSec(value) => ForeignValue::TimestampSec(
                (value.unix_nanos() / 1_000_000_000) as i64,
            ),
            Value::Date(value) => ForeignValue::Date(value.unix_days()),
            Value::Interval(value) => {
                let (months, days, micros) = value.to_interval();
                ForeignValue::Interval { months, days, micros }
            },
            Value::InternalID(value) => ForeignValue::InternalID(*value),
            _ => unreached(),
        }
    }

    /// Wraps encoded children in the type of this value.
    fn wrap_children(&self, children: Vec<ForeignValue>) -> (r: ForeignValue)
        ensures
            r@ == nested(type_of(self@), foreign_values_view(children@)),
    {
        let r = ForeignValue::Nested { data_type: self.logical_type().to_foreign(), children };
        proof {
            r.lemma_view();
        }
        r
    }

    /// Encodes the children of a list, an array, a struct, a map or a
    /// union.
    fn encode_children(&self, order: ByteOrder) -> (r: Result<Vec<ForeignValue>, Error>)
        requires
            self is List || self is Array || self is Struct || self is MapOf || self is Union,
        ensures
            match r {
                Ok(children) => encode_value(self@, order) == Ok::<
                    ForeignValueView,
                    LogicalTypeView,
                >(nested(type_of(self@), foreign_values_view(children@))),
                Err(e) => e matches Error::ReadOnlyType(t) && encode_value(self@, order) == Err::<
                    ForeignValueView,
                    LogicalTypeView,
                >(t@),
            },
        decreases self, 0nat,
    {
        proof {
            self.lemma_view();
        }
        match self {
            Value::List(_, value) => {
                assert(decreases_to!(self => self->List_1));
                encode_items(value, order)
            },
            Value::Array(_, value) => {
                assert(decreases_to!(self => self->Array_1));
                encode_items(value, order)
            },
            Value::Struct(value) => {
                assert(decreases_to!(self => self->Struct_0));
                encode_fields(value, order)
            },
            Value::MapOf(types, values) => {
                assert(decreases_to!(self => self->MapOf_1));
                encode_entries(values, &types.0, &types.1, order)
            },
            Value::Union { types: _, value } => {
                let child = match value.to_foreign(order) {
                    Err(e) => {
                        return Err(e);
                    },
                    Ok(child) => child,
                };
                let ghost child_view = child@;
                let mut children: Vec<ForeignValue> = Vec::new();
                children.push(child);
                assert(foreign_values_view(children@) =~= seq![child_view]);
                Ok(children)
            },
            _ => unreached(),
        }
    }

    /// Builds the engine's value of this value, the payload of a variant
    /// in the byte order given.
    ///
    /// The result is what [`encode_value`] says.  In particular a node, a
    /// relationship and a path, alone or inside another value, are
    /// refused with `ReadOnlyType` and their type; every other value is
    /// encoded, as an engine value that is well formed.
    pub fn to_foreign(&self, order: ByteOrder) -> (r: Result<ForeignValue, Error>)
        ensures
            encoded_as(r, encode_value(self@, order)),
            r matches Ok(f) ==> foreign_value_well_formed(f@),
        decreases self, 1nat,
    {
        proof {
            crate::laws::lemma_encoded_well_formed(self@, order);
        }
        match self {
            Value::List(..) | Value::Array(..) | Value::Struct(..) | Value::MapOf(..)
            | Value::Union { .. } => {
                match self.encode_children(order) {
                    Err(e) => Err(e),
                    Ok(children) => Ok(self.wrap_children(children)),
                }
            },
            Value::Node(_) => Err(Error::ReadOnlyType(LogicalType::Node)),
            Value::Rel(_) => Err(Error::ReadOnlyType(LogicalType::Rel)),
            Value::RecursiveRel { .. } => Err(Error::ReadOnlyType(LogicalType::RecursiveRel)),
            Value::RDFVariant(child) => {
                let tag = ForeignValue::UInt8(child.tag().repr());
                let blob = ForeignValue::Blob(child.payload(order));
                let ghost tag_view = tag@;
                let ghost blob_view = blob@;
                let mut children: Vec<ForeignValue> = Vec::new();
                children.push(tag);
                children.push(blob);
                let r = ForeignValue::Nested {
                    data_type: ForeignType::plain(LogicalTypeID::RDF_VARIANT),
                    children,
                };
                proof {
                    r.lemma_view();
                    assert(foreign_values_view(children@) =~= seq![tag_view, blob_view]);
                }
                Ok(r)
            },
            _ => Ok(self.encode_plain(order)),
        }
    }
}

/// Encoding a node, a relationship or a path fails with its type,
/// whatever it holds.
pub proof fn lemma_read_only_rejected(v: ValueView, order: ByteOrder)
    requires
        v is Node || v is Rel || v is RecursiveRel,
    ensures
        encode_value(v, order) == Err::<ForeignValueView, LogicalTypeView>(type_of(v)),
        type_of(v) == LogicalTypeView::Node || type_of(v) == LogicalTypeView::Rel || type_of(v)
            == LogicalTypeView::RecursiveRel,
{
}

} // verus!
