//! Values as text.
//!
//! The text of a floating-point number is not made here: it is looked up
//! in a table that the caller hands in.  Where a value holds a number
//! that the table lacks, the answer is that number in place of a text.

use vstd::prelude::*;
use vstd::string::*;
use crate::internal_id::internal_id_text;
use crate::temporal::{date_text, date_time_text, duration_text};
use crate::text::{concat2, decimal_text, int_to_string, owned};
use crate::value::{
    named_values_view, nodes_view, rels_view, value_pairs_view, values_view, NodeVal,
    NodeValView, RDFVariant, RDFVariantView, RelVal, RelValView, Value, ValueView,
};
use crate::wide_int::{hex_char, uuid_text, uuid_to_string};

verus! {

/// The bits of a floating-point number of 32 or of 64 bits.
#[derive(Clone, Copy, Debug, PartialEq, Eq, Structural)]
pub enum FloatBits {
    Single(u32),
    Double(u64),
}

/// What a table of texts says of a number: the text beside the first
/// entry for it at or after position `from`.
pub open spec fn find_text(table: Seq<(FloatBits, Seq<char>)>, key: FloatBits, from: nat) -> Option<
    Seq<char>,
>
    decreases table.len() - from,
{
    if from >= table.len() {
        None
    } else if table[from as int].0 == key {
        Some(table[from as int].1)
    } else {
        find_text(table, key, from + 1)
    }
}

/// The text of a floating-point number under a table, or the number
/// itself where the table lacks it.
pub open spec fn float_text(table: Seq<(FloatBits, Seq<char>)>, key: FloatBits) -> Result<
    Seq<char>,
    FloatBits,
> {
    match find_text(table, key, 0) {
        Some(text) => Ok(text),
        None => Err(key),
    }
}

/// The view of a table of texts.
pub open spec fn table_view(table: Seq<(FloatBits, String)>) -> Seq<(FloatBits, Seq<char>)> {
    Seq::new(table.len(), |i: int| (table[i].0, table[i].1@))
}

/// The text of a boolean.
pub open spec fn bool_text(b: bool) -> Seq<char> {
    if b {
        "True"@
    } else {
        "False"@
    }
}

/// The text of a byte: its one or two hexadecimal digits in lower case.
pub open spec fn byte_text(b: u8) -> Seq<char> {
    if b < 16 {
        seq![hex_char(b as int)]
    } else {
        seq![hex_char(b as int / 16), hex_char(b as int % 16)]
    }
}

/// The texts of the first `n` bytes, with a comma and a space between
/// them.
pub open spec fn bytes_text_prefix(bytes: Seq<u8>, n: nat) -> Seq<char>
    decreases n,
{
    if n == 0 || n > bytes.len() {
        Seq::empty()
    } else if n == 1 {
        byte_text(bytes[0])
    } else {
        bytes_text_prefix(bytes, (n - 1) as nat) + ", "@ + byte_text(bytes[n - 1])
    }
}

/// The text of a blob: its bytes in square brackets.
pub open spec fn blob_text(bytes: Seq<u8>) -> Seq<char> {
    "["@ + bytes_text_prefix(bytes, bytes.len()) + "]"@
}

/// A hexadecimal digit as a string of one character.
fn hex_str(d: u8) -> (r: &'static str)
    requires
        d < 16,
    ensures
        r@ == seq![hex_char(d as int)],
{
    proof {
        reveal_strlit("0");
        reveal_strlit("1");
        reveal_strlit("2");
        reveal_strlit("3");
        reveal_strlit("4");
        reveal_strlit("5");
        reveal_strlit("6");
        reveal_strlit("7");
        reveal_strlit("8");
        reveal_strlit("9");
        reveal_strlit("a");
        reveal_strlit("b");
        reveal_strlit("c");
        reveal_strlit("d");
        reveal_strlit("e");
        reveal_strlit("f");
    }
    let r = if d == 0 {
        "0"
    } else if d == 1 {
        "1"
    } else if d == 2 {
        "2"
    } else if d == 3 {
        "3"
    } else if d == 4 {
        "4"
    } else if d == 5 {
        "5"
    } else if d == 6 {
        "6"
    } else if d == 7 {
        "7"
    } else if d == 8 {
        "8"
    } else if d == 9 {
        "9"
    } else if d == 10 {
        "a"
    } else if d == 11 {
        "b"
    } else if d == 12 {
        "c"
    } else if d == 13 {
        "d"
    } else if d == 14 {
        "e"
    } else {
        "f"
    };
    assert(r@ =~= seq![hex_char(d as int)]);
    r
}

/// The text of a byte.
fn byte_to_string(b: u8) -> (s: String)
    ensures
        s@ == byte_text(b),
{
    if b < 16 {
        owned(hex_str(b))
    } else {
        let s = concat2(owned(hex_str(b / 16)), hex_str(b % 16));
        assert(s@ =~= seq![hex_char(b as int / 16), hex_char(b as int % 16)]);
        s
    }
}

/// The text of a blob.
fn blob_to_string(bytes: &Vec<u8>) -> (s: String)
    ensures
        s@ == blob_text(bytes@),
{
    let mut inner = String::new();
    let mut i: usize = 0;
    while i < bytes.len()
        invariant
            i <= bytes.len(),
            inner@ == bytes_text_prefix(bytes@, i as nat),
        decreases bytes.len() - i,
    {
        let next = byte_to_string(bytes[i]);
        if i == 0 {
            inner = concat2(inner, next.as_str());
            assert(inner@ =~= byte_text(bytes@[0]));
        } else {
            inner = concat2(concat2(inner, ", "), next.as_str());
        }
        i += 1;
    }
    concat2(concat2(owned("["), inner.as_str()), "]")
}

/// `done` followed by `next`, with `sep` between them unless `next` is
/// the first.
pub open spec fn joined(done: Seq<char>, first: bool, sep: Seq<char>, next: Seq<char>) -> Seq<
    char,
> {
    if first {
        next
    } else {
        done + sep + next
    }
}

/// The text of a dynamically typed scalar.
pub open spec fn variant_text(x: RDFVariantView, table: Seq<(FloatBits, Seq<char>)>) -> Result<
    Seq<char>,
    FloatBits,
> {
    match x {
        RDFVariantView::Bool(b) => Ok(bool_text(b)),
        RDFVariantView::Int8(x) => Ok(decimal_text(x as int)),
        RDFVariantView::Int16(x) => Ok(decimal_text(x as int)),
        RDFVariantView::Int32(x) => Ok(decimal_text(x as int)),
        RDFVariantView::Int64(x) => Ok(decimal_text(x as int)),
        RDFVariantView::UInt8(x) => Ok(decimal_text(x as int)),
        RDFVariantView::UInt16(x) => Ok(decimal_text(x as int)),
        RDFVariantView::UInt32(x) => Ok(decimal_text(x as int)),
        RDFVariantView::UInt64(x) => Ok(decimal_text(x as int)),
        RDFVariantView::Double(bits) => float_text(table, FloatBits::Double(bits)),
        RDFVariantView::Float(bits) => float_text(table, FloatBits::Single(bits)),
        RDFVariantView::Date(days) => Ok(date_text(days)),
        RDFVariantView::Interval(nanos) => Ok(duration_text(nanos)),
        RDFVariantView::Timestamp(nanos) => Ok(date_time_text(nanos)),
        RDFVariantView::String(s) => Ok(s),
        RDFVariantView::Blob(bytes) => Ok(blob_text(bytes)),
    }
}

/// The texts of the first `n` values, with `sep` between them.
pub open spec fn items_text_prefix(
    items: Seq<ValueView>,
    n: nat,
    sep: Seq<char>,
    table: Seq<(FloatBits, Seq<char>)>,
) -> Result<Seq<char>, FloatBits>
    decreases items, n,
{
    if n == 0 || n > items.len() {
        Ok(Seq::empty())
    } else {
        match items_text_prefix(items, (n - 1) as nat, sep, table) {
            Err(e) => Err(e),
            Ok(done) => match value_text(items[n - 1], table) {
                Err(e) => Err(e),
                Ok(next) => Ok(joined(done, n == 1, sep, next)),
            },
        }
    }
}

/// The texts of the first `n` named values, each a name, `mid` and the
/// value's text, with `sep` between them.
pub open spec fn named_text_prefix(
    fields: Seq<(Seq<char>, ValueView)>,
    n: nat,
    mid: Seq<char>,
    sep: Seq<char>,
    table: Seq<(FloatBits, Seq<char>)>,
) -> Result<Seq<char>, FloatBits>
    decreases fields, n,
{
    if n == 0 || n > fields.len() {
        Ok(Seq::empty())
    } else {
        match named_text_prefix(fields, (n - 1) as nat, mid, sep, table) {
            Err(e) => Err(e),
            Ok(done) => match value_text(fields[n - 1].1, table) {
                Err(e) => Err(e),
                Ok(next) => Ok(joined(done, n == 1, sep, fields[n - 1].0 + mid + next)),
            },
        }
    }
}

/// The texts of the first `n` entries of a map, each the key's text, an
/// equals sign and the value's text, with a comma and a space between
/// them.
pub open spec fn entries_text_prefix(
    entries: Seq<(ValueView, ValueView)>,
    n: nat,
    table: Seq<(FloatBits, Seq<char>)>,
) -> Result<Seq<char>, FloatBits>
    decreases entries, n,
{
    if n == 0 || n > entries.len() {
        Ok(Seq::empty())
    } else {
        match entries_text_prefix(entries, (n - 1) as nat, table) {
            Err(e) => Err(e),
            Ok(done) => match value_text(entries[n - 1].0, table) {
                Err(e) => Err(e),
                Ok(key) => match value_text(entries[n - 1].1, table) {
                    Err(e) => Err(e),
                    Ok(value) => Ok(joined(done, n == 1, ", "@, key + "="@ + value)),
                },
            },
        }
    }
}

/// The text of a node: its label, its identifier and its properties.
pub open spec fn node_text(node: NodeValView, table: Seq<(FloatBits, Seq<char>)>) -> Result<
    Seq<char>,
    FloatBits,
>
    decreases node, 0nat,
{
    match named_text_prefix(node.properties, node.properties.len(), ":"@, ","@, table) {
        Err(e) => Err(e),
        Ok(properties) => Ok(
            "(label:"@ + node.label + ", "@ + internal_id_text(node.id) + ", "@ + "{"@
                + properties + "}"@ + ")"@,
        ),
    }
}

/// The text of a relationship: its source, its label and properties, and
/// its destination.
pub open spec fn rel_text(rel: RelValView, table: Seq<(FloatBits, Seq<char>)>) -> Result<
    Seq<char>,
    FloatBits,
>
    decreases rel, 0nat,
{
    match named_text_prefix(rel.properties, rel.properties.len(), ":"@, ","@, table) {
        Err(e) => Err(e),
        Ok(properties) => Ok(
            "("@ + internal_id_text(rel.src_node) + ")-[label:"@ + rel.label + ", "@ + "{"@
                + properties + "}"@ + "]->("@ + internal_id_text(rel.dst_node) + ")"@,
        ),
    }
}

/// The texts of the first `n` nodes, with a comma between them.
pub open spec fn nodes_text_prefix(
    nodes: Seq<NodeValView>,
    n: nat,
    table: Seq<(FloatBits, Seq<char>)>,
) -> Result<Seq<char>, FloatBits>
    decreases nodes, n,
{
    if n == 0 || n > nodes.len() {
        Ok(Seq::empty())
    } else {
        match nodes_text_prefix(nodes, (n - 1) as nat, table) {
            Err(e) => Err(e),
            Ok(done) => match node_text(nodes[n - 1], table) {
                Err(e) => Err(e),
                Ok(next) => Ok(joined(done, n == 1, ","@, next)),
            },
        }
    }
}

/// The texts of the first `n` relationships, with a comma between them.
pub open spec fn rels_text_prefix(
    rels: Seq<RelValView>,
    n: nat,
    table: Seq<(FloatBits, Seq<char>)>,
) -> Result<Seq<char>, FloatBits>
    decreases rels, n,
{
    if n == 0 || n > rels.len() {
        Ok(Seq::empty())
    } else {
        match rels_text_prefix(rels, (n - 1) as nat, table) {
            Err(e) => Err(e),
            Ok(done) => match rel_text(rels[n - 1], table) {
                Err(e) => Err(e),
                Ok(next) => Ok(joined(done, n == 1, ","@, next)),
            },
        }
    }
}

/// The text of a value, the texts of floating-point numbers taken from a
/// table; where the value holds a floating-point number that the table
/// lacks, the first such number in the order of the text.
///
/// A boolean is `True` or `False`; a null is empty; a number is in
/// decimal.  A list and an array are `[e0,e1,...]`; a struct is `{name:
/// value, ...}`; a map is `{key=value, ...}`; a union is its one value.
/// A node is `(label:L, id, {name:value,...})`; a relationship is
/// `(src)-[label:L, {name:value,...}]->(dst)`; a path is `{_NODES: [...],
/// _RELS: [...]}`.
pub open spec fn value_text(v: ValueView, table: Seq<(FloatBits, Seq<char>)>) -> Result<
    Seq<char>,
    FloatBits,
>
    decreases v, 0nat,
{
    match v {
        ValueView::Null(_) => Ok(Seq::empty()),
        ValueView::Bool(b) => Ok(bool_text(b)),
        ValueView::Int64(x) => Ok(decimal_text(x as int)),
        ValueView::Int32(x) => Ok(decimal_text(x as int)),
        ValueView::Int16(x) => Ok(decimal_text(x as int)),
        ValueView::Int8(x) => Ok(decimal_text(x as int)),
        ValueView::UInt64(x) => Ok(decimal_text(x as int)),
        ValueView::UInt32(x) => Ok(decimal_text(x as int)),
        ValueView::UInt16(x) => Ok(decimal_text(x as int)),
        ValueView::UInt8(x) => Ok(decimal_text(x as int)),
        ValueView::Int128(x) => Ok(decimal_text(x as int)),
        ValueView::Double(bits) => float_text(table, FloatBits::Double(bits)),
        ValueView::Float(bits) => float_text(table, FloatBits::Single(bits)),
        ValueView::Date(days) => Ok(date_text(days)),
        ValueView::Interval(nanos) => Ok(duration_text(nanos)),
        ValueView::Timestamp(nanos) => Ok(date_time_text(nanos)),
        ValueView::TimestampTz(nanos) => Ok(date_time_text(nanos)),
        ValueView::TimestampNs(nanos) => Ok(date_time_text(nanos)),
        ValueView::TimestampMs(nanos) => Ok(date_time_text(nanos)),
        ValueView::TimestampSec(nanos) => Ok(date_time_text(nanos)),
        ValueView::InternalID(id) => Ok(internal_id_text(id)),
        ValueView::String(s) => Ok(s),
        ValueView::Blob(bytes) => Ok(blob_text(bytes)),
        ValueView::List(_, items) => match items_text_prefix(items, items.len(), ","@, table) {
            Err(e) => Err(e),
            Ok(inner) => Ok("["@ + inner + "]"@),
        },
        ValueView::Array(_, items) => match items_text_prefix(items, items.len(), ","@, table) {
            Err(e) => Err(e),
            Ok(inner) => Ok("["@ + inner + "]"@),
        },
        ValueView::Struct(fields) => match named_text_prefix(
            fields,
            fields.len(),
            ": "@,
            ", "@,
            table,
        ) {
            Err(e) => Err(e),
            Ok(inner) => Ok("{"@ + inner + "}"@),
        },
        ValueView::MapOf(_, entries) => match entries_text_prefix(entries, entries.len(), table) {
            Err(e) => Err(e),
            Ok(inner) => Ok("{"@ + inner + "}"@),
        },
        ValueView::Node(node) => node_text(node, table),
        ValueView::Rel(rel) => rel_text(rel, table),
        ValueView::RecursiveRel { nodes, rels } => match nodes_text_prefix(
            nodes,
            nodes.len(),
            table,
        ) {
            Err(e) => Err(e),
            Ok(node_texts) => match rels_text_prefix(rels, rels.len(), table) {
                Err(e) => Err(e),
                Ok(rel_texts) => Ok(
                    "{"@ + "_NODES: "@ + "["@ + node_texts + "]"@ + ", _RELS: "@ + "["@
                        + rel_texts + "]"@ + "}"@,
                ),
            },
        },
        ValueView::Union { types: _, value } => value_text(*value, table),
        ValueView::UUID(x) => Ok(uuid_text(x)),
        ValueView::RDFVariant(x) => variant_text(x, table),
    }
}

/// What an executable display says of its result: the text that `want`
/// holds, or the number that it holds.
pub open spec fn text_as(r: Result<String, FloatBits>, want: Result<Seq<char>, FloatBits>) -> bool {
    match r {
        Ok(s) => want == Ok::<Seq<char>, FloatBits>(s@),
        Err(e) => want == Err::<Seq<char>, FloatBits>(e),
    }
}

/// Once a value lacks the text of a number, the list lacks it however
/// many more values are taken.
pub proof fn lemma_items_text_fails(
    items: Seq<ValueView>,
    k: nat,
    n: nat,
    sep: Seq<char>,
    table: Seq<(FloatBits, Seq<char>)>,
)
    requires
        items_text_prefix(items, k, sep, table) is Err,
        k <= n <= items.len(),
    ensures
        items_text_prefix(items, n, sep, table) == items_text_prefix(items, k, sep, table),
    decreases n,
{
    if n > k {
        lemma_items_text_fails(items, k, (n - 1) as nat, sep, table);
    }
}

/// The same for named values.
pub proof fn lemma_named_text_fails(
    fields: Seq<(Seq<char>, ValueView)>,
    k: nat,
    n: nat,
    mid: Seq<char>,
    sep: Seq<char>,
    table: Seq<(FloatBits, Seq<char>)>,
)
    requires
        named_text_prefix(fields, k, mid, sep, table) is Err,
        k <= n <= fields.len(),
    ensures
        named_text_prefix(fields, n, mid, sep, table) == named_text_prefix(
            fields,
            k,
            mid,
            sep,
            table,
        ),
    decreases n,
{
    if n > k {
        lemma_named_text_fails(fields, k, (n - 1) as nat, mid, sep, table);
    }
}

/// The same for the entries of a map.
pub proof fn lemma_entries_text_fails(
    entries: Seq<(ValueView, ValueView)>,
    k: nat,
    n: nat,
    table: Seq<(FloatBits, Seq<char>)>,
)
    requires
        entries_text_prefix(entries, k, table) is Err,
        k <= n <= entries.len(),
    ensures
        entries_text_prefix(entries, n, table) == entries_text_prefix(entries, k, table),
    decreases n,
{
    if n > k {
        lemma_entries_text_fails(entries, k, (n - 1) as nat, table);
    }
}

/// The same for nodes.
pub proof fn lemma_nodes_text_fails(
    nodes: Seq<NodeValView>,
    k: nat,
    n: nat,
    table: Seq<(FloatBits, Seq<char>)>,
)
    requires
        nodes_text_prefix(nodes, k, table) is Err,
        k <= n <= nodes.len(),
    ensures
        nodes_text_prefix(nodes, n, table) == nodes_text_prefix(nodes, k, table),
    decreases n,
{
    if n > k {
        lemma_nodes_text_fails(nodes, k, (n - 1) as nat, table);
    }
}

/// The same for relationships.
pub proof fn lemma_rels_text_fails(
    rels: Seq<RelValView>,
    k: nat,
    n: nat,
    table: Seq<(FloatBits, Seq<char>)>,
)
    requires
        rels_text_prefix(rels, k, table) is Err,
        k <= n <= rels.len(),
    ensures
        rels_text_prefix(rels, n, table) == rels_text_prefix(rels, k, table),
    decreases n,
{
    if n > k {
        lemma_rels_text_fails(rels, k, (n - 1) as nat, table);
    }
}

/// A number that comes back in place of the text of values has no entry
/// in the table.
pub proof fn lemma_items_text_missing(
    items: Seq<ValueView>,
    n: nat,
    sep: Seq<char>,
    table: Seq<(FloatBits, Seq<char>)>,
)
    requires
        n <= items.len(),
    ensures
        items_text_prefix(items, n, sep, table) matches Err(bits) ==> find_text(table, bits, 0)
            is None,
    decreases items, n,
{
    if n > 0 {
        lemma_items_text_missing(items, (n - 1) as nat, sep, table);
        lemma_text_missing(items[n - 1], table);
    }
}

/// The same for named values.
pub proof fn lemma_named_text_missing(
    fields: Seq<(Seq<char>, ValueView)>,
    n: nat,
    mid: Seq<char>,
    sep: Seq<char>,
    table: Seq<(FloatBits, Seq<char>)>,
)
    requires
        n <= fields.len(),
    ensures
        named_text_prefix(fields, n, mid, sep, table) matches Err(bits) ==> find_text(
            table,
            bits,
            0,
        ) is None,
    decreases fields, n,
{
    if n > 0 {
        lemma_named_text_missing(fields, (n - 1) as nat, mid, sep, table);
        lemma_text_missing(fields[n - 1].1, table);
    }
}

/// The same for the entries of a map.
pub proof fn lemma_entries_text_missing(
    entries: Seq<(ValueView, ValueView)>,
    n: nat,
    table: Seq<(FloatBits, Seq<char>)>,
)
    requires
        n <= entries.len(),
    ensures
        entries_text_prefix(entries, n, table) matches Err(bits) ==> find_text(table, bits, 0)
            is None,
    decreases entries, n,
{
    if n > 0 {
        lemma_entries_text_missing(entries, (n - 1) as nat, table);
        lemma_text_missing(entries[n - 1].0, table);
        lemma_text_missing(entries[n - 1].1, table);
    }
}

/// The same for a node.
pub proof fn lemma_node_text_missing(node: NodeValView, table: Seq<(FloatBits, Seq<char>)>)
    ensures
        node_text(node, table) matches Err(bits) ==> find_text(table, bits, 0) is None,
    decreases node, 0nat,
{
    lemma_named_text_missing(node.properties, node.properties.len(), ":"@, ","@, table);
}

/// The same for a relationship.
pub proof fn lemma_rel_text_missing(rel: RelValView, table: Seq<(FloatBits, Seq<char>)>)
    ensures
        rel_text(rel, table) matches Err(bits) ==> find_text(table, bits, 0) is None,
    decreases rel, 0nat,
{
    lemma_named_text_missing(rel.properties, rel.properties.len(), ":"@, ","@, table);
}

/// The same for nodes.
pub proof fn lemma_nodes_text_missing(
    nodes: Seq<NodeValView>,
    n: nat,
    table: Seq<(FloatBits, Seq<char>)>,
)
    requires
        n <= nodes.len(),
    ensures
        nodes_text_prefix(nodes, n, table) matches Err(bits) ==> find_text(table, bits, 0)
            is None,
    decreases nodes, n,
{
    if n > 0 {
        lemma_nodes_text_missing(nodes, (n - 1) as nat, table);
        lemma_node_text_missing(nodes[n - 1], table);
    }
}

/// The same for relationships.
pub proof fn lemma_rels_text_missing(
    rels: Seq<RelValView>,
    n: nat,
    table: Seq<(FloatBits, Seq<char>)>,
)
    requires
        n <= rels.len(),
    ensures
        rels_text_prefix(rels, n, table) matches Err(bits) ==> find_text(table, bits, 0) is None,
    decreases rels, n,
{
    if n > 0 {
        lemma_rels_text_missing(rels, (n - 1) as nat, table);
        lemma_rel_text_missing(rels[n - 1], table);
    }
}

/// A number that comes back in place of the text of a value has no entry
/// in the table: a caller that adds its text and asks again is never asked
/// for the same number twice.
pub proof fn lemma_text_missing(v: ValueView, table: Seq<(FloatBits, Seq<char>)>)
    ensures
        value_text(v, table) matches Err(bits) ==> find_text(table, bits, 0) is None,
    decreases v, 0nat,
{
    match v {
        ValueView::List(_, items) => {
            lemma_items_text_missing(items, items.len(), ","@, table);
        },
        ValueView::Array(_, items) => {
            lemma_items_text_missing(items, items.len(), ","@, table);
        },
        ValueView::Struct(fields) => {
            lemma_named_text_missing(fields, fields.len(), ": "@, ", "@, table);
        },
        ValueView::MapOf(_, entries) => {
            lemma_entries_text_missing(entries, entries.len(), table);
        },
        ValueView::Node(node) => {
            lemma_node_text_missing(node, table);
        },
        ValueView::Rel(rel) => {
            lemma_rel_text_missing(rel, table);
        },
        ValueView::RecursiveRel { nodes, rels } => {
            lemma_nodes_text_missing(nodes, nodes.len(), table);
            lemma_rels_text_missing(rels, rels.len(), table);
        },
        ValueView::Union { types: _, value } => {
            lemma_text_missing(*value, table);
        },
        _ => {},
    }
}

/// A table with an entry added has a text for the number of that entry,
/// and keeps the text of every number that it had one for.
pub proof fn lemma_table_grows(
    table: Seq<(FloatBits, Seq<char>)>,
    from: nat,
    key: FloatBits,
    bits: FloatBits,
    text: Seq<char>,
)
    requires
        from <= table.len(),
    ensures
        find_text(table.push((bits, text)), bits, from) is Some,
        find_text(table, key, from) is Some ==> find_text(table.push((bits, text)), key, from)
            == find_text(table, key, from),
    decreases table.len() - from,
{
    let grown = table.push((bits, text));
    if from < table.len() {
        assert(grown[from as int] == table[from as int]);
        lemma_table_grows(table, from + 1, key, bits, text);
    } else {
        assert(grown[from as int] == (bits, text));
    }
}

/// Looks a number up in a table of texts.
pub fn find_float_text(table: &Vec<(FloatBits, String)>, key: FloatBits) -> (r: Result<
    String,
    FloatBits,
>)
    ensures
        text_as(r, float_text(table_view(table@), key)),
{
    let ghost view = table_view(table@);
    let mut i: usize = 0;
    while i < table.len()
        invariant
            i <= table.len(),
            view == table_view(table@),
            find_text(view, key, 0) == find_text(view, key, i as nat),
        decreases table.len() - i,
    {
        if table[i].0 == key {
            return Ok(table[i].1.clone());
        }
        i += 1;
    }
    Err(key)
}

/// `done` with `next` added, after `sep` unless `next` is the first.
fn join_next(done: String, first: bool, sep: &str, next: &str) -> (r: String)
    requires
        first ==> done@.len() == 0,
    ensures
        r@ == joined(done@, first, sep@, next@),
{
    if first {
        let r = concat2(done, next);
        assert(r@ =~= next@);
        r
    } else {
        concat2(concat2(done, sep), next)
    }
}

/// The text of a boolean.
fn bool_to_string(b: bool) -> (r: String)
    ensures
        r@ == bool_text(b),
{
    if b {
        owned("True")
    } else {
        owned("False")
    }
}

impl RDFVariant {
    /// The scalar as text, the text of a floating-point number taken from
    /// the table; the number itself where the table lacks it.
    pub fn display_with(&self, table: &Vec<(FloatBits, String)>) -> (r: Result<String, FloatBits>)
        ensures
            text_as(r, variant_text(self@, table_view(table@))),
    {
        match self {
            RDFVariant::Bool(x) => Ok(bool_to_string(*x)),
            RDFVariant::Int8(x) => Ok(int_to_string(*x as i128)),
            RDFVariant::Int16(x) => Ok(int_to_string(*x as i128)),
            RDFVariant::Int32(x) => Ok(int_to_string(*x as i128)),
            RDFVariant::Int64(x) => Ok(int_to_string(*x as i128)),
            RDFVariant::UInt8(x) => Ok(int_to_string(*x as i128)),
            RDFVariant::UInt16(x) => Ok(int_to_string(*x as i128)),
            RDFVariant::UInt32(x) => Ok(int_to_string(*x as i128)),
            RDFVariant::UInt64(x) => Ok(int_to_string(*x as i128)),
            RDFVariant::Double(x) => find_float_text(table, FloatBits::Double(*x)),
            RDFVariant::Float(x) => find_float_text(table, FloatBits::Single(*x)),
            RDFVariant::Date(x) => Ok(x.display()),
            RDFVariant::Interval(x) => Ok(x.display()),
            RDFVariant::Timestamp(x) => Ok(x.display()),
            RDFVariant::String(x) => Ok(x.clone()),
            RDFVariant::Blob(x) => Ok(blob_to_string(x)),
        }
    }

    /// The scalar as text; for a floating-point number, the number.
    pub fn display(&self) -> (r: Result<String, FloatBits>)
        ensures
            text_as(r, variant_text(self@, Seq::empty())),
    {
        let table: Vec<(FloatBits, String)> = Vec::new();
        assert(table_view(table@) =~= Seq::empty());
        self.display_with(&table)
    }
}

/// The texts of values, with `sep` between them.
fn items_to_string(items: &Vec<Value>, sep: &str, table: &Vec<(FloatBits, String)>) -> (r: Result<
    String,
    FloatBits,
>)
    ensures
        text_as(
            r,
            items_text_prefix(values_view(items@), items.len() as nat, sep@, table_view(table@)),
        ),
    decreases items, 0nat,
{
    let ghost views = values_view(items@);
    let ghost texts = table_view(table@);
    let mut out = String::new();
    let mut i: usize = 0;
    while i < items.len()
        invariant
            i <= items.len(),
            views == values_view(items@),
            texts == table_view(table@),
            items_text_prefix(views, i as nat, sep@, texts) == Ok::<Seq<char>, FloatBits>(out@),
        decreases items.len() - i,
    {
        let next = match items[i].display_with(table) {
            Err(e) => {
                proof {
                    lemma_items_text_fails(views, (i + 1) as nat, items.len() as nat, sep@, texts);
                }
                return Err(e);
            },
            Ok(next) => next,
        };
        out = join_next(out, i == 0, sep, next.as_str());
        i += 1;
    }
    Ok(out)
}

/// The texts of named values, each a name, `mid` and the value's text,
/// with `sep` between them.
fn named_to_string(
    fields: &Vec<(String, Value)>,
    mid: &str,
    sep: &str,
    table: &Vec<(FloatBits, String)>,
) -> (r: Result<String, FloatBits>)
    ensures
        text_as(
            r,
            named_text_prefix(
                named_values_view(fields@),
                fields.len() as nat,
                mid@,
                sep@,
                table_view(table@),
            ),
        ),
    decreases fields, 0nat,
{
    let ghost views = named_values_view(fields@);
    let ghost texts = table_view(table@);
    let mut out = String::new();
    let mut i: usize = 0;
    while i < fields.len()
        invariant
            i <= fields.len(),
            views == named_values_view(fields@),
            texts == table_view(table@),
            named_text_prefix(views, i as nat, mid@, sep@, texts) == Ok::<Seq<char>, FloatBits>(out@),
        decreases fields.len() - i,
    {
        let next = match fields[i].1.display_with(table) {
            Err(e) => {
                proof {
                    lemma_named_text_fails(
                        views,
                        (i + 1) as nat,
                        fields.len() as nat,
                        mid@,
                        sep@,
                        texts,
                    );
                }
                return Err(e);
            },
            Ok(next) => next,
        };
        let entry = concat2(concat2(fields[i].0.clone(), mid), next.as_str());
        out = join_next(out, i == 0, sep, entry.as_str());
        i += 1;
    }
    Ok(out)
}

/// The texts of the entries of a map.
fn entries_to_string(entries: &Vec<(Value, Value)>, table: &Vec<(FloatBits, String)>) -> (r:
    Result<String, FloatBits>)
    ensures
        text_as(
            r,
            entries_text_prefix(
                value_pairs_view(entries@),
                entries.len() as nat,
                table_view(table@),
            ),
        ),
    decreases entries, 0nat,
{
    let ghost views = value_pairs_view(entries@);
    let ghost texts = table_view(table@);
    let mut out = String::new();
    let mut i: usize = 0;
    while i < entries.len()
        invariant
            i <= entries.len(),
            views == value_pairs_view(entries@),
            texts == table_view(table@),
            entries_text_prefix(views, i as nat, texts) == Ok::<Seq<char>, FloatBits>(out@),
        decreases entries.len() - i,
    {
        let key = match entries[i].0.display_with(table) {
            Err(e) => {
                proof {
                    lemma_entries_text_fails(views, (i + 1) as nat, entries.len() as nat, texts);
                }
                return Err(e);
            },
            Ok(key) => key,
        };
        let value = match entries[i].1.display_with(table) {
            Err(e) => {
                proof {
                    lemma_entries_text_fails(views, (i + 1) as nat, entries.len() as nat, texts);
                }
                return Err(e);
            },
            Ok(value) => value,
        };
        let entry = concat2(concat2(key, "="), value.as_str());
        out = join_next(out, i == 0, ", ", entry.as_str());
        i += 1;
    }
    Ok(out)
}

/// The texts of nodes, with a comma between them.
fn nodes_to_string(nodes: &Vec<NodeVal>, table: &Vec<(FloatBits, String)>) -> (r: Result<String, FloatBits>)
    ensures
        text_as(
            r,
            nodes_text_prefix(nodes_view(nodes@), nodes.len() as nat, table_view(table@)),
        ),
    decreases nodes, 0nat,
{
    let ghost views = nodes_view(nodes@);
    let ghost texts = table_view(table@);
    let mut out = String::new();
    let mut i: usize = 0;
    while i < nodes.len()
        invariant
            i <= nodes.len(),
            views == nodes_view(nodes@),
            texts == table_view(table@),
            nodes_text_prefix(views, i as nat, texts) == Ok::<Seq<char>, FloatBits>(out@),
        decreases nodes.len() - i,
    {
        let next = match nodes[i].display_with(table) {
            Err(e) => {
                proof {
                    lemma_nodes_text_fails(views, (i + 1) as nat, nodes.len() as nat, texts);
                }
                return Err(e);
            },
            Ok(next) => next,
        };
        out = join_next(out, i == 0, ",", next.as_str());
        i += 1;
    }
    Ok(out)
}

/// The texts of relationships, with a comma between them.
fn rels_to_string(rels: &Vec<RelVal>, table: &Vec<(FloatBits, String)>) -> (r: Result<String, FloatBits>)
    ensures
        text_as(r, rels_text_prefix(rels_view(rels@), rels.len() as nat, table_view(table@))),
    decreases rels, 0nat,
{
    let ghost views = rels_view(rels@);
    let ghost texts = table_view(table@);
    let mut out = String::new();
    let mut i: usize = 0;
    while i < rels.len()
        invariant
            i <= rels.len(),
            views == rels_view(rels@),
            texts == table_view(table@),
            rels_text_prefix(views, i as nat, texts) == Ok::<Seq<char>, FloatBits>(out@),
        decreases rels.len() - i,
    {
        let next = match rels[i].display_with(table) {
            Err(e) => {
                proof {
                    lemma_rels_text_fails(views, (i + 1) as nat, rels.len() as nat, texts);
                }
                return Err(e);
            },
            Ok(next) => next,
        };
        out = join_next(out, i == 0, ",", next.as_str());
        i += 1;
    }
    Ok(out)
}

impl NodeVal {
    /// The node as text, the texts of floating-point numbers taken from
    /// the table; the first number that the table lacks, if it lacks
    /// one.
    pub fn display_with(&self, table: &Vec<(FloatBits, String)>) -> (r: Result<String, FloatBits>)
        ensures
            text_as(r, node_text(self@, table_view(table@))),
        decreases self, 1nat,
    {
        let properties = self.get_properties();
        let inner = match named_to_string(properties, ":", ",", table) {
            Err(e) => {
                return Err(e);
            },
            Ok(inner) => inner,
        };
        let out = owned("(label:");
        let out = concat2(out, self.get_label_name().as_str());
        let out = concat2(out, ", ");
        let out = concat2(out, self.get_node_id().display().as_str());
        let out = concat2(out, ", ");
        let out = concat2(out, "{");
        let out = concat2(out, inner.as_str());
        let out = concat2(out, "}");
        let out = concat2(out, ")");
        Ok(out)
    }

    /// The node as text; the first floating-point number in it, if it
    /// holds one.
    pub fn display(&self) -> (r: Result<String, FloatBits>)
        ensures
            text_as(r, node_text(self@, Seq::empty())),
    {
        let table: Vec<(FloatBits, String)> = Vec::new();
        assert(table_view(table@) =~= Seq::empty());
        self.display_with(&table)
    }
}

impl RelVal {
    /// The relationship as text, the texts of floating-point numbers
    /// taken from the table; the first number that the table lacks, if it
    /// lacks one.
    pub fn display_with(&self, table: &Vec<(FloatBits, String)>) -> (r: Result<String, FloatBits>)
        ensures
            text_as(r, rel_text(self@, table_view(table@))),
        decreases self, 1nat,
    {
        let properties = self.get_properties();
        let inner = match named_to_string(properties, ":", ",", table) {
            Err(e) => {
                return Err(e);
            },
            Ok(inner) => inner,
        };
        let out = owned("(");
        let out = concat2(out, self.get_src_node().display().as_str());
        let out = concat2(out, ")-[label:");
        let out = concat2(out, self.get_label_name().as_str());
        let out = concat2(out, ", ");
        let out = concat2(out, "{");
        let out = concat2(out, inner.as_str());
        let out = concat2(out, "}");
        let out = concat2(out, "]->(");
        let out = concat2(out, self.get_dst_node().display().as_str());
        let out = concat2(out, ")");
        Ok(out)
    }

    /// The relationship as text; the first floating-point number in it,
    /// if it holds one.
    pub fn display(&self) -> (r: Result<String, FloatBits>)
        ensures
            text_as(r, rel_text(self@, Seq::empty())),
    {
        let table: Vec<(FloatBits, String)> = Vec::new();
        assert(table_view(table@) =~= Seq::empty());
        self.display_with(&table)
    }
}

/// The values whose text is made of the texts of other values.
pub open spec fn is_composite(v: ValueView) -> bool {
    v is List || v is Array || v is Struct || v is MapOf || v is Union || v is Node || v is Rel
        || v is RecursiveRel
}

impl Value {
    /// The text of a null or a scalar.
    fn scalar_to_string(&self, table: &Vec<(FloatBits, String)>) -> (r: Result<String, FloatBits>)
        requires
            !is_composite(self@),
        ensures
            text_as(r, value_text(self@, table_view(table@))),
    {
        match self {
            Value::Null(_) => Ok(String::new()),
            Value::Bool(x) => Ok(bool_to_string(*x)),
            Value::Int8(x) => Ok(int_to_string(*x as i128)),
            Value::Int16(x) => Ok(int_to_string(*x as i128)),
            Value::Int32(x) => Ok(int_to_string(*x as i128)),
            Value::Int64(x) => Ok(int_to_string(*x as i128)),
            Value::UInt8(x) => Ok(int_to_string(*x as i128)),
            Value::UInt16(x) => Ok(int_to_string(*x as i128)),
            Value::UInt32(x) => Ok(int_to_string(*x as i128)),
            Value::UInt64(x) => Ok(int_to_string(*x as i128)),
            Value::Int128(x) => Ok(int_to_string(*x)),
            Value::Double(x) => find_float_text(table, FloatBits::Double(*x)),
            Value::Float(x) => find_float_text(table, FloatBits::Single(*x)),
            Value::Date(x) => Ok(x.display()),
            Value::Interval(x) => Ok(x.display()),
            Value::Timestamp(x) => Ok(x.display()),
            Value::TimestampTz(x) => Ok(x.display()),
            Value::TimestampNs(x) => Ok(x.display()),
            Value::TimestampMs(x) => Ok(x.display()),
            Value::TimestampSec(x) => Ok(x.display()),
            Value::InternalID(x) => Ok(x.display()),
            Value::String(x) => Ok(x.clone()),
            Value::Blob(x) => Ok(blob_to_string(x)),
            Value::UUID(x) => Ok(uuid_to_string(*x)),
            Value::RDFVariant(x) => x.display_with(table),
            _ => unreached(),
        }
    }

    /// The text of a value that is made of other values.
    fn composite_to_string(&self, table: &Vec<(FloatBits, String)>) -> (r: Result<String, FloatBits>)
        requires
            is_composite(self@),
        ensures
            text_as(r, value_text(self@, table_view(table@))),
        decreases self, 0nat,
    {
        proof {
            self.lemma_view();
        }
        match self {
            Value::List(_, x) => {
                assert(decreases_to!(self => self->List_1));
                match items_to_string(x, ",", table) {
                    Err(e) => Err(e),
                    Ok(inner) => Ok(concat2(concat2(owned("["), inner.as_str()), "]")),
                }
            },
            Value::Array(_, x) => {
                assert(decreases_to!(self => self->Array_1));
                match items_to_string(x, ",", table) {
                    Err(e) => Err(e),
                    Ok(inner) => Ok(concat2(concat2(owned("["), inner.as_str()), "]")),
                }
            },
            Value::Struct(x) => {
                assert(decreases_to!(self => self->Struct_0));
                match named_to_string(x, ": ", ", ", table) {
                    Err(e) => Err(e),
                    Ok(inner) => Ok(concat2(concat2(owned("{"), inner.as_str()), "}")),
                }
            },
            Value::MapOf(_, x) => {
                assert(decreases_to!(self => self->MapOf_1));
                match entries_to_string(x, table) {
                    Err(e) => Err(e),
                    Ok(inner) => Ok(concat2(concat2(owned("{"), inner.as_str()), "}")),
                }
            },
            Value::Node(x) => x.display_with(table),
            Value::Rel(x) => x.display_with(table),
            Value::RecursiveRel { nodes, rels } => {
                assert(decreases_to!(self => self->RecursiveRel_nodes));
                assert(decreases_to!(self => self->RecursiveRel_rels));
                let node_texts = match nodes_to_string(nodes, table) {
                    Err(e) => {
                        return Err(e);
                    },
                    Ok(texts) => texts,
                };
                let rel_texts = match rels_to_string(rels, table) {
                    Err(e) => {
                        return Err(e);
                    },
                    Ok(texts) => texts,
                };
                let out = owned("{");
                let out = concat2(out, "_NODES: ");
                let out = concat2(out, "[");
                let out = concat2(out, node_texts.as_str());
                let out = concat2(out, "]");
                let out = concat2(out, ", _RELS: ");
                let out = concat2(out, "[");
                let out = concat2(out, rel_texts.as_str());
                let out = concat2(out, "]");
                let out = concat2(out, "}");
                Ok(out)
            },
            Value::Union { types: _, value } => value.display_with(table),
            _ => unreached(),
        }
    }

    /// The value as text, the texts of floating-point numbers taken from
    /// the table; where the value holds one that the table lacks, the
    /// first such number in the order of the text.  That number has no
    /// entry in the table.
    pub fn display_with(&self, table: &Vec<(FloatBits, String)>) -> (r: Result<String, FloatBits>)
        ensures
            text_as(r, value_text(self@, table_view(table@))),
            r matches Err(bits) ==> find_text(table_view(table@), bits, 0) is None,
        decreases self, 1nat,
    {
        proof {
            lemma_text_missing(self@, table_view(table@));
        }
        match self {
            Value::List(..) | Value::Array(..) | Value::Struct(..) | Value::MapOf(..)
            | Value::Union { .. } | Value::Node(..) | Value::Rel(..) | Value::RecursiveRel {
                ..
            } => self.composite_to_string(table),
            _ => self.scalar_to_string(table),
        }
    }

    /// The value as text; the first floating-point number in it, if it
    /// holds one.
    pub fn display(&self) -> (r: Result<String, FloatBits>)
        ensures
            text_as(r, value_text(self@, Seq::empty())),
    {
        let table: Vec<(FloatBits, String)> = Vec::new();
        assert(table_view(table@) =~= Seq::empty());
        self.display_with(&table)
    }
}

} // verus!
