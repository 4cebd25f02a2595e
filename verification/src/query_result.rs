//! Reading the rows of a result.

use vstd::prelude::*;
use crate::bytes::ByteOrder;
use crate::codec::{decode_prefix, foreign_value_well_formed};
use crate::decode::decode_children;
use crate::error::{ConversionError, ConversionErrorView};
use crate::foreign::{foreign_values_view, ForeignType, ForeignValue};
use crate::logical_type::LogicalType;
use crate::type_codec::{foreign_type_well_formed, type_from_foreign};
use crate::value::{values_view, Value, ValueView};

verus! {

/// Options for writing a result as CSV.
#[derive(Clone, Copy, Debug, PartialEq, Eq)]
pub struct CSVOptions {
    pub delimiter: char,
    pub escape_character: char,
    pub newline: char,
}

impl Default for CSVOptions {
    /// A comma between fields, a double quote to escape, a line feed
    /// after a row.
    fn default() -> (r: CSVOptions)
        ensures
            r == (CSVOptions { delimiter: ',', escape_character: '"', newline: '\n' }),
    {
        CSVOptions { delimiter: ',', escape_character: '"', newline: '\n' }
    }
}

/// The low 8 bits of a character's code, read as a signed number.
pub open spec fn char_code(c: char) -> i8 {
    (c as u32 % 256) as u8 as i8
}

impl CSVOptions {
    /// The same options with another delimiter between fields.
    pub fn delimiter(self, delimiter: char) -> (r: CSVOptions)
        ensures
            r == (CSVOptions { delimiter, ..self }),
    {
        CSVOptions { delimiter, ..self }
    }

    /// The same options with another escape character.
    pub fn escape_character(self, escape_character: char) -> (r: CSVOptions)
        ensures
            r == (CSVOptions { escape_character, ..self }),
    {
        CSVOptions { escape_character, ..self }
    }

    /// The same options with another character after a row.
    pub fn newline(self, newline: char) -> (r: CSVOptions)
        ensures
            r == (CSVOptions { newline, ..self }),
    {
        CSVOptions { newline, ..self }
    }

    /// The three characters as the engine takes them: the low 8 bits of
    /// each code.
    pub fn codes(&self) -> (r: (i8, i8, i8))
        ensures
            r.0 == char_code(self.delimiter),
            r.1 == char_code(self.escape_character),
            r.2 == char_code(self.newline),
    {
        (low_byte(self.delimiter), low_byte(self.escape_character), low_byte(self.newline))
    }
}

/// The low 8 bits of a character's code, read as a signed number.
fn low_byte(c: char) -> (r: i8)
    ensures
        r == char_code(c),
{
    let code: u32 = c as u32;
    let low: u8 = (code % 256) as u8;
    #[verifier::truncate]
    (low as i8)
}

/// Where a cursor stands in its result: how many rows it has handed out,
/// and whether the result has been found to hold no more.
///
/// A cursor only moves forward.  Once it has found the result exhausted
/// it stays so, whatever it is told afterwards.
#[derive(Clone, Copy, Debug, PartialEq, Eq)]
pub struct ResultCursor {
    pub rows_read: u64,
    pub exhausted: bool,
}

/// The count after one more row, as far as 64 bits count.
pub open spec fn next_count(rows_read: u64) -> u64 {
    if rows_read < u64::MAX {
        (rows_read + 1) as u64
    } else {
        u64::MAX
    }
}

impl ResultCursor {
    /// A cursor before the first row.
    pub fn new() -> (r: ResultCursor)
        ensures
            r == (ResultCursor { rows_read: 0, exhausted: false }),
    {
        ResultCursor { rows_read: 0, exhausted: false }
    }

    /// Tells whether a row may follow: none does once the result was
    /// found exhausted.
    pub fn has_next(&self) -> (r: bool)
        ensures
            r == !self.exhausted,
    {
        !self.exhausted
    }

    /// Moves on, given the engine's answer to whether the result holds
    /// another row, and tells whether the caller is to fetch that row.
    ///
    /// An exhausted cursor stays as it is and answers no.  Otherwise the
    /// answer is the engine's; with a yes the count of rows grows by one,
    /// as far as 64 bits count, and with a no the cursor is exhausted.
    pub fn advance(&mut self, engine_has_next: bool) -> (fetch: bool)
        ensures
            old(self).exhausted ==> !fetch && *final(self) == *old(self),
            !old(self).exhausted ==> fetch == engine_has_next,
            !old(self).exhausted && engine_has_next ==> !final(self).exhausted,
            !old(self).exhausted && engine_has_next ==> final(self).rows_read == next_count(
                old(self).rows_read,
            ),
            !old(self).exhausted && !engine_has_next ==> final(self).exhausted,
            !old(self).exhausted && !engine_has_next ==> final(self).rows_read == old(
                self,
            ).rows_read,
    {
        if self.exhausted {
            false
        } else if engine_has_next {
            if self.rows_read < u64::MAX {
                self.rows_read = self.rows_read + 1;
            }
            true
        } else {
            self.exhausted = true;
            false
        }
    }
}

/// Decodes the columns of a row, in their order.  The first column that
/// has no counterpart fails the row: no part of a row is handed out.
pub fn decode_row(row: &Vec<ForeignValue>, order: ByteOrder) -> (r: Result<
    Vec<Value>,
    ConversionError,
>)
    requires
        forall|i: int| 0 <= i < row.len() ==> foreign_value_well_formed(#[trigger] row[i]@),
    ensures
        match r {
            Ok(values) => decode_prefix(foreign_values_view(row@), row.len() as nat, order) == Ok::<
                Seq<ValueView>,
                ConversionErrorView,
            >(values_view(values@)),
            Err(e) => decode_prefix(foreign_values_view(row@), row.len() as nat, order) == Err::<
                Seq<ValueView>,
                ConversionErrorView,
            >(e@),
        },
{
    decode_children(row, row.len(), order)
}

/// Tells whether every column of a row can be decoded.
pub fn row_is_well_formed(row: &Vec<ForeignValue>) -> (r: bool)
    ensures
        r == (forall|i: int| 0 <= i < row.len() ==> foreign_value_well_formed(#[trigger] row[i]@)),
{
    let mut i: usize = 0;
    while i < row.len()
        invariant
            i <= row.len(),
            forall|j: int| 0 <= j < i ==> foreign_value_well_formed(#[trigger] row[j]@),
        decreases row.len() - i,
    {
        if !row[i].is_well_formed() {
            return false;
        }
        i += 1;
    }
    true
}

/// Reads the types of the columns of a result, in their order.
pub fn decode_column_types(types: &Vec<ForeignType>) -> (r: Vec<LogicalType>)
    requires
        forall|i: int| 0 <= i < types.len() ==> foreign_type_well_formed(#[trigger] types[i]@),
    ensures
        r.len() == types.len(),
        forall|i: int| 0 <= i < types.len() ==> (#[trigger] r[i])@ == type_from_foreign(types[i]@),
{
    let mut out: Vec<LogicalType> = Vec::new();
    let mut i: usize = 0;
    while i < types.len()
        invariant
            i <= types.len(),
            out.len() == i,
            forall|j: int| 0 <= j < types.len() ==> foreign_type_well_formed(#[trigger] types[j]@),
            forall|j: int| 0 <= j < i ==> (#[trigger] out[j])@ == type_from_foreign(types[j]@),
        decreases types.len() - i,
    {
        out.push(LogicalType::from_foreign(&types[i]));
        i += 1;
    }
    out
}

} // verus!
