//! The identifier of a node or a relationship.

use vstd::prelude::*;
use vstd::std_specs::cmp::PartialOrdSpecImpl;
use vstd::std_specs::convert::FromSpecImpl;
use std::cmp::Ordering;
use crate::text::{concat2, decimal_text, int_to_string};

verus! {

/// The table and the offset in it of a node or a relationship.
///
/// Identifiers are ordered by table first and by offset within a table.
#[derive(Clone, Copy, Debug, PartialEq, Eq, Structural, Ord, Hash)]
pub struct InternalID {
    pub table_id: u64,
    pub offset: u64,
}

impl PartialOrd for InternalID {
    fn partial_cmp(&self, other: &Self) -> (r: Option<Ordering>) {
        if self.table_id < other.table_id {
            Some(Ordering::Less)
        } else if self.table_id > other.table_id {
            Some(Ordering::Greater)
        } else if self.offset < other.offset {
            Some(Ordering::Less)
        } else if self.offset > other.offset {
            Some(Ordering::Greater)
        } else {
            Some(Ordering::Equal)
        }
    }
}

impl PartialOrdSpecImpl for InternalID {
    open spec fn obeys_partial_cmp_spec() -> bool {
        true
    }

    open spec fn partial_cmp_spec(&self, other: &Self) -> Option<Ordering> {
        if self.table_id < other.table_id {
            Some(Ordering::Less)
        } else if self.table_id > other.table_id {
            Some(Ordering::Greater)
        } else if self.offset < other.offset {
            Some(Ordering::Less)
        } else if self.offset > other.offset {
            Some(Ordering::Greater)
        } else {
            Some(Ordering::Equal)
        }
    }
}

impl From<(u64, u64)> for InternalID {
    /// Reads a pair as an offset followed by a table.
    fn from(value: (u64, u64)) -> (r: InternalID) {
        InternalID { offset: value.0, table_id: value.1 }
    }
}

impl FromSpecImpl<(u64, u64)> for InternalID {
    open spec fn obeys_from_spec() -> bool {
        true
    }

    open spec fn from_spec(value: (u64, u64)) -> InternalID {
        InternalID { offset: value.0, table_id: value.1 }
    }
}

/// The text of an identifier: the table, a colon, the offset.
pub open spec fn internal_id_text(id: InternalID) -> Seq<char> {
    decimal_text(id.table_id as int) + seq![':'] + decimal_text(id.offset as int)
}

impl InternalID {
    /// Tells whether this identifier comes before `other`: in an earlier
    /// table, or in the same table at a smaller offset.
    pub fn precedes(&self, other: &InternalID) -> (r: bool)
        ensures
            r == (self.table_id < other.table_id || (self.table_id == other.table_id
                && self.offset < other.offset)),
    {
        *self < *other
    }

    /// The identifier as text.
    pub fn display(&self) -> (s: String)
        ensures
            s@ == internal_id_text(*self),
    {
        proof {
            reveal_strlit(":");
        }
        let out = int_to_string(self.table_id as i128);
        let out = concat2(out, ":");
        let offset = int_to_string(self.offset as i128);
        let out = concat2(out, offset.as_str());
        assert(":"@ =~= seq![':']);
        out
    }
}

} // verus!
