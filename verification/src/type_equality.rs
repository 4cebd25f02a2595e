//! When two types are the same type.

use vstd::prelude::*;
use vstd::std_specs::cmp::PartialEqSpecImpl;
use crate::logical_type::{named_types_view, LogicalType};

verus! {

/// Tells whether two lists of named types have the same names and the
/// same types in the same order.
fn same_named_types(a: &Vec<(String, LogicalType)>, b: &Vec<(String, LogicalType)>) -> (r: bool)
    ensures
        r == (named_types_view(a@) == named_types_view(b@)),
    decreases a,
{
    if a.len() != b.len() {
        assert(named_types_view(a@).len() != named_types_view(b@).len());
        return false;
    }
    let mut i: usize = 0;
    while i < a.len()
        invariant
            i <= a.len(),
            a.len() == b.len(),
            forall|j: int|
                0 <= j < i ==> #[trigger] named_types_view(a@)[j] == named_types_view(b@)[j],
        decreases a.len() - i,
    {
        if a[i].0 != b[i].0 || !same_type(&a[i].1, &b[i].1) {
            assert(named_types_view(a@)[i as int] != named_types_view(b@)[i as int]);
            return false;
        }
        i += 1;
    }
    assert(named_types_view(a@) =~= named_types_view(b@));
    true
}

/// Tells whether two types are the same: of the same kind, with the same
/// element types and element count, and with the same named types in the
/// same order.
fn same_type(a: &LogicalType, b: &LogicalType) -> (r: bool)
    ensures
        r == (a@ == b@),
    decreases a,
{
    match (a, b) {
        (LogicalType::List { child_type: x }, LogicalType::List { child_type: y }) => same_type(
            x,
            y,
        ),
        (
            LogicalType::Array { child_type: x, num_elements: n },
            LogicalType::Array { child_type: y, num_elements: m },
        ) => *n == *m && same_type(x, y),
        (LogicalType::Struct { fields: x }, LogicalType::Struct { fields: y }) => {
            proof {
                a.lemma_struct_view();
                b.lemma_struct_view();
            }
            assert(decreases_to!(a => a->Struct_fields));
            same_named_types(x, y)
        },
        (
            LogicalType::MapOf { key_type: k, value_type: v },
            LogicalType::MapOf { key_type: l, value_type: w },
        ) => same_type(k, l) && same_type(v, w),
        (LogicalType::Union { types: x }, LogicalType::Union { types: y }) => {
            proof {
                a.lemma_union_view();
                b.lemma_union_view();
            }
            assert(decreases_to!(a => a->Union_types));
            same_named_types(x, y)
        },
        _ => a.id() == b.id() && !matches!(
            a,
            LogicalType::List { .. } | LogicalType::Array { .. } | LogicalType::Struct { .. }
                | LogicalType::MapOf { .. } | LogicalType::Union { .. }
        ),
    }
}

impl PartialEq for LogicalType {
    /// Two types are equal if and only if they are of the same kind and
    /// all that they are made of is equal in turn, the fields of a struct
    /// and the alternatives of a union in their order.
    fn eq(&self, other: &LogicalType) -> (r: bool) {
        same_type(self, other)
    }
}

impl PartialEqSpecImpl for LogicalType {
    open spec fn obeys_eq_spec() -> bool {
        true
    }

    open spec fn eq_spec(&self, other: &LogicalType) -> bool {
        self@ == other@
    }
}

impl Eq for LogicalType {

}

} // verus!
