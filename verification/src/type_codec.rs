//! Conversion between [`LogicalType`] and the engine's form of a type.

use vstd::prelude::*;
use crate::foreign::{foreign_members_view, ForeignType, ForeignTypeView};
use crate::logical_type::{named_types_view, LogicalType, LogicalTypeID, LogicalTypeView};

verus! {

/// An engine type that has only an id.
pub open spec fn plain_foreign_type(id: LogicalTypeID) -> ForeignTypeView {
    ForeignTypeView { id, child_type: None, num_elements: 0, fields: Seq::empty() }
}

/// The engine's form of a list of named types: the names stay, each type is
/// converted.
pub open spec fn members_to_foreign(fields: Seq<(Seq<char>, LogicalTypeView)>) -> Seq<
    (Seq<char>, ForeignTypeView),
>
    decreases fields,
{
    Seq::new(
        fields.len(),
        |i: int|
            if 0 <= i < fields.len() {
                (fields[i].0, type_to_foreign(fields[i].1))
            } else {
                (Seq::empty(), plain_foreign_type(LogicalTypeID::ANY))
            },
    )
}

/// The engine's form of a type.
///
/// A union gets a leading member `tag` of type `INT64` before its
/// alternatives; a map gets, as its element type, a struct of the two
/// members `KEY` and `VALUE`.
pub open spec fn type_to_foreign(t: LogicalTypeView) -> ForeignTypeView
    decreases t,
{
    match t {
        LogicalTypeView::List { child_type } => ForeignTypeView {
            id: LogicalTypeID::LIST,
            child_type: Some(Box::new(type_to_foreign(*child_type))),
            num_elements: 0,
            fields: Seq::empty(),
        },
        LogicalTypeView::Array { child_type, num_elements } => ForeignTypeView {
            id: LogicalTypeID::ARRAY,
            child_type: Some(Box::new(type_to_foreign(*child_type))),
            num_elements,
            fields: Seq::empty(),
        },
        LogicalTypeView::Struct { fields } => ForeignTypeView {
            id: LogicalTypeID::STRUCT,
            child_type: None,
            num_elements: 0,
            fields: members_to_foreign(fields),
        },
        LogicalTypeView::MapOf { key_type, value_type } => ForeignTypeView {
            id: LogicalTypeID::MAP,
            child_type: Some(
                Box::new(
                    ForeignTypeView {
                        id: LogicalTypeID::STRUCT,
                        child_type: None,
                        num_elements: 0,
                        fields: seq![
                            ("KEY"@, type_to_foreign(*key_type)),
                            ("VALUE"@, type_to_foreign(*value_type)),
                        ],
                    },
                ),
            ),
            num_elements: 0,
            fields: Seq::empty(),
        },
        LogicalTypeView::Union { types } => ForeignTypeView {
            id: LogicalTypeID::UNION,
            child_type: None,
            num_elements: 0,
            fields: seq![("tag"@, plain_foreign_type(LogicalTypeID::INT64))] + members_to_foreign(
                types,
            ),
        },
        _ => plain_foreign_type(t.id()),
    }
}

/// The named types that the members of an engine type, from member `from`
/// on, stand for.
pub open spec fn members_from_foreign(
    fields: Seq<(Seq<char>, ForeignTypeView)>,
    from: int,
) -> Seq<(Seq<char>, LogicalTypeView)>
    decreases fields,
{
    if 0 <= from <= fields.len() {
        Seq::new(
            (fields.len() - from) as nat,
            |i: int|
                if 0 <= i < fields.len() - from {
                    (fields[i + from].0, type_from_foreign(fields[i + from].1))
                } else {
                    (Seq::empty(), LogicalTypeView::Any)
                },
        )
    } else {
        Seq::empty()
    }
}

/// The type that a well-formed engine type stands for; of another engine
/// type nothing is said.
pub open spec fn type_from_foreign(f: ForeignTypeView) -> LogicalTypeView
    decreases f,
{
    match f.id {
        LogicalTypeID::LIST => match f.child_type {
            Some(child) => LogicalTypeView::List {
                child_type: Box::new(type_from_foreign(*child)),
            },
            None => arbitrary(),
        },
        LogicalTypeID::ARRAY => match f.child_type {
            Some(child) => LogicalTypeView::Array {
                child_type: Box::new(type_from_foreign(*child)),
                num_elements: f.num_elements,
            },
            None => arbitrary(),
        },
        LogicalTypeID::STRUCT => LogicalTypeView::Struct {
            fields: members_from_foreign(f.fields, 0),
        },
        LogicalTypeID::MAP => match f.child_type {
            Some(child) => if child.fields.len() >= 2 {
                LogicalTypeView::MapOf {
                    key_type: Box::new(type_from_foreign(child.fields[0].1)),
                    value_type: Box::new(type_from_foreign(child.fields[1].1)),
                }
            } else {
                arbitrary()
            },
            None => arbitrary(),
        },
        LogicalTypeID::UNION => LogicalTypeView::Union {
            types: if f.fields.len() >= 1 {
                members_from_foreign(f.fields, 1)
            } else {
                Seq::empty()
            },
        },
        _ => LogicalTypeView::simple(f.id),
    }
}

/// Every member from `from` on is well formed.
pub open spec fn members_well_formed(fields: Seq<(Seq<char>, ForeignTypeView)>, from: int) -> bool
    decreases fields,
{
    forall|i: int| from <= i < fields.len() && 0 <= i ==> foreign_type_well_formed(fields[i].1)
}

/// An engine type has the parts that its id calls for: a list and an array
/// have an element type; a map has an element type with at least two
/// members; and the types that are read from it are well formed in turn.
pub open spec fn foreign_type_well_formed(f: ForeignTypeView) -> bool
    decreases f,
{
    match f.id {
        LogicalTypeID::LIST | LogicalTypeID::ARRAY => match f.child_type {
            Some(child) => foreign_type_well_formed(*child),
            None => false,
        },
        LogicalTypeID::STRUCT => members_well_formed(f.fields, 0),
        LogicalTypeID::MAP => match f.child_type {
            Some(child) => child.fields.len() >= 2 && foreign_type_well_formed(child.fields[0].1)
                && foreign_type_well_formed(child.fields[1].1),
            None => false,
        },
        LogicalTypeID::UNION => members_well_formed(f.fields, 1),
        _ => true,
    }
}

/// The engine's form of a struct type has the names of its fields, in
/// their order.
pub proof fn lemma_struct_members(fields: Seq<(Seq<char>, LogicalTypeView)>)
    ensures
        type_to_foreign(LogicalTypeView::Struct { fields }).id == LogicalTypeID::STRUCT,
        type_to_foreign(LogicalTypeView::Struct { fields }).fields.len() == fields.len(),
        forall|i: int|
            0 <= i < fields.len() ==> (#[trigger] type_to_foreign(
                LogicalTypeView::Struct { fields },
            ).fields[i]).0 == fields[i].0,
{
    let members = members_to_foreign(fields);
    assert(members.len() == fields.len());
    assert(type_to_foreign(LogicalTypeView::Struct { fields }).fields == members);
}

/// Converting a list of named types to the engine's form and back gives the
/// list.
pub proof fn lemma_members_round_trip(fields: Seq<(Seq<char>, LogicalTypeView)>)
    ensures
        members_well_formed(members_to_foreign(fields), 0),
        members_from_foreign(members_to_foreign(fields), 0) == fields,
    decreases fields,
{
    let m = members_to_foreign(fields);
    assert forall|i: int| 0 <= i < fields.len() implies foreign_type_well_formed(m[i].1)
        && type_from_foreign(m[i].1) == fields[i].1 by {
        lemma_type_round_trip(fields[i].1);
    }
    assert(members_from_foreign(m, 0) =~= fields);
}

/// Converting a type to the engine's form and back gives the type, with the
/// fields of a struct and the alternatives of a union in their order.
pub proof fn lemma_type_round_trip(t: LogicalTypeView)
    ensures
        foreign_type_well_formed(type_to_foreign(t)),
        type_from_foreign(type_to_foreign(t)) == t,
    decreases t,
{
    match t {
        LogicalTypeView::List { child_type } => {
            lemma_type_round_trip(*child_type);
            assert(type_to_foreign(t).child_type == Some(Box::new(type_to_foreign(*child_type))));
        },
        LogicalTypeView::Array { child_type, num_elements } => {
            lemma_type_round_trip(*child_type);
            assert(type_to_foreign(t).child_type == Some(Box::new(type_to_foreign(*child_type))));
        },
        LogicalTypeView::Struct { fields } => {
            lemma_members_round_trip(fields);
        },
        LogicalTypeView::MapOf { key_type, value_type } => {
            lemma_type_round_trip(*key_type);
            lemma_type_round_trip(*value_type);
        },
        LogicalTypeView::Union { types } => {
            lemma_members_round_trip(types);
            let m = members_to_foreign(types);
            let f = type_to_foreign(t);
            assert forall|i: int| 1 <= i < f.fields.len() implies foreign_type_well_formed(
                f.fields[i].1,
            ) by {
                assert(f.fields[i] == m[i - 1]);
            }
            assert(members_well_formed(f.fields, 1));
            assert(members_from_foreign(f.fields, 1) =~= members_from_foreign(m, 0));
        },
        _ => {
        },
    }
}

/// Appends the engine's form of each named type to `lead`.
fn append_members(lead: Vec<(String, ForeignType)>, fields: &Vec<(String, LogicalType)>) -> (r: Vec<
    (String, ForeignType),
>)
    ensures
        foreign_members_view(r@) == foreign_members_view(lead@) + members_to_foreign(
            named_types_view(fields@),
        ),
    decreases fields,
{
    let mut out = lead;
    let ghost start = foreign_members_view(lead@);
    let ghost want = members_to_foreign(named_types_view(fields@));
    let mut i: usize = 0;
    while i < fields.len()
        invariant
            i <= fields.len(),
            want == members_to_foreign(named_types_view(fields@)),
            foreign_members_view(out@) == start + want.take(i as int),
        decreases fields.len() - i,
    {
        let name = fields[i].0.clone();
        let typ = fields[i].1.to_foreign();
        let ghost before = foreign_members_view(out@);
        out.push((name, typ));
        proof {
            assert(want[i as int] == (name@, typ@));
            assert(foreign_members_view(out@) =~= before.push((name@, typ@)));
            assert(start + want.take(i as int + 1) =~= (start + want.take(i as int)).push(
                want[i as int],
            ));
        }
        i += 1;
    }
    assert(want.take(i as int) =~= want);
    out
}

impl LogicalType {
    /// Builds the engine's form of this type, which is well formed.
    pub fn to_foreign(&self) -> (r: ForeignType)
        ensures
            r@ == type_to_foreign(self@),
            foreign_type_well_formed(r@),
        decreases self,
    {
        proof {
            lemma_type_round_trip(self@);
        }
        match self {
            LogicalType::List { child_type } => {
                let child = child_type.to_foreign();
                let r = ForeignType {
                    id: LogicalTypeID::LIST,
                    child_type: Some(Box::new(child)),
                    num_elements: 0,
                    fields: Vec::new(),
                };
                proof {
                    r.lemma_fields_view();
                    assert(r@.fields =~= Seq::empty());
                }
                r
            },
            LogicalType::Array { child_type, num_elements } => {
                let child = child_type.to_foreign();
                let r = ForeignType {
                    id: LogicalTypeID::ARRAY,
                    child_type: Some(Box::new(child)),
                    num_elements: *num_elements,
                    fields: Vec::new(),
                };
                proof {
                    r.lemma_fields_view();
                    assert(r@.fields =~= Seq::empty());
                }
                r
            },
            LogicalType::Struct { fields } => {
                assert(decreases_to!(self => self->Struct_fields));
                let members = append_members(Vec::new(), fields);
                let r = ForeignType {
                    id: LogicalTypeID::STRUCT,
                    child_type: None,
                    num_elements: 0,
                    fields: members,
                };
                proof {
                    r.lemma_fields_view();
                    self.lemma_struct_view();
                    assert(foreign_members_view(Seq::<(String, ForeignType)>::empty())
                        =~= Seq::empty());
                    assert(r@.fields =~= members_to_foreign(named_types_view(fields@)));
                }
                r
            },
            LogicalType::MapOf { key_type, value_type } => {
                let key = key_type.to_foreign();
                let value = value_type.to_foreign();
                let mut pair: Vec<(String, ForeignType)> = Vec::new();
                pair.push(("KEY".to_owned(), key));
                pair.push(("VALUE".to_owned(), value));
                let entry = ForeignType {
                    id: LogicalTypeID::STRUCT,
                    child_type: None,
                    num_elements: 0,
                    fields: pair,
                };
                let r = ForeignType {
                    id: LogicalTypeID::MAP,
                    child_type: Some(Box::new(entry)),
                    num_elements: 0,
                    fields: Vec::new(),
                };
                proof {
                    entry.lemma_fields_view();
                    r.lemma_fields_view();
                    assert(r@.fields =~= Seq::empty());
                    assert(entry@.fields =~= seq![("KEY"@, key@), ("VALUE"@, value@)]);
                }
                r
            },
            LogicalType::Union { types } => {
                assert(decreases_to!(self => self->Union_types));
                let mut lead: Vec<(String, ForeignType)> = Vec::new();
                lead.push(("tag".to_owned(), ForeignType::plain(LogicalTypeID::INT64)));
                let members = append_members(lead, types);
                let r = ForeignType {
                    id: LogicalTypeID::UNION,
                    child_type: None,
                    num_elements: 0,
                    fields: members,
                };
                proof {
                    r.lemma_fields_view();
                    self.lemma_union_view();
                    assert(foreign_members_view(lead@) =~= seq![
                        ("tag"@, plain_foreign_type(LogicalTypeID::INT64)),
                    ]);
                }
                r
            },
            _ => ForeignType::plain(self.id()),
        }
    }
}

/// Tells whether every member from `from` on is well formed.
fn check_members(fields: &Vec<(String, ForeignType)>, from: usize) -> (r: bool)
    ensures
        r == members_well_formed(foreign_members_view(fields@), from as int),
    decreases fields,
{
    let mut i: usize = from;
    while i < fields.len()
        invariant
            from <= i,
            forall|j: int|
                from <= j < i && j < fields.len() ==> foreign_type_well_formed(
                    foreign_members_view(fields@)[j].1,
                ),
        decreases fields.len() - i,
    {
        if !fields[i].1.is_well_formed() {
            assert(!foreign_type_well_formed(foreign_members_view(fields@)[i as int].1));
            return false;
        }
        i += 1;
    }
    true
}

/// Reads the named types that the members from `from` on stand for.
fn read_members(fields: &Vec<(String, ForeignType)>, from: usize) -> (r: Vec<(String, LogicalType)>)
    requires
        members_well_formed(foreign_members_view(fields@), from as int),
    ensures
        named_types_view(r@) == members_from_foreign(foreign_members_view(fields@), from as int),
    decreases fields,
{
    let mut out: Vec<(String, LogicalType)> = Vec::new();
    if from > fields.len() {
        assert(named_types_view(out@) =~= Seq::empty());
        return out;
    }
    let ghost want = members_from_foreign(foreign_members_view(fields@), from as int);
    let mut i: usize = from;
    while i < fields.len()
        invariant
            from <= i <= fields.len(),
            members_well_formed(foreign_members_view(fields@), from as int),
            want == members_from_foreign(foreign_members_view(fields@), from as int),
            named_types_view(out@) == want.take(i - from),
        decreases fields.len() - i,
    {
        let name = fields[i].0.clone();
        assert(foreign_type_well_formed(foreign_members_view(fields@)[i as int].1));
        let typ = LogicalType::from_foreign(&fields[i].1);
        let ghost before = named_types_view(out@);
        out.push((name, typ));
        proof {
            assert(want[i - from] == (name@, typ@));
            assert(named_types_view(out@) =~= before.push((name@, typ@)));
            assert(want.take(i - from + 1) =~= want.take(i - from).push(want[i - from]));
        }
        i += 1;
    }
    assert(want.take(i - from) =~= want);
    out
}

impl ForeignType {
    /// Tells whether this engine type has the parts that its id calls for.
    pub fn is_well_formed(&self) -> (r: bool)
        ensures
            r == foreign_type_well_formed(self@),
        decreases self,
    {
        proof {
            self.lemma_fields_view();
        }
        match self.id {
            LogicalTypeID::LIST | LogicalTypeID::ARRAY => match &self.child_type {
                Some(child) => child.is_well_formed(),
                None => false,
            },
            LogicalTypeID::STRUCT => check_members(&self.fields, 0),
            LogicalTypeID::MAP => match &self.child_type {
                Some(child) => {
                    proof {
                        child.lemma_fields_view();
                    }
                    child.fields.len() >= 2 && child.fields[0].1.is_well_formed()
                        && child.fields[1].1.is_well_formed()
                },
                None => false,
            },
            LogicalTypeID::UNION => check_members(&self.fields, 1),
            _ => true,
        }
    }
}

impl LogicalType {
    /// Reads the type that a well-formed engine type stands for: the
    /// element type of a list or an array, the members of a struct as its
    /// fields, the first two members of a map's element type as key and
    /// value, the members of a union but the first as its alternatives.
    pub fn from_foreign(f: &ForeignType) -> (r: LogicalType)
        requires
            foreign_type_well_formed(f@),
        ensures
            r@ == type_from_foreign(f@),
        decreases f,
    {
        proof {
            f.lemma_fields_view();
        }
        match f.id {
            LogicalTypeID::LIST => match &f.child_type {
                Some(child) => LogicalType::List {
                    child_type: Box::new(LogicalType::from_foreign(child)),
                },
                None => unreached(),
            },
            LogicalTypeID::ARRAY => match &f.child_type {
                Some(child) => LogicalType::Array {
                    child_type: Box::new(LogicalType::from_foreign(child)),
                    num_elements: f.num_elements,
                },
                None => unreached(),
            },
            LogicalTypeID::STRUCT => {
                let r = LogicalType::Struct { fields: read_members(&f.fields, 0) };
                proof {
                    r.lemma_struct_view();
                }
                r
            },
            LogicalTypeID::MAP => match &f.child_type {
                Some(child) => {
                    proof {
                        child.lemma_fields_view();
                    }
                    LogicalType::MapOf {
                        key_type: Box::new(LogicalType::from_foreign(&child.fields[0].1)),
                        value_type: Box::new(LogicalType::from_foreign(&child.fields[1].1)),
                    }
                },
                None => unreached(),
            },
            LogicalTypeID::UNION => {
                let r = LogicalType::Union { types: read_members(&f.fields, 1) };
                proof {
                    r.lemma_union_view();
                }
                r
            },
            _ => LogicalType::simple(f.id),
        }
    }

    /// Reads the type that an engine type stands for, or `None` where the
    /// engine type lacks a part that its id calls for.
    pub fn try_from_foreign(f: &ForeignType) -> (r: Option<LogicalType>)
        ensures
            r is Some <==> foreign_type_well_formed(f@),
            r matches Some(t) ==> t@ == type_from_foreign(f@),
    {
        if f.is_well_formed() {
            Some(LogicalType::from_foreign(f))
        } else {
            None
        }
    }
}

} // verus!
