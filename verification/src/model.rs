//! The model registry: scalar values, field descriptors, field selections,
//! models with their primary identifier, selection results and relation fields.

use vstd::prelude::*;

verus! {

/// A scalar value carried by write arguments and selection results.
#[derive(Debug, PartialEq)]
pub enum PrismaValue {
    Null,
    Boolean(bool),
    Int(i64),
    Text(String),
    /// A timestamp, in milliseconds.
    DateTime(u64),
}

/// Mathematical shape of a [`PrismaValue`].
pub enum ValueView {
    Null,
    Boolean(bool),
    Int(int),
    Text(Seq<char>),
    DateTime(int),
}

impl View for PrismaValue {
    type V = ValueView;

    open spec fn view(&self) -> ValueView {
        match self {
            PrismaValue::Null => ValueView::Null,
            PrismaValue::Boolean(b) => ValueView::Boolean(*b),
            PrismaValue::Int(i) => ValueView::Int(*i as int),
            PrismaValue::Text(s) => ValueView::Text(s@),
            PrismaValue::DateTime(t) => ValueView::DateTime(*t as int),
        }
    }
}

impl Clone for PrismaValue {
    fn clone(&self) -> (res: Self)
        ensures
            res@ == self@,
    {
        match self {
            PrismaValue::Null => PrismaValue::Null,
            PrismaValue::Boolean(b) => PrismaValue::Boolean(*b),
            PrismaValue::Int(i) => PrismaValue::Int(*i),
            PrismaValue::Text(s) => PrismaValue::Text(s.clone()),
            PrismaValue::DateTime(t) => PrismaValue::DateTime(*t),
        }
    }
}

/// A field descriptor: schema name, datasource (database) name, and whether
/// the field is an auto-managed timestamp refreshed on every update.
#[derive(Debug, PartialEq)]
pub struct Field {
    pub name: String,
    pub db_name: String,
    pub is_updated_at: bool,
}

/// Mathematical shape of a [`Field`].
pub struct FieldView {
    pub name: Seq<char>,
    pub db_name: Seq<char>,
    pub is_updated_at: bool,
}

impl View for Field {
    type V = FieldView;

    open spec fn view(&self) -> FieldView {
        FieldView { name: self.name@, db_name: self.db_name@, is_updated_at: self.is_updated_at }
    }
}

impl Clone for Field {
    fn clone(&self) -> (res: Self)
        ensures
            res@ == self@,
    {
        Field { name: self.name.clone(), db_name: self.db_name.clone(), is_updated_at: self.is_updated_at }
    }
}

/// Decides equality of two values at the level of their views.
pub fn value_eq(a: &PrismaValue, b: &PrismaValue) -> (r: bool)
    ensures
        r == (a@ == b@),
{
    match a {
        PrismaValue::Null => match b {
            PrismaValue::Null => true,
            _ => false,
        },
        PrismaValue::Boolean(x) => match b {
            PrismaValue::Boolean(y) => *x == *y,
            _ => false,
        },
        PrismaValue::Int(x) => match b {
            PrismaValue::Int(y) => *x == *y,
            _ => false,
        },
        PrismaValue::Text(x) => match b {
            PrismaValue::Text(y) => *x == *y,
            _ => false,
        },
        PrismaValue::DateTime(x) => match b {
            PrismaValue::DateTime(y) => *x == *y,
            _ => false,
        },
    }
}

/// Decides equality of two field descriptors at the level of their views.
pub fn field_eq(a: &Field, b: &Field) -> (r: bool)
    ensures
        r == (a@ == b@),
{
    a.name == b.name && a.db_name == b.db_name && a.is_updated_at == b.is_updated_at
}

/// An ordered set of fields of one model.
#[derive(Debug, PartialEq)]
pub struct FieldSelection {
    pub fields: Vec<Field>,
}

impl View for FieldSelection {
    type V = Seq<FieldView>;

    open spec fn view(&self) -> Seq<FieldView> {
        self.fields@.map_values(|f: Field| f@)
    }
}

/// Set containment over field identities, ignoring order.
pub open spec fn spec_superset(a: Seq<FieldView>, b: Seq<FieldView>) -> bool {
    forall|i: int| 0 <= i < b.len() ==> a.contains(#[trigger] b[i])
}

pub(crate) fn clone_field_vec(v: &Vec<Field>) -> (res: Vec<Field>)
    ensures
        res@.map_values(|f: Field| f@) == v@.map_values(|f: Field| f@),
{
    let mut out: Vec<Field> = Vec::new();
    let mut i: usize = 0;
    while i < v.len()
        invariant
            i <= v.len(),
            out@.len() == i,
            forall|j: int| 0 <= j < i ==> out@[j]@ == v@[j]@,
        decreases v.len() - i,
    {
        out.push(v[i].clone());
        i += 1;
    }
    proof {
        assert(out@.map_values(|f: Field| f@) =~= v@.map_values(|f: Field| f@));
    }
    out
}

impl Clone for FieldSelection {
    fn clone(&self) -> (res: Self)
        ensures
            res@ == self@,
    {
        FieldSelection { fields: clone_field_vec(&self.fields) }
    }
}

impl FieldSelection {
    /// Whether this selection contains the given field.
    pub fn contains_field(&self, f: &Field) -> (r: bool)
        ensures
            r == self@.contains(f@),
    {
        let mut i: usize = 0;
        let mut found: bool = false;
        while i < self.fields.len()
            invariant
                i <= self.fields.len(),
                found == exists|j: int| 0 <= j < i && self.fields@[j]@ == f@,
            decreases self.fields.len() - i,
        {
            if field_eq(&self.fields[i], f) {
                found = true;
            }
            i += 1;
        }
        proof {
            if found {
                let j = choose|j: int| 0 <= j < self.fields@.len() && self.fields@[j]@ == f@;
                assert(self@[j] == f@);
            }
            if self@.contains(f@) {
                let j = choose|j: int| 0 <= j < self@.len() && self@[j] == f@;
                assert(self.fields@[j]@ == f@);
            }
        }
        found
    }

    /// Whether this selection is a superset of `other`, over field identities
    /// and ignoring order.
    pub fn is_superset_of(&self, other: &FieldSelection) -> (r: bool)
        ensures
            r == spec_superset(self@, other@),
    {
        let mut i: usize = 0;
        let mut all: bool = true;
        while i < other.fields.len()
            invariant
                i <= other.fields.len(),
                all == forall|j: int| 0 <= j < i ==> self@.contains(#[trigger] other.fields@[j]@),
            decreases other.fields.len() - i,
        {
            if !self.contains_field(&other.fields[i]) {
                all = false;
            }
            i += 1;
        }
        proof {
            if all {
                assert forall|j: int| 0 <= j < other@.len() implies self@.contains(#[trigger] other@[j]) by {
                    assert(other@[j] == other.fields@[j]@);
                    assert(self@.contains(other.fields@[j]@));
                }
            } else {
                let j = choose|j: int|
                    0 <= j < other.fields@.len() && !self@.contains(#[trigger] other.fields@[j]@);
                assert(other@[j] == other.fields@[j]@);
                assert(!self@.contains(other@[j]));
            }
        }
        all
    }

    /// Decides equality with `other` at the level of views: same fields in
    /// the same order.
    pub fn selection_eq(&self, other: &FieldSelection) -> (r: bool)
        ensures
            r == (self@ == other@),
    {
        if self.fields.len() != other.fields.len() {
            proof {
                assert(self@.len() == self.fields@.len());
                assert(other@.len() == other.fields@.len());
            }
            return false;
        }
        let mut i: usize = 0;
        let mut eq: bool = true;
        while i < self.fields.len()
            invariant
                i <= self.fields.len(),
                self.fields.len() == other.fields.len(),
                eq == forall|j: int| 0 <= j < i ==> self.fields@[j]@ == other.fields@[j]@,
            decreases self.fields.len() - i,
        {
            if !field_eq(&self.fields[i], &other.fields[i]) {
                eq = false;
            }
            i += 1;
        }
        proof {
            if eq {
                assert forall|j: int| 0 <= j < self@.len() implies self@[j] == other@[j] by {
                    assert(self@[j] == self.fields@[j]@);
                    assert(other@[j] == other.fields@[j]@);
                }
                assert(self@ =~= other@);
            } else {
                let j = choose|j: int|
                    0 <= j < self.fields@.len() && #[trigger] self.fields@[j]@ != other.fields@[j]@;
                assert(self@[j] == self.fields@[j]@);
                assert(other@[j] == other.fields@[j]@);
                assert(self@[j] != other@[j]);
            }
        }
        eq
    }
}

/// A named record type with a declared primary identifier: an ordered,
/// non-empty field selection uniquely identifying rows.
#[derive(Debug, PartialEq)]
pub struct Model {
    pub name: String,
    pub fields: Vec<Field>,
    pub primary_identifier: FieldSelection,
}

/// Mathematical shape of a [`Model`].
pub struct ModelView {
    pub name: Seq<char>,
    pub fields: Seq<FieldView>,
    pub primary_identifier: Seq<FieldView>,
}

impl View for Model {
    type V = ModelView;

    open spec fn view(&self) -> ModelView {
        ModelView {
            name: self.name@,
            fields: self.fields@.map_values(|f: Field| f@),
            primary_identifier: self.primary_identifier@,
        }
    }
}

impl Clone for Model {
    fn clone(&self) -> (res: Self)
        ensures
            res@ == self@,
    {
        Model {
            name: self.name.clone(),
            fields: clone_field_vec(&self.fields),
            primary_identifier: self.primary_identifier.clone(),
        }
    }
}

impl Model {
    /// A model is well formed when its primary identifier is non-empty.
    pub open spec fn wf(&self) -> bool {
        self@.primary_identifier.len() > 0
    }

    /// The smallest field selection uniquely identifying a row of this model.
    pub fn primary_identifier(&self) -> (r: FieldSelection)
        ensures
            r@ == self@.primary_identifier,
    {
        self.primary_identifier.clone()
    }
}

/// An ordered sequence of `(field, value)` pairs, as produced by executing a
/// write node.
#[derive(Debug, PartialEq)]
pub struct SelectionResult {
    pub pairs: Vec<(Field, PrismaValue)>,
}

impl View for SelectionResult {
    type V = Seq<(FieldView, ValueView)>;

    open spec fn view(&self) -> Seq<(FieldView, ValueView)> {
        self.pairs@.map_values(|p: (Field, PrismaValue)| (p.0@, p.1@))
    }
}

impl Clone for SelectionResult {
    fn clone(&self) -> (res: Self)
        ensures
            res@ == self@,
    {
        let mut out: Vec<(Field, PrismaValue)> = Vec::new();
        let mut i: usize = 0;
        while i < self.pairs.len()
            invariant
                i <= self.pairs.len(),
                out@.len() == i,
                forall|j: int| 0 <= j < i
                    ==> (#[trigger] out@[j]).0@ == self.pairs@[j].0@ && out@[j].1@ == self.pairs@[j].1@,
            decreases self.pairs.len() - i,
        {
            let (f, v) = &self.pairs[i];
            out.push((f.clone(), v.clone()));
            i += 1;
        }
        proof {
            let m = |p: (Field, PrismaValue)| (p.0@, p.1@);
            assert(out@.map_values(m) =~= self.pairs@.map_values(m));
        }
        SelectionResult { pairs: out }
    }
}

/// A typed edge between two models; `model` is the relation's home model.
#[derive(Debug, PartialEq)]
pub struct RelationField {
    pub name: String,
    pub model: Model,
}

impl RelationField {
    /// The model on which the relation field is defined.
    pub fn model(&self) -> (r: Model)
        ensures
            r@ == self.model@,
    {
        self.model.clone()
    }
}

} // verus!
