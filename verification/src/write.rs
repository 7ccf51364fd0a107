//! The write-query algebra: a closed set of mutation nodes together with the
//! projection query and the filter/selector protocol a planner uses to fuse
//! parent and child mutations.

use vstd::prelude::*;
use vstd::string::StringExecFns;

use crate::args::{inject_pairs, ArgEntry, WriteArgs};
use crate::error::DomainError;
use crate::filter::{Filter, RecordFilter};
use crate::model::{Field, FieldSelection, FieldView, Model, RelationField, SelectionResult, PrismaValue};

verus! {

/// Creates one record and returns the requested projection.
#[derive(Debug)]
pub struct CreateRecord {
    pub name: String,
    pub model: Model,
    pub args: WriteArgs,
    pub selected_fields: FieldSelection,
    pub selection_order: Vec<String>,
}

/// Creates a batch of records in one statement.
#[derive(Debug)]
pub struct CreateManyRecords {
    pub model: Model,
    pub args: Vec<WriteArgs>,
    pub skip_duplicates: bool,
}

/// Updates one record, with an explicitly requested projection.
#[derive(Debug)]
pub struct UpdateRecordWithSelection {
    pub name: String,
    pub model: Model,
    pub record_filter: RecordFilter,
    pub args: WriteArgs,
    pub selected_fields: FieldSelection,
    pub selection_order: Vec<String>,
}

/// Updates one record without a caller-requested projection.
#[derive(Debug)]
pub struct UpdateRecordWithoutSelection {
    pub model: Model,
    pub record_filter: RecordFilter,
    pub args: WriteArgs,
}

/// Updates one record, in exactly one of three lifecycle-terminal modes.
#[derive(Debug)]
pub enum UpdateRecord {
    /// Update with explicitly selected fields that are eventually serialized
    /// as results.
    WithExplicitSelection(UpdateRecordWithSelection),
    /// Update whose projection is the model's primary identifier, used only
    /// to fulfill other nodes' requirements.
    WithImplicitSelection(UpdateRecordWithoutSelection),
    /// Update without any projection; a subsequent read is required to
    /// fulfill other nodes' requirements.
    WithoutSelection(UpdateRecordWithoutSelection),
}

/// Updates every record matched by the filter.
#[derive(Debug)]
pub struct UpdateManyRecords {
    pub model: Model,
    pub record_filter: RecordFilter,
    pub args: WriteArgs,
}

/// Deletes one record; the filter may still be absent when the planner has
/// not resolved it yet.
#[derive(Debug)]
pub struct DeleteRecord {
    pub model: Model,
    pub record_filter: Option<RecordFilter>,
}

/// Deletes every record matched by the filter.
#[derive(Debug)]
pub struct DeleteManyRecords {
    pub model: Model,
    pub record_filter: RecordFilter,
}

/// Connects a parent record to a set of child records over a relation field.
#[derive(Debug)]
pub struct ConnectRecords {
    pub parent_id: Option<SelectionResult>,
    pub child_ids: Vec<SelectionResult>,
    pub relation_field: RelationField,
}

/// Disconnects a parent record from a set of child records over a relation
/// field.
#[derive(Debug)]
pub struct DisconnectRecords {
    pub parent_id: Option<SelectionResult>,
    pub child_ids: Vec<SelectionResult>,
    pub relation_field: RelationField,
}

/// A raw query handed through to the connector unchanged.
#[derive(Debug)]
pub struct RawQuery {
    /// Model associated with the raw query, if one is necessary.
    pub model: Option<Model>,
    /// Query arguments and their values.
    pub inputs: Vec<(String, PrismaValue)>,
    /// Hint as to what kind of query is being executed.
    pub query_type: Option<String>,
}

impl RawQuery {
    /// Inputs are keyed by unique argument names.
    pub open spec fn wf(&self) -> bool {
        forall|p: int, q: int|
            0 <= p < q < self.inputs@.len() ==> self.inputs@[p].0@ != self.inputs@[q].0@
    }
}

/// A single native `INSERT … ON CONFLICT … RETURNING` atom: filter, create
/// payload, update payload and read projection fused together.
#[derive(Debug)]
pub struct NativeUpsert {
    pub name: String,
    pub model: Model,
    pub record_filter: RecordFilter,
    pub create: WriteArgs,
    pub update: WriteArgs,
    pub selected_fields: FieldSelection,
    pub selection_order: Vec<String>,
}

impl NativeUpsert {
    /// Fuses the pieces of an upsert into one node.
    pub fn new(
        name: String,
        model: Model,
        record_filter: RecordFilter,
        create: WriteArgs,
        update: WriteArgs,
        selected_fields: FieldSelection,
        selection_order: Vec<String>,
    ) -> (r: NativeUpsert)
        ensures
            r == (NativeUpsert {
                name,
                model,
                record_filter,
                create,
                update,
                selected_fields,
                selection_order,
            }),
    {
        NativeUpsert { name, model, record_filter, create, update, selected_fields, selection_order }
    }
}

/// The projection part of a read query, as consumed by `native_upsert`.
#[derive(Debug)]
pub struct RecordQuery {
    pub selected_fields: FieldSelection,
    pub selection_order: Vec<String>,
}

impl UpdateRecord {
    /// The write arguments of the node, whichever the mode.
    pub open spec fn spec_args(&self) -> WriteArgs {
        match self {
            UpdateRecord::WithExplicitSelection(u) => u.args,
            UpdateRecord::WithImplicitSelection(u) => u.args,
            UpdateRecord::WithoutSelection(u) => u.args,
        }
    }

    /// The owning model of the node, whichever the mode.
    pub open spec fn spec_model(&self) -> Model {
        match self {
            UpdateRecord::WithExplicitSelection(u) => u.model,
            UpdateRecord::WithImplicitSelection(u) => u.model,
            UpdateRecord::WithoutSelection(u) => u.model,
        }
    }

    /// The record filter of the node, whichever the mode.
    pub open spec fn spec_record_filter(&self) -> RecordFilter {
        match self {
            UpdateRecord::WithExplicitSelection(u) => u.record_filter,
            UpdateRecord::WithImplicitSelection(u) => u.record_filter,
            UpdateRecord::WithoutSelection(u) => u.record_filter,
        }
    }

    /// The same node with its record filter replaced; the mode and every
    /// other field are kept.
    pub open spec fn with_record_filter_spec(&self, rf: RecordFilter) -> UpdateRecord {
        match self {
            UpdateRecord::WithExplicitSelection(u) => UpdateRecord::WithExplicitSelection(
                UpdateRecordWithSelection {
                    name: u.name,
                    model: u.model,
                    record_filter: rf,
                    args: u.args,
                    selected_fields: u.selected_fields,
                    selection_order: u.selection_order,
                },
            ),
            UpdateRecord::WithImplicitSelection(u) => UpdateRecord::WithImplicitSelection(
                UpdateRecordWithoutSelection { model: u.model, record_filter: rf, args: u.args },
            ),
            UpdateRecord::WithoutSelection(u) => UpdateRecord::WithoutSelection(
                UpdateRecordWithoutSelection { model: u.model, record_filter: rf, args: u.args },
            ),
        }
    }

    /// The write arguments of the node.
    pub fn args(&self) -> (r: &WriteArgs)
        ensures
            *r == self.spec_args(),
    {
        match self {
            UpdateRecord::WithExplicitSelection(u) => &u.args,
            UpdateRecord::WithImplicitSelection(u) => &u.args,
            UpdateRecord::WithoutSelection(u) => &u.args,
        }
    }

    /// The owning model of the node.
    pub fn model(&self) -> (r: &Model)
        ensures
            *r == self.spec_model(),
    {
        match self {
            UpdateRecord::WithExplicitSelection(u) => &u.model,
            UpdateRecord::WithImplicitSelection(u) => &u.model,
            UpdateRecord::WithoutSelection(u) => &u.model,
        }
    }

    /// The record filter of the node.
    pub fn record_filter(&self) -> (r: &RecordFilter)
        ensures
            *r == self.spec_record_filter(),
    {
        match self {
            UpdateRecord::WithExplicitSelection(u) => &u.record_filter,
            UpdateRecord::WithImplicitSelection(u) => &u.record_filter,
            UpdateRecord::WithoutSelection(u) => &u.record_filter,
        }
    }

    /// A mutable borrow of the record filter.
    pub fn record_filter_mut(&mut self) -> (r: &mut RecordFilter)
        ensures
            *r == old(self).spec_record_filter(),
            *final(self) == old(self).with_record_filter_spec(*final(r)),
    {
        match self {
            UpdateRecord::WithExplicitSelection(u) => &mut u.record_filter,
            UpdateRecord::WithImplicitSelection(u) => &mut u.record_filter,
            UpdateRecord::WithoutSelection(u) => &mut u.record_filter,
        }
    }

    /// The projection the node promises: the explicit selection, the model's
    /// primary identifier in implicit mode, and none at all otherwise.
    pub fn selected_fields(&self) -> (r: Option<FieldSelection>)
        ensures
            match self {
                UpdateRecord::WithExplicitSelection(u) => r matches Some(s) && s@
                    == u.selected_fields@,
                UpdateRecord::WithImplicitSelection(u) => r matches Some(s) && s@
                    == u.model@.primary_identifier,
                UpdateRecord::WithoutSelection(_) => r is None,
            },
    {
        match self {
            UpdateRecord::WithExplicitSelection(u) => Some(u.selected_fields.clone()),
            UpdateRecord::WithImplicitSelection(u) => Some(u.selected_fields()),
            UpdateRecord::WithoutSelection(_) => None,
        }
    }

    /// Replaces the record filter.
    pub fn set_record_filter(&mut self, record_filter: RecordFilter)
        ensures
            *final(self) == old(self).with_record_filter_spec(record_filter),
    {
        match self {
            UpdateRecord::WithExplicitSelection(u) => u.record_filter = record_filter,
            UpdateRecord::WithImplicitSelection(u) => u.record_filter = record_filter,
            UpdateRecord::WithoutSelection(u) => u.record_filter = record_filter,
        }
    }

    /// The filter of the record filter; always present on an update.
    pub fn get_filter(&self) -> (r: Option<&Filter>)
        ensures
            r matches Some(f) && *f == self.spec_record_filter().filter,
    {
        match self {
            UpdateRecord::WithExplicitSelection(u) => Some(&u.record_filter.filter),
            UpdateRecord::WithImplicitSelection(u) => Some(&u.record_filter.filter),
            UpdateRecord::WithoutSelection(u) => Some(&u.record_filter.filter),
        }
    }

    /// Replaces the filter, keeping the selectors.
    pub fn set_filter(&mut self, filter: Filter)
        ensures
            *final(self) == old(self).with_record_filter_spec(
                (RecordFilter {
                    filter,
                    selectors: old(self).spec_record_filter().selectors,
                }),
            ),
    {
        match self {
            UpdateRecord::WithExplicitSelection(u) => u.record_filter.filter = filter,
            UpdateRecord::WithImplicitSelection(u) => u.record_filter.filter = filter,
            UpdateRecord::WithoutSelection(u) => u.record_filter.filter = filter,
        }
    }

    /// Installs pre-resolved primary identifier tuples, keeping the filter.
    pub fn set_selectors(&mut self, selectors: Vec<SelectionResult>)
        ensures
            *final(self) == old(self).with_record_filter_spec(
                (RecordFilter {
                    filter: old(self).spec_record_filter().filter,
                    selectors: Some(selectors),
                }),
            ),
    {
        match self {
            UpdateRecord::WithExplicitSelection(u) => u.record_filter.selectors = Some(selectors),
            UpdateRecord::WithImplicitSelection(u) => u.record_filter.selectors = Some(selectors),
            UpdateRecord::WithoutSelection(u) => u.record_filter.selectors = Some(selectors),
        }
    }
}

impl UpdateRecordWithoutSelection {
    /// In implicit mode the node's projection is the model's primary
    /// identifier.
    pub fn selected_fields(&self) -> (r: FieldSelection)
        ensures
            r@ == self.model@.primary_identifier,
    {
        self.model.primary_identifier()
    }
}

impl UpdateManyRecords {
    /// The filter of the record filter.
    pub fn get_filter(&self) -> (r: Option<&Filter>)
        ensures
            r matches Some(f) && *f == self.record_filter.filter,
    {
        Some(&self.record_filter.filter)
    }

    /// Replaces the filter, keeping the selectors.
    pub fn set_filter(&mut self, filter: Filter)
        ensures
            *final(self) == (UpdateManyRecords {
                record_filter: RecordFilter {
                    filter,
                    selectors: old(self).record_filter.selectors,
                },
                ..*old(self)
            }),
    {
        self.record_filter.filter = filter;
    }

    /// Installs pre-resolved primary identifier tuples, keeping the filter.
    pub fn set_selectors(&mut self, selectors: Vec<SelectionResult>)
        ensures
            *final(self) == (UpdateManyRecords {
                record_filter: RecordFilter {
                    filter: old(self).record_filter.filter,
                    selectors: Some(selectors),
                },
                ..*old(self)
            }),
    {
        self.record_filter.selectors = Some(selectors);
    }
}

impl DeleteManyRecords {
    /// The filter of the record filter.
    pub fn get_filter(&self) -> (r: Option<&Filter>)
        ensures
            r matches Some(f) && *f == self.record_filter.filter,
    {
        Some(&self.record_filter.filter)
    }

    /// Replaces the filter, keeping the selectors.
    pub fn set_filter(&mut self, filter: Filter)
        ensures
            *final(self) == (DeleteManyRecords {
                record_filter: RecordFilter {
                    filter,
                    selectors: old(self).record_filter.selectors,
                },
                ..*old(self)
            }),
    {
        self.record_filter.filter = filter;
    }
}

impl DeleteRecord {
    /// The filter, when a record filter is present.
    pub fn get_filter(&self) -> (r: Option<&Filter>)
        ensures
            match self.record_filter {
                Some(rf) => r matches Some(f) && *f == rf.filter,
                None => r is None,
            },
    {
        match &self.record_filter {
            Some(rf) => Some(&rf.filter),
            None => None,
        }
    }

    /// Replaces the filter; when no record filter existed, a fresh one
    /// wrapping the filter is constructed.
    pub fn set_filter(&mut self, filter: Filter)
        ensures
            final(self).model == old(self).model,
            final(self).record_filter matches Some(rf) && rf.filter == filter && rf.selectors
                == (match old(self).record_filter {
                    Some(r0) => r0.selectors,
                    None => None::<Vec<SelectionResult>>,
                }),
    {
        match &mut self.record_filter {
            Some(rf) => rf.filter = filter,
            None => self.record_filter = Some(RecordFilter::from_filter(filter)),
        }
    }

    /// Installs pre-resolved primary identifier tuples; when no record filter
    /// existed, one matching exactly those tuples is constructed.
    pub fn set_selectors(&mut self, selectors: Vec<SelectionResult>)
        ensures
            final(self).model == old(self).model,
            final(self).record_filter matches Some(rf) && rf.selectors == Some(selectors)
                && rf.filter == (match old(self).record_filter {
                    Some(r0) => r0.filter,
                    None => Filter::Empty,
                }),
    {
        match &mut self.record_filter {
            Some(rf) => rf.selectors = Some(selectors),
            None => self.record_filter = Some(RecordFilter::from_selectors(selectors)),
        }
    }
}

impl CreateManyRecords {
    /// Every element of the batch has unique datasource field names.
    pub open spec fn args_wf(&self) -> bool {
        forall|k: int| 0 <= k < self.args@.len() ==> (#[trigger] self.args@[k]).wf()
    }

    /// Writes the contents of a selection result into every element of the
    /// batch independently: the broadcast of a shared parent identifier.
    pub fn inject_result_into_all(&mut self, result: &SelectionResult)
        requires
            old(self).args_wf(),
        ensures
            final(self).args_wf(),
            final(self).model == old(self).model,
            final(self).skip_duplicates == old(self).skip_duplicates,
            final(self).args@.len() == old(self).args@.len(),
            forall|k: int|
                0 <= k < old(self).args@.len() ==> (#[trigger] final(self).args@[k])@
                    == inject_pairs(old(self).args@[k]@, result@),
    {
        let ghost args0 = self.args@;
        let ghost model0 = self.model;
        let ghost skip0 = self.skip_duplicates;
        let mut out: Vec<WriteArgs> = Vec::new();
        while self.args.len() > 0
            invariant
                self.model == model0,
                self.skip_duplicates == skip0,
                out@.len() + self.args@.len() == args0.len(),
                forall|k: int|
                    0 <= k < self.args@.len() ==> self.args@[k] == args0[out@.len() + k],
                forall|k: int| 0 <= k < self.args@.len() ==> (#[trigger] self.args@[k]).wf(),
                forall|k: int|
                    0 <= k < out@.len() ==> (#[trigger] out@[k]).wf() && out@[k]@ == inject_pairs(
                        args0[k]@,
                        result@,
                    ),
            decreases self.args@.len(),
        {
            let mut wa = self.args.remove(0);
            wa.inject(result);
            out.push(wa);
        }
        self.args = out;
    }
}

/// A write query: the closed algebra of mutations the engine can express.
#[derive(Debug)]
pub enum WriteQuery {
    CreateRecord(CreateRecord),
    CreateManyRecords(CreateManyRecords),
    UpdateRecord(UpdateRecord),
    DeleteRecord(DeleteRecord),
    UpdateManyRecords(UpdateManyRecords),
    DeleteManyRecords(DeleteManyRecords),
    ConnectRecords(ConnectRecords),
    DisconnectRecords(DisconnectRecords),
    ExecuteRaw(RawQuery),
    QueryRaw(RawQuery),
    Upsert(NativeUpsert),
}

/// The result of injecting `r` into the arguments of `q0` and refreshing the
/// model's timestamps at time `t`, observed on `q1`: everything but the
/// arguments is kept.
pub open spec fn inject_post(
    q0: WriteQuery,
    q1: WriteQuery,
    r: Seq<(FieldView, crate::model::ValueView)>,
    t: int,
) -> bool {
    match (q0, q1) {
        (WriteQuery::CreateRecord(a), WriteQuery::CreateRecord(b)) => b.name == a.name && b.model
            == a.model && b.selected_fields == a.selected_fields && b.selection_order
            == a.selection_order && b.args.wf() && b.args@ == crate::args::refresh_map(
            inject_pairs(a.args@, r),
            a.model@.fields,
            t,
        ),
        (WriteQuery::UpdateRecord(a), WriteQuery::UpdateRecord(b)) => update_inject_post(
            a,
            b,
            r,
            t,
        ),
        (WriteQuery::UpdateManyRecords(a), WriteQuery::UpdateManyRecords(b)) => b.model == a.model
            && b.record_filter == a.record_filter && b.args.wf() && b.args@
            == crate::args::refresh_map(inject_pairs(a.args@, r), a.model@.fields, t),
        _ => false,
    }
}

/// `inject_post`, restricted to the three update modes: the mode and every
/// field but the arguments are kept.
pub open spec fn update_inject_post(
    a: UpdateRecord,
    b: UpdateRecord,
    r: Seq<(FieldView, crate::model::ValueView)>,
    t: int,
) -> bool {
    match (a, b) {
        (
            UpdateRecord::WithExplicitSelection(ua),
            UpdateRecord::WithExplicitSelection(ub),
        ) => ub.name == ua.name && ub.model == ua.model && ub.record_filter == ua.record_filter
            && ub.selected_fields == ua.selected_fields && ub.selection_order == ua.selection_order
            && ub.args.wf() && ub.args@ == crate::args::refresh_map(
            inject_pairs(ua.args@, r),
            ua.model@.fields,
            t,
        ),
        (
            UpdateRecord::WithImplicitSelection(ua),
            UpdateRecord::WithImplicitSelection(ub),
        ) => ub.model == ua.model && ub.record_filter == ua.record_filter && ub.args.wf()
            && ub.args@ == crate::args::refresh_map(inject_pairs(ua.args@, r), ua.model@.fields, t),
        (UpdateRecord::WithoutSelection(ua), UpdateRecord::WithoutSelection(ub)) => ub.model
            == ua.model && ub.record_filter == ua.record_filter && ub.args.wf() && ub.args@
            == crate::args::refresh_map(inject_pairs(ua.args@, r), ua.model@.fields, t),
        _ => false,
    }
}

impl WriteQuery {
    /// The raw variants have no model in this context.
    pub open spec fn is_raw(&self) -> bool {
        match self {
            WriteQuery::ExecuteRaw(_) => true,
            WriteQuery::QueryRaw(_) => true,
            _ => false,
        }
    }

    /// The owning model of a non-raw node.
    pub open spec fn spec_model(&self) -> Model {
        match self {
            WriteQuery::CreateRecord(q) => q.model,
            WriteQuery::CreateManyRecords(q) => q.model,
            WriteQuery::UpdateRecord(q) => q.spec_model(),
            WriteQuery::DeleteRecord(q) => q.model,
            WriteQuery::UpdateManyRecords(q) => q.model,
            WriteQuery::DeleteManyRecords(q) => q.model,
            WriteQuery::ConnectRecords(q) => q.relation_field.model,
            WriteQuery::DisconnectRecords(q) => q.relation_field.model,
            WriteQuery::ExecuteRaw(_) => vstd::pervasive::arbitrary(),
            WriteQuery::QueryRaw(_) => vstd::pervasive::arbitrary(),
            WriteQuery::Upsert(q) => q.model,
        }
    }

    /// Well-formedness: every set of write arguments has unique keys, and
    /// every model has a non-empty primary identifier.
    pub open spec fn wf(&self) -> bool {
        match self {
            WriteQuery::CreateRecord(q) => q.args.wf() && q.model.wf(),
            WriteQuery::CreateManyRecords(q) => q.args_wf() && q.model.wf(),
            WriteQuery::UpdateRecord(q) => q.spec_args().wf() && q.spec_model().wf(),
            WriteQuery::DeleteRecord(q) => q.model.wf(),
            WriteQuery::UpdateManyRecords(q) => q.args.wf() && q.model.wf(),
            WriteQuery::DeleteManyRecords(q) => q.model.wf(),
            WriteQuery::ConnectRecords(q) => q.relation_field.model.wf(),
            WriteQuery::DisconnectRecords(q) => q.relation_field.model.wf(),
            WriteQuery::ExecuteRaw(q) => q.wf(),
            WriteQuery::QueryRaw(q) => q.wf(),
            WriteQuery::Upsert(q) => q.create.wf() && q.update.wf() && q.model.wf(),
        }
    }

    /// The variants whose arguments a parent result is injected into.
    pub open spec fn accepts_injection(&self) -> bool {
        match self {
            WriteQuery::CreateRecord(_) => true,
            WriteQuery::UpdateRecord(_) => true,
            WriteQuery::UpdateManyRecords(_) => true,
            _ => false,
        }
    }

    /// The variants that expose `get_filter` and `set_filter`.
    pub open spec fn filter_capable(&self) -> bool {
        match self {
            WriteQuery::UpdateRecord(_) => true,
            WriteQuery::UpdateManyRecords(_) => true,
            WriteQuery::DeleteRecord(_) => true,
            WriteQuery::DeleteManyRecords(_) => true,
            _ => false,
        }
    }

    /// The variants that accept pre-resolved selectors.
    pub open spec fn selector_capable(&self) -> bool {
        match self {
            WriteQuery::UpdateRecord(_) => true,
            WriteQuery::UpdateManyRecords(_) => true,
            WriteQuery::DeleteRecord(_) => true,
            _ => false,
        }
    }

    /// The filter currently installed on a filter-capable node; `None` on a
    /// `DeleteRecord` whose record filter is still absent.
    pub open spec fn spec_filter_of(&self) -> Option<Filter> {
        match self {
            WriteQuery::UpdateRecord(u) => Some(u.spec_record_filter().filter),
            WriteQuery::UpdateManyRecords(u) => Some(u.record_filter.filter),
            WriteQuery::DeleteManyRecords(d) => Some(d.record_filter.filter),
            WriteQuery::DeleteRecord(d) => match d.record_filter {
                Some(rf) => Some(rf.filter),
                None => None,
            },
            _ => None,
        }
    }

    /// The selectors currently installed on a selector-capable node.
    pub open spec fn spec_selectors_of(&self) -> Option<Vec<SelectionResult>> {
        match self {
            WriteQuery::UpdateRecord(u) => u.spec_record_filter().selectors,
            WriteQuery::UpdateManyRecords(u) => u.record_filter.selectors,
            WriteQuery::DeleteRecord(d) => match d.record_filter {
                Some(rf) => rf.selectors,
                None => None,
            },
            _ => None,
        }
    }

    /// The node after `set_filter(f)`: the filter is replaced, the selectors
    /// are kept, and on a `DeleteRecord` without a record filter a fresh one
    /// wrapping `f` is constructed. The identity on filter-incapable nodes.
    pub open spec fn with_filter_spec(&self, f: Filter) -> WriteQuery {
        match self {
            WriteQuery::UpdateRecord(u) => WriteQuery::UpdateRecord(
                u.with_record_filter_spec(
                    RecordFilter { filter: f, selectors: u.spec_record_filter().selectors },
                ),
            ),
            WriteQuery::UpdateManyRecords(u) => WriteQuery::UpdateManyRecords(
                UpdateManyRecords {
                    model: u.model,
                    record_filter: RecordFilter {
                        filter: f,
                        selectors: u.record_filter.selectors,
                    },
                    args: u.args,
                },
            ),
            WriteQuery::DeleteManyRecords(d) => WriteQuery::DeleteManyRecords(
                DeleteManyRecords {
                    model: d.model,
                    record_filter: RecordFilter {
                        filter: f,
                        selectors: d.record_filter.selectors,
                    },
                },
            ),
            WriteQuery::DeleteRecord(d) => WriteQuery::DeleteRecord(
                DeleteRecord {
                    model: d.model,
                    record_filter: Some(
                        RecordFilter {
                            filter: f,
                            selectors: match d.record_filter {
                                Some(rf) => rf.selectors,
                                None => None,
                            },
                        },
                    ),
                },
            ),
            _ => *self,
        }
    }

    /// The node after `set_selectors(xs)`: the selectors are installed, the
    /// filter is kept, and on a `DeleteRecord` without a record filter one
    /// matching exactly the selectors is constructed. The identity on
    /// selector-incapable nodes.
    pub open spec fn with_selectors_spec(&self, xs: Vec<SelectionResult>) -> WriteQuery {
        match self {
            WriteQuery::UpdateRecord(u) => WriteQuery::UpdateRecord(
                u.with_record_filter_spec(
                    RecordFilter {
                        filter: u.spec_record_filter().filter,
                        selectors: Some(xs),
                    },
                ),
            ),
            WriteQuery::UpdateManyRecords(u) => WriteQuery::UpdateManyRecords(
                UpdateManyRecords {
                    model: u.model,
                    record_filter: RecordFilter {
                        filter: u.record_filter.filter,
                        selectors: Some(xs),
                    },
                    args: u.args,
                },
            ),
            WriteQuery::DeleteRecord(d) => WriteQuery::DeleteRecord(
                DeleteRecord {
                    model: d.model,
                    record_filter: Some(
                        RecordFilter {
                            filter: match d.record_filter {
                                Some(rf) => rf.filter,
                                None => Filter::Empty,
                            },
                            selectors: Some(xs),
                        },
                    ),
                },
            ),
            _ => *self,
        }
    }

    /// The owning model of the node; the raw variants have none and fail
    /// with `NotApplicable`.
    pub fn model(&self) -> (r: Result<Model, DomainError>)
        ensures
            self.is_raw() ==> r == Err::<Model, DomainError>(DomainError::NotApplicable),
            !self.is_raw() ==> (r matches Ok(m) && m@ == self.spec_model()@),
    {
        match self {
            WriteQuery::CreateRecord(q) => Ok(q.model.clone()),
            WriteQuery::CreateManyRecords(q) => Ok(q.model.clone()),
            WriteQuery::UpdateRecord(q) => Ok(q.model().clone()),
            WriteQuery::Upsert(q) => Ok(q.model.clone()),
            WriteQuery::DeleteRecord(q) => Ok(q.model.clone()),
            WriteQuery::UpdateManyRecords(q) => Ok(q.model.clone()),
            WriteQuery::DeleteManyRecords(q) => Ok(q.model.clone()),
            WriteQuery::ConnectRecords(q) => Ok(q.relation_field.model()),
            WriteQuery::DisconnectRecords(q) => Ok(q.relation_field.model()),
            WriteQuery::ExecuteRaw(_) => Err(DomainError::NotApplicable),
            WriteQuery::QueryRaw(_) => Err(DomainError::NotApplicable),
        }
    }

    /// Whether the node's post-execution output satisfies the requested
    /// projection. Write operations materialize primary identifier tuples
    /// only, unless an update carries an explicit wider selection.
    pub open spec fn spec_returns(&self, s: Seq<FieldView>) -> bool {
        match self {
            WriteQuery::CreateRecord(q) => q.model@.primary_identifier == s,
            WriteQuery::CreateManyRecords(_) => false,
            WriteQuery::UpdateRecord(UpdateRecord::WithExplicitSelection(u)) => crate::model::spec_superset(
                u.selected_fields@,
                s,
            ),
            WriteQuery::UpdateRecord(UpdateRecord::WithImplicitSelection(u)) => crate::model::spec_superset(
                u.model@.primary_identifier,
                s,
            ),
            WriteQuery::UpdateRecord(UpdateRecord::WithoutSelection(u)) => u.model@.primary_identifier
                == s,
            WriteQuery::DeleteRecord(q) => q.model@.primary_identifier == s,
            WriteQuery::UpdateManyRecords(q) => q.model@.primary_identifier == s,
            WriteQuery::DeleteManyRecords(_) => false,
            WriteQuery::ConnectRecords(_) => false,
            WriteQuery::DisconnectRecords(_) => false,
            WriteQuery::ExecuteRaw(_) => false,
            WriteQuery::QueryRaw(_) => false,
            WriteQuery::Upsert(q) => q.model@.primary_identifier == s,
        }
    }

    /// Decides `spec_returns` for a requested projection.
    pub fn returns_selection(&self, field_selection: &FieldSelection) -> (r: bool)
        ensures
            r == self.spec_returns(field_selection@),
    {
        match self {
            WriteQuery::CreateRecord(q) => q.model.primary_identifier.selection_eq(field_selection),
            WriteQuery::CreateManyRecords(_) => false,
            WriteQuery::UpdateRecord(UpdateRecord::WithExplicitSelection(u)) => u.selected_fields
                .is_superset_of(field_selection),
            WriteQuery::UpdateRecord(UpdateRecord::WithImplicitSelection(u)) => u.model
                .primary_identifier
                .is_superset_of(field_selection),
            WriteQuery::UpdateRecord(UpdateRecord::WithoutSelection(u)) => u.model
                .primary_identifier
                .selection_eq(field_selection),
            WriteQuery::DeleteRecord(q) => q.model.primary_identifier.selection_eq(field_selection),
            WriteQuery::UpdateManyRecords(q) => q.model.primary_identifier.selection_eq(
                field_selection,
            ),
            WriteQuery::DeleteManyRecords(_) => false,
            WriteQuery::ConnectRecords(_) => false,
            WriteQuery::DisconnectRecords(_) => false,
            WriteQuery::ExecuteRaw(_) => false,
            WriteQuery::QueryRaw(_) => false,
            WriteQuery::Upsert(q) => q.model.primary_identifier.selection_eq(field_selection),
        }
    }

    /// Writes a selection result into the write arguments of the underlying
    /// query and refreshes the model's timestamps; a no-op on every variant
    /// that does not accept injection.
    pub fn inject_result_into_args(&mut self, result: &SelectionResult)
        requires
            old(self).wf(),
        ensures
            final(self).wf(),
            !old(self).accepts_injection() ==> *final(self) == *old(self),
            old(self).accepts_injection() ==> exists|t: int|
                inject_post(*old(self), *final(self), result@, t),
    {
        let ghost q0 = *self;
        let ghost mut tw: int = 0;
        match self {
            WriteQuery::CreateRecord(c) => {
                let ghost m1 = inject_pairs(c.args@, result@);
                c.args.inject(result);
                c.args.update_datetimes(&c.model);
                proof {
                    tw = choose|t: int|
                        c.args@ == crate::args::refresh_map(m1, c.model@.fields, t);
                }
            },
            WriteQuery::UpdateRecord(UpdateRecord::WithExplicitSelection(u)) => {
                let ghost m1 = inject_pairs(u.args@, result@);
                u.args.inject(result);
                u.args.update_datetimes(&u.model);
                proof {
                    tw = choose|t: int|
                        u.args@ == crate::args::refresh_map(m1, u.model@.fields, t);
                }
            },
            WriteQuery::UpdateRecord(UpdateRecord::WithImplicitSelection(u)) => {
                let ghost m1 = inject_pairs(u.args@, result@);
                u.args.inject(result);
                u.args.update_datetimes(&u.model);
                proof {
                    tw = choose|t: int|
                        u.args@ == crate::args::refresh_map(m1, u.model@.fields, t);
                }
            },
            WriteQuery::UpdateRecord(UpdateRecord::WithoutSelection(u)) => {
                let ghost m1 = inject_pairs(u.args@, result@);
                u.args.inject(result);
                u.args.update_datetimes(&u.model);
                proof {
                    tw = choose|t: int|
                        u.args@ == crate::args::refresh_map(m1, u.model@.fields, t);
                }
            },
            WriteQuery::UpdateManyRecords(x) => {
                let ghost m1 = inject_pairs(x.args@, result@);
                x.args.inject(result);
                x.args.update_datetimes(&x.model);
                proof {
                    tw = choose|t: int|
                        x.args@ == crate::args::refresh_map(m1, x.model@.fields, t);
                }
            },
            _ => {},
        }
        proof {
            if q0.accepts_injection() {
                assert(inject_post(q0, *self, result@, tw));
            }
        }
    }

    /// Installs pre-resolved selectors on the selector-capable variants; a
    /// no-op elsewhere.
    pub fn set_selectors(&mut self, selectors: Vec<SelectionResult>)
        ensures
            *final(self) == old(self).with_selectors_spec(selectors),
    {
        match self {
            WriteQuery::UpdateManyRecords(x) => x.set_selectors(selectors),
            WriteQuery::UpdateRecord(x) => x.set_selectors(selectors),
            WriteQuery::DeleteRecord(x) => x.set_selectors(selectors),
            _ => {},
        }
    }

    /// The installed filter of a filter-capable node; `NotApplicable` on any
    /// other variant.
    pub fn get_filter(&self) -> (r: Result<Option<&Filter>, DomainError>)
        ensures
            self.filter_capable() ==> (r matches Ok(o) && (match self.spec_filter_of() {
                Some(f) => o matches Some(g) && *g == f,
                None => o is None,
            })),
            !self.filter_capable() ==> r == Err::<Option<&Filter>, DomainError>(
                DomainError::NotApplicable,
            ),
    {
        match self {
            WriteQuery::UpdateRecord(q) => Ok(q.get_filter()),
            WriteQuery::DeleteManyRecords(q) => Ok(q.get_filter()),
            WriteQuery::DeleteRecord(q) => Ok(q.get_filter()),
            WriteQuery::UpdateManyRecords(q) => Ok(q.get_filter()),
            _ => Err(DomainError::NotApplicable),
        }
    }

    /// Replaces the filter of a filter-capable node; `NotApplicable` on any
    /// other variant, which is left unchanged.
    pub fn set_filter(&mut self, filter: Filter) -> (r: Result<(), DomainError>)
        ensures
            old(self).filter_capable() ==> r == Ok::<(), DomainError>(()) && *final(self) == old(
                self,
            ).with_filter_spec(filter),
            !old(self).filter_capable() ==> r == Err::<(), DomainError>(DomainError::NotApplicable)
                && *final(self) == *old(self),
    {
        match self {
            WriteQuery::UpdateRecord(q) => {
                q.set_filter(filter);
                Ok(())
            },
            WriteQuery::DeleteManyRecords(q) => {
                q.set_filter(filter);
                Ok(())
            },
            WriteQuery::DeleteRecord(q) => {
                q.set_filter(filter);
                Ok(())
            },
            WriteQuery::UpdateManyRecords(q) => {
                q.set_filter(filter);
                Ok(())
            },
            _ => Err(DomainError::NotApplicable),
        }
    }

    /// Fuses a filter, a create payload, an update payload and a read
    /// projection into a single native upsert atom.
    pub fn native_upsert(
        name: String,
        model: Model,
        record_filter: RecordFilter,
        create: WriteArgs,
        update: WriteArgs,
        read: RecordQuery,
    ) -> (r: WriteQuery)
        ensures
            r == WriteQuery::Upsert(
                (NativeUpsert {
                    name,
                    model,
                    record_filter,
                    create,
                    update,
                    selected_fields: read.selected_fields,
                    selection_order: read.selection_order,
                }),
            ),
    {
        WriteQuery::Upsert(
            NativeUpsert::new(
                name,
                model,
                record_filter,
                create,
                update,
                read.selected_fields,
                read.selection_order,
            ),
        )
    }
}

/// The comma-joined rendering of a list of names.
pub open spec fn join_spec(parts: Seq<Seq<char>>) -> Seq<char>
    decreases parts.len(),
{
    if parts.len() == 0 {
        Seq::empty()
    } else if parts.len() == 1 {
        parts.last()
    } else {
        join_spec(parts.drop_last()) + ", "@ + parts.last()
    }
}

/// The datasource names bound by a sequence of argument entries, in order.
pub open spec fn arg_keys_of(s: Seq<ArgEntry>) -> Seq<Seq<char>> {
    s.map_values(|e: ArgEntry| e.key@)
}

/// The schema names of a sequence of fields, in order.
pub open spec fn field_names_of(s: Seq<Field>) -> Seq<Seq<char>> {
    s.map_values(|f: Field| f.name@)
}

/// The argument names of a raw query's inputs, in order.
pub open spec fn input_names_of(s: Seq<(String, PrismaValue)>) -> Seq<Seq<char>> {
    s.map_values(|p: (String, PrismaValue)| p.0@)
}

/// The views of a list of strings.
pub open spec fn string_views_of(s: Seq<String>) -> Seq<Seq<char>> {
    s.map_values(|x: String| x@)
}

/// The one-line rendering of a filter: its kind, and for a scalar condition
/// the datasource name it constrains.
pub open spec fn filter_kind_spec(f: Filter) -> Seq<char> {
    match f {
        Filter::Empty => "Empty"@,
        Filter::Scalar(c) => "Scalar("@ + c.field.db_name@ + ")"@,
        Filter::And(_) => "And"@,
        Filter::Or(_) => "Or"@,
    }
}

fn filter_kind(f: &Filter) -> (r: String)
    ensures
        r@ == filter_kind_spec(*f),
{
    match f {
        Filter::Empty => String::from_str("Empty"),
        Filter::Scalar(c) => String::from_str("Scalar(").concat(c.field.db_name.as_str()).concat(
            ")",
        ),
        Filter::And(_) => String::from_str("And"),
        Filter::Or(_) => String::from_str("Or"),
    }
}

fn join_names(v: &Vec<String>) -> (r: String)
    ensures
        r@ == join_spec(string_views_of(v@)),
{
    let mut out = String::new();
    proof {
        assert(out@ =~= join_spec(string_views_of(v@.take(0))));
    }
    let mut i: usize = 0;
    while i < v.len()
        invariant
            i <= v.len(),
            out@ == join_spec(string_views_of(v@.take(i as int))),
        decreases v.len() - i,
    {
        if i > 0 {
            out.append(", ");
        }
        out.append(v[i].as_str());
        proof {
            let parts = string_views_of(v@.take(i as int + 1));
            assert(parts.drop_last() =~= string_views_of(v@.take(i as int)));
            assert(parts.last() == v@[i as int]@);
            assert(out@ =~= join_spec(parts));
        }
        i += 1;
    }
    proof {
        assert(v@.take(v@.len() as int) =~= v@);
    }
    out
}

fn args_key_names(a: &WriteArgs) -> (r: Vec<String>)
    ensures
        string_views_of(r@) == arg_keys_of(a.entries@),
{
    let mut out: Vec<String> = Vec::new();
    let mut i: usize = 0;
    while i < a.entries.len()
        invariant
            i <= a.entries.len(),
            out@.len() == i,
            forall|j: int| 0 <= j < i ==> (#[trigger] out@[j])@ == a.entries@[j].key@,
        decreases a.entries.len() - i,
    {
        out.push(a.entries[i].key.clone());
        i += 1;
    }
    proof {
        assert(string_views_of(out@) =~= arg_keys_of(a.entries@));
    }
    out
}

fn selection_field_names(s: &FieldSelection) -> (r: Vec<String>)
    ensures
        string_views_of(r@) == field_names_of(s.fields@),
{
    let mut out: Vec<String> = Vec::new();
    let mut i: usize = 0;
    while i < s.fields.len()
        invariant
            i <= s.fields.len(),
            out@.len() == i,
            forall|j: int| 0 <= j < i ==> (#[trigger] out@[j])@ == s.fields@[j].name@,
        decreases s.fields.len() - i,
    {
        out.push(s.fields[i].name.clone());
        i += 1;
    }
    proof {
        assert(string_views_of(out@) =~= field_names_of(s.fields@));
    }
    out
}

fn input_key_names(v: &Vec<(String, PrismaValue)>) -> (r: Vec<String>)
    ensures
        string_views_of(r@) == input_names_of(v@),
{
    let mut out: Vec<String> = Vec::new();
    let mut i: usize = 0;
    while i < v.len()
        invariant
            i <= v.len(),
            out@.len() == i,
            forall|j: int| 0 <= j < i ==> (#[trigger] out@[j])@ == v@[j].0@,
        decreases v.len() - i,
    {
        out.push(v[i].0.clone());
        i += 1;
    }
    proof {
        assert(string_views_of(out@) =~= input_names_of(v@));
    }
    out
}

impl WriteQuery {
    /// The write arguments of a node that accepts injection.
    pub open spec fn spec_args_of(&self) -> WriteArgs {
        match self {
            WriteQuery::CreateRecord(c) => c.args,
            WriteQuery::UpdateRecord(u) => u.spec_args(),
            WriteQuery::UpdateManyRecords(u) => u.args,
            _ => vstd::pervasive::arbitrary(),
        }
    }

    /// The stable one-line rendering of a node: its kind, its model's name,
    /// and, where present, its filter, the datasource names its arguments
    /// bind, and the schema names of its projection.
    pub open spec fn display_spec(&self) -> Seq<char> {
        match self {
            WriteQuery::CreateRecord(c) => "CreateRecord(model: "@ + c.model.name@ + ", args: ["@
                + join_spec(arg_keys_of(c.args.entries@)) + "], selection: ["@ + join_spec(
                field_names_of(c.selected_fields.fields@),
            ) + "])"@,
            WriteQuery::CreateManyRecords(c) => "CreateManyRecord(model: "@ + c.model.name@ + ")"@,
            WriteQuery::UpdateRecord(u) => "UpdateRecord(model: "@ + u.spec_model().name@
                + ", filter: "@ + filter_kind_spec(u.spec_record_filter().filter) + ", args: ["@
                + join_spec(arg_keys_of(u.spec_args().entries@)) + "], selection: "@ + (match u {
                UpdateRecord::WithExplicitSelection(x) => "["@ + join_spec(
                    field_names_of(x.selected_fields.fields@),
                ) + "]"@,
                UpdateRecord::WithImplicitSelection(x) => "["@ + join_spec(
                    field_names_of(x.model.primary_identifier.fields@),
                ) + "]"@,
                UpdateRecord::WithoutSelection(_) => "none"@,
            }) + ")"@,
            WriteQuery::DeleteRecord(d) => "DeleteRecord(model: "@ + d.model.name@ + ", filter: "@
                + (match d.record_filter {
                Some(rf) => filter_kind_spec(rf.filter),
                None => "none"@,
            }) + ")"@,
            WriteQuery::UpdateManyRecords(u) => "UpdateManyRecords(model: "@ + u.model.name@
                + ", filter: "@ + filter_kind_spec(u.record_filter.filter) + ", args: ["@
                + join_spec(arg_keys_of(u.args.entries@)) + "])"@,
            WriteQuery::DeleteManyRecords(d) => "DeleteManyRecords(model: "@ + d.model.name@
                + ", filter: "@ + filter_kind_spec(d.record_filter.filter) + ")"@,
            WriteQuery::ConnectRecords(c) => "ConnectRecords(model: "@
                + c.relation_field.model.name@ + ")"@,
            WriteQuery::DisconnectRecords(c) => "DisconnectRecords(model: "@
                + c.relation_field.model.name@ + ")"@,
            WriteQuery::ExecuteRaw(q) => "ExecuteRaw(inputs: ["@ + join_spec(
                input_names_of(q.inputs@),
            ) + "])"@,
            WriteQuery::QueryRaw(q) => "QueryRaw(inputs: ["@ + join_spec(input_names_of(q.inputs@))
                + "])"@,
            WriteQuery::Upsert(n) => "Upsert(model: "@ + n.model.name@ + ", filter: "@
                + filter_kind_spec(n.record_filter.filter) + ", create: ["@ + join_spec(
                arg_keys_of(n.create.entries@),
            ) + "], update: ["@ + join_spec(arg_keys_of(n.update.entries@)) + "], selection: ["@
                + join_spec(field_names_of(n.selected_fields.fields@)) + "])"@,
        }
    }

    /// The one-line rendering used in planner debugging output.
    pub fn display_string(&self) -> (r: String)
        ensures
            r@ == self.display_spec(),
    {
        match self {
            WriteQuery::CreateRecord(c) => {
                let keys = join_names(&args_key_names(&c.args));
                let sel = join_names(&selection_field_names(&c.selected_fields));
                String::from_str("CreateRecord(model: ").concat(c.model.name.as_str()).concat(
                    ", args: [",
                ).concat(keys.as_str()).concat("], selection: [").concat(sel.as_str()).concat("])")
            },
            WriteQuery::CreateManyRecords(c) => String::from_str("CreateManyRecord(model: ").concat(
                c.model.name.as_str(),
            ).concat(")"),
            WriteQuery::UpdateRecord(u) => {
                let keys = join_names(&args_key_names(u.args()));
                let fk = filter_kind(&u.record_filter().filter);
                let head = String::from_str("UpdateRecord(model: ").concat(
                    u.model().name.as_str(),
                ).concat(", filter: ").concat(fk.as_str()).concat(", args: [").concat(
                    keys.as_str(),
                ).concat("], selection: ");
                let sel_part = match u {
                    UpdateRecord::WithExplicitSelection(x) => String::from_str("[").concat(
                        join_names(&selection_field_names(&x.selected_fields)).as_str(),
                    ).concat("]"),
                    UpdateRecord::WithImplicitSelection(x) => String::from_str("[").concat(
                        join_names(&selection_field_names(&x.model.primary_identifier)).as_str(),
                    ).concat("]"),
                    UpdateRecord::WithoutSelection(_) => String::from_str("none"),
                };
                head.concat(sel_part.as_str()).concat(")")
            },
            WriteQuery::DeleteRecord(d) => {
                let prefix = String::from_str("DeleteRecord(model: ").concat(
                    d.model.name.as_str(),
                ).concat(", filter: ");
                match &d.record_filter {
                    Some(rf) => prefix.concat(filter_kind(&rf.filter).as_str()).concat(")"),
                    None => prefix.concat("none").concat(")"),
                }
            },
            WriteQuery::UpdateManyRecords(u) => {
                let keys = join_names(&args_key_names(&u.args));
                let fk = filter_kind(&u.record_filter.filter);
                String::from_str("UpdateManyRecords(model: ").concat(u.model.name.as_str()).concat(
                    ", filter: ",
                ).concat(fk.as_str()).concat(", args: [").concat(keys.as_str()).concat("])")
            },
            WriteQuery::DeleteManyRecords(d) => {
                let fk = filter_kind(&d.record_filter.filter);
                String::from_str("DeleteManyRecords(model: ").concat(d.model.name.as_str()).concat(
                    ", filter: ",
                ).concat(fk.as_str()).concat(")")
            },
            WriteQuery::ConnectRecords(c) => String::from_str("ConnectRecords(model: ").concat(
                c.relation_field.model.name.as_str(),
            ).concat(")"),
            WriteQuery::DisconnectRecords(c) => String::from_str("DisconnectRecords(model: ")
                .concat(c.relation_field.model.name.as_str()).concat(")"),
            WriteQuery::ExecuteRaw(q) => {
                let names = join_names(&input_key_names(&q.inputs));
                String::from_str("ExecuteRaw(inputs: [").concat(names.as_str()).concat("])")
            },
            WriteQuery::QueryRaw(q) => {
                let names = join_names(&input_key_names(&q.inputs));
                String::from_str("QueryRaw(inputs: [").concat(names.as_str()).concat("])")
            },
            WriteQuery::Upsert(n) => {
                let create_keys = join_names(&args_key_names(&n.create));
                let update_keys = join_names(&args_key_names(&n.update));
                let sel = join_names(&selection_field_names(&n.selected_fields));
                let fk = filter_kind(&n.record_filter.filter);
                String::from_str("Upsert(model: ").concat(n.model.name.as_str()).concat(
                    ", filter: ",
                ).concat(fk.as_str()).concat(", create: [").concat(create_keys.as_str()).concat(
                    "], update: [",
                ).concat(update_keys.as_str()).concat("], selection: [").concat(sel.as_str())
                    .concat("])")
            },
        }
    }

    /// The rendering of the node in a DAG dump; the same stable one-line
    /// form as `display_string`.
    pub fn to_graphviz(&self) -> (r: String)
        ensures
            r@ == self.display_spec(),
    {
        self.display_string()
    }
}

/// The three update modes are lifecycle-terminal: replacing the record
/// filter never changes the mode a node was constructed in.
pub proof fn lemma_update_mode_is_terminal(u: UpdateRecord, rf: RecordFilter)
    ensures
        (u.with_record_filter_spec(rf) matches UpdateRecord::WithExplicitSelection(_))
            == (u matches UpdateRecord::WithExplicitSelection(_)),
        (u.with_record_filter_spec(rf) matches UpdateRecord::WithImplicitSelection(_))
            == (u matches UpdateRecord::WithImplicitSelection(_)),
        (u.with_record_filter_spec(rf) matches UpdateRecord::WithoutSelection(_))
            == (u matches UpdateRecord::WithoutSelection(_)),
{
}

/// After a result is injected into an accepting node, every pair of the
/// result whose datasource name no later pair reuses is readable in the
/// node's arguments, and every auto-managed timestamp field of the node's
/// model is bound.
pub proof fn lemma_inject_result_observable(
    q0: WriteQuery,
    q1: WriteQuery,
    r: Seq<(FieldView, crate::model::ValueView)>,
    t: int,
)
    requires
        q0.accepts_injection(),
        inject_post(q0, q1, r, t),
    ensures
        forall|i: int|
            0 <= i < r.len() && (forall|j: int|
                i < j < r.len() ==> (#[trigger] r[j].0).db_name != r[i].0.db_name)
                ==> q1.spec_args_of()@.contains_key((#[trigger] r[i].0).db_name)
                && q1.spec_args_of()@[r[i].0.db_name] == r[i],
        forall|i: int|
            0 <= i < q0.spec_model()@.fields.len() && (#[trigger] q0.spec_model()@.fields[i]).is_updated_at
                ==> q1.spec_args_of()@.contains_key(q0.spec_model()@.fields[i].db_name),
{
    let m0 = q0.spec_args_of()@;
    let fields = q0.spec_model()@.fields;
    assert(q1.spec_args_of()@ == crate::args::refresh_map(inject_pairs(m0, r), fields, t));
    crate::args::lemma_injected_result_readable(m0, r, fields, t);
}

/// Broadcasting a result across a batch leaves every element independently
/// carrying the injected pairs: each pair whose datasource name no later
/// pair reuses is readable in every element of the batch.
pub proof fn lemma_inject_all_observable(
    c0: CreateManyRecords,
    c1: CreateManyRecords,
    r: Seq<(FieldView, crate::model::ValueView)>,
)
    requires
        c1.args@.len() == c0.args@.len(),
        forall|k: int|
            0 <= k < c0.args@.len() ==> (#[trigger] c1.args@[k])@ == inject_pairs(
                c0.args@[k]@,
                r,
            ),
    ensures
        forall|k: int, i: int|
            0 <= k < c1.args@.len() && 0 <= i < r.len() && (forall|j: int|
                i < j < r.len() ==> (#[trigger] r[j].0).db_name != r[i].0.db_name)
                ==> (#[trigger] c1.args@[k])@.contains_key((#[trigger] r[i].0).db_name)
                && c1.args@[k]@[r[i].0.db_name] == r[i],
{
    assert forall|k: int, i: int|
        0 <= k < c1.args@.len() && 0 <= i < r.len() && (forall|j: int|
            i < j < r.len() ==> (#[trigger] r[j].0).db_name != r[i].0.db_name)
        implies (#[trigger] c1.args@[k])@.contains_key((#[trigger] r[i].0).db_name)
        && c1.args@[k]@[r[i].0.db_name] == r[i] by {
        crate::args::lemma_inject_pairs_present(c0.args@[k]@, r, i);
    }
}

/// After `set_filter(f)` on a filter-capable node, the read-back filter is
/// `f`; on a `DeleteRecord` this holds even when the record filter was
/// initially absent.
pub proof fn lemma_set_filter_read_back(q: WriteQuery, f: Filter)
    requires
        q.filter_capable(),
    ensures
        q.with_filter_spec(f).filter_capable(),
        q.with_filter_spec(f).spec_filter_of() == Some(f),
{
}

/// Overwriting a filter leaves no trace of the earlier one: installing `f0`
/// and then `f1` yields the same node as installing `f1` alone, and `f1` is
/// what is read back.
pub proof fn lemma_set_filter_overwrite(q: WriteQuery, f0: Filter, f1: Filter)
    requires
        q.filter_capable(),
    ensures
        q.with_filter_spec(f0).with_filter_spec(f1) == q.with_filter_spec(f1),
        q.with_filter_spec(f0).with_filter_spec(f1).spec_filter_of() == Some(f1),
{
}

/// After `set_selectors(xs)` on a selector-capable node, the selectors read
/// back as `xs`; the filter is preserved when a record filter existed, and a
/// record filter wrapping the empty filter is constructed exactly when it was
/// absent (`DeleteRecord` being the one variant that permits absence).
pub proof fn lemma_set_selectors_read_back(q: WriteQuery, xs: Vec<SelectionResult>)
    requires
        q.selector_capable(),
    ensures
        q.with_selectors_spec(xs).selector_capable(),
        q.with_selectors_spec(xs).spec_selectors_of() == Some(xs),
        q.with_selectors_spec(xs).spec_filter_of() == (match q.spec_filter_of() {
            Some(f) => Some(f),
            None => Some(Filter::Empty),
        }),
{
}

} // verus!
