//! Filters over a model's fields and the record filter a planner rewrites
//! after a parent mutation completes.

use vstd::prelude::*;

use crate::model::{Field, PrismaValue, SelectionResult};

verus! {

/// An equality condition on one scalar field.
#[derive(Debug, PartialEq)]
pub struct ScalarCondition {
    pub field: Field,
    pub value: PrismaValue,
}

/// A boolean expression over a model's fields.
#[derive(Debug, PartialEq)]
pub enum Filter {
    /// The filter that matches every row.
    Empty,
    Scalar(ScalarCondition),
    And(Vec<ScalarCondition>),
    Or(Vec<ScalarCondition>),
}

/// A structured filter plus an optional list of already-resolved primary
/// identifier tuples. When `selectors` is present it refines `filter`: the
/// executor AND-combines the two.
#[derive(Debug, PartialEq)]
pub struct RecordFilter {
    pub filter: Filter,
    pub selectors: Option<Vec<SelectionResult>>,
}

impl RecordFilter {
    /// Wraps a bare filter, with no pre-resolved selectors.
    pub fn from_filter(filter: Filter) -> (r: RecordFilter)
        ensures
            r == (RecordFilter { filter, selectors: None }),
    {
        RecordFilter { filter, selectors: None }
    }

    /// Builds the filter that matches exactly the given primary identifier
    /// tuples: the empty filter refined by the selectors.
    pub fn from_selectors(selectors: Vec<SelectionResult>) -> (r: RecordFilter)
        ensures
            r == (RecordFilter { filter: Filter::Empty, selectors: Some(selectors) }),
    {
        RecordFilter { filter: Filter::Empty, selectors: Some(selectors) }
    }
}

} // verus!
