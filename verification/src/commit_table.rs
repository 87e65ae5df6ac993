use vstd::prelude::*;

use crate::data_table::TableState;

verus! {

/// A commit listing over borrowed cell text: the selection cursor plus the
/// rows it ranges over.
pub struct CommitTable<'a> {
    pub table_state: TableState,
    pub table_items: Vec<Vec<&'a str>>,
}

} // verus!
