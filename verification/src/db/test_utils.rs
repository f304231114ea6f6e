//! A place in memory for the document, for trying the store out.
use crate::db::{Database, DbError};
use crate::models::{DBState, DBStateView};
use vstd::prelude::*;

verus! {

/// Keeps the document in memory. Reading and writing never fail.
pub struct MockDB {
    last_written_state: DBState,
}

impl MockDB {
    /// Makes a place that keeps the empty document.
    pub fn new() -> (db: Self)
        ensures
            db.document() == DBStateView::empty(),
    {
        MockDB { last_written_state: DBState::new() }
    }
}

/// Returns a document equal to the one given.
fn copy_of(state: &DBState) -> (copy: DBState)
    ensures
        copy@ == state@,
{
    DBState {
        last_item_id: state.last_item_id,
        epics: state.epics.clone(),
        stories: state.stories.clone(),
    }
}

impl Database for MockDB {
    closed spec fn document(&self) -> DBStateView {
        self.last_written_state@
    }

    fn read_db(&self) -> (r: Result<DBState, DbError>)
        ensures
            r is Ok,
    {
        Ok(copy_of(&self.last_written_state))
    }

    fn write_db(&mut self, state: &DBState) -> (r: Result<(), DbError>)
        ensures
            r is Ok,
    {
        self.last_written_state = copy_of(state);
        Ok(())
    }
}

} // verus!
