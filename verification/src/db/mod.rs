//! The data store: the document's operations and the errors they report.
//!
//! [`JiraDatabase`] carries out each operation as one read of the whole
//! document, one change in memory and one write of the whole document. Where
//! the document is kept is left to a [`Database`].
use crate::db::model::reply;
use crate::models::{DBState, DBStateView, Epic, EpicView, Status, Story, ID};
use vstd::prelude::*;

pub mod laws;
pub mod model;
pub mod state;
pub mod test_utils;

verus! {

/// Why an operation of the store failed.
#[derive(Debug, Clone, Copy, PartialEq, Eq, Structural)]
pub enum DbError {
    /// The document could not be read or written.
    IOError,
    /// What was read is no document.
    ParseError,
    /// No epic has the id that was given.
    EpicNotFound,
    /// The epic that was given lists no story with the id that was given.
    StoryNotFound,
}

impl DbError {
    /// Whether the error came from where the document is kept, not from what
    /// the document holds.
    pub open spec fn is_storage(self) -> bool {
        self is IOError || self is ParseError
    }

    /// The text of the error as it is shown to the user.
    pub open spec fn text(self) -> Seq<char> {
        match self {
            DbError::IOError => "could not read or write the database"@,
            DbError::ParseError => "the database is not a valid document"@,
            DbError::EpicNotFound => "could not find epic in database!"@,
            DbError::StoryNotFound => "could not find story in database!"@,
        }
    }

    /// Returns the text of the error as it is shown to the user.
    pub fn to_string(&self) -> (text: String)
        ensures
            text@ == self.text(),
    {
        match self {
            DbError::IOError => "could not read or write the database".to_owned(),
            DbError::ParseError => "the database is not a valid document".to_owned(),
            DbError::EpicNotFound => "could not find epic in database!".to_owned(),
            DbError::StoryNotFound => "could not find story in database!".to_owned(),
        }
    }
}

/// A place that keeps one document.
///
/// The store reads the whole document before each operation and writes the
/// whole document after each change. What it proves of itself rests on the
/// contract of the two methods: that a read gives the document that is kept,
/// and that a write that succeeds makes the document that was handed in the
/// one that is kept. This takes for granted that nobody else writes to the
/// same place in the meantime. Of [`test_utils::MockDB`] the contract is
/// proved; of a place outside of this library it is taken on trust, and such
/// a place names [`Database::document`] without ever being asked for it.
pub trait Database {
    /// The document that is kept. It is a notion of the contracts and is never
    /// computed.
    spec fn document(&self) -> DBStateView;

    /// Reads the document. A failure is a [`DbError::IOError`] where the
    /// place could not be read and a [`DbError::ParseError`] where what was
    /// read is no document.
    fn read_db(&self) -> (r: Result<DBState, DbError>)
        ensures
            match r {
                Ok(state) => state@ == self.document(),
                Err(e) => e.is_storage(),
            },
    ;

    /// Replaces the document. A failure is a [`DbError::IOError`]; nothing
    /// is known of what is kept after one.
    fn write_db(&mut self, state: &DBState) -> (r: Result<(), DbError>)
        ensures
            match r {
                Ok(_) => final(self).document() == state@,
                Err(e) => e is IOError,
            },
    ;
}

/// The data store over a place that keeps the document.
pub struct JiraDatabase<D: Database> {
    pub database: D,
}

impl<D: Database> JiraDatabase<D> {
    /// Makes the store over a place that keeps the document.
    pub fn new(database: D) -> (db: Self)
        ensures
            db.database == database,
    {
        JiraDatabase { database }
    }

    /// The document that the store works on.
    pub open spec fn document(&self) -> DBStateView {
        self.database.document()
    }

    /// Reads the document.
    pub fn read_db(&self) -> (r: Result<DBState, DbError>)
        ensures
            match r {
                Ok(state) => state@ == self.document(),
                Err(e) => e.is_storage(),
            },
    {
        self.database.read_db()
    }

    /// Stores a new epic, open and without stories, under the next id and
    /// returns that id. When the call fails, the place that keeps the
    /// document failed.
    pub fn create_epic(&mut self, epic: Epic) -> (r: Result<ID, DbError>)
        requires
            old(self).document().has_next_id(),
        ensures
            settled(
                old(self).document(),
                Ok(old(self).document().create_epic(epic.name@, epic.description@)),
                without_id(r),
                final(self).document(),
            ),
            r matches Ok(id) ==> id == old(self).document().next_id(),
            r matches Ok(id) ==> final(self).document().epics[id] == EpicView::fresh(
                epic.name@,
                epic.description@,
            ),
            old(self).document().wf() && r is Ok ==> final(self).document().wf(),
    {
        let mut state = match self.database.read_db() {
            Ok(state) => state,
            Err(e) => { return Err(e); },
        };
        let id = state.create_epic(epic);
        match self.database.write_db(&state) {
            Ok(_) => Ok(id),
            Err(e) => Err(e),
        }
    }

    /// Stores a new story under the next id, lists it last in its epic and
    /// returns the id. Without such an epic the call fails with
    /// [`DbError::EpicNotFound`] and the document stays as it is. Any other
    /// failure is one of the place that keeps the document.
    pub fn create_story(&mut self, story: Story, epic_id: ID) -> (r: Result<ID, DbError>)
        requires
            old(self).document().epics.contains_key(epic_id) ==> old(
                self,
            ).document().has_next_id(),
        ensures
            settled(
                old(self).document(),
                old(self).document().create_story(story@, epic_id),
                without_id(r),
                final(self).document(),
            ),
            r matches Ok(id) ==> id == old(self).document().next_id(),
            old(self).document().wf() && r is Ok ==> final(self).document().wf(),
    {
        let mut state = match self.database.read_db() {
            Ok(state) => state,
            Err(e) => { return Err(e); },
        };
        let id = match state.create_story(story, epic_id) {
            Ok(id) => id,
            Err(e) => { return Err(e); },
        };
        match self.database.write_db(&state) {
            Ok(_) => Ok(id),
            Err(e) => Err(e),
        }
    }

    /// Removes an epic and every story that it lists. Without such an epic
    /// the call fails with [`DbError::EpicNotFound`] and the document stays as
    /// it is. Any other failure is one of the place that keeps the document.
    pub fn delete_epic(&mut self, epic_id: ID) -> (r: Result<(), DbError>)
        ensures
            settled(
                old(self).document(),
                old(self).document().delete_epic(epic_id),
                r,
                final(self).document(),
            ),
            old(self).document().wf() && r is Ok ==> final(self).document().wf(),
    {
        let mut state = match self.database.read_db() {
            Ok(state) => state,
            Err(e) => { return Err(e); },
        };
        match state.delete_epic(epic_id) {
            Ok(_) => {},
            Err(e) => { return Err(e); },
        };
        self.database.write_db(&state)
    }

    /// Removes a story and strikes it from the list of its epic. Without such
    /// an epic the call fails with [`DbError::EpicNotFound`], with an epic
    /// that does not list the story with [`DbError::StoryNotFound`]; either
    /// way the document stays as it is. Any other failure is one of the place
    /// that keeps the document.
    pub fn delete_story(&mut self, epic_id: ID, story_id: ID) -> (r: Result<(), DbError>)
        ensures
            settled(
                old(self).document(),
                old(self).document().delete_story(epic_id, story_id),
                r,
                final(self).document(),
            ),
            old(self).document().wf() && r is Ok ==> final(self).document().wf(),
    {
        let mut state = match self.database.read_db() {
            Ok(state) => state,
            Err(e) => { return Err(e); },
        };
        match state.delete_story(epic_id, story_id) {
            Ok(_) => {},
            Err(e) => { return Err(e); },
        };
        self.database.write_db(&state)
    }

    /// Gives an epic another status. Without such an epic the call fails with
    /// [`DbError::EpicNotFound`] and the document stays as it is. Any other
    /// failure is one of the place that keeps the document.
    pub fn update_epic_status(&mut self, epic_id: ID, status: Status) -> (r: Result<(), DbError>)
        ensures
            settled(
                old(self).document(),
                old(self).document().update_epic_status(epic_id, status),
                r,
                final(self).document(),
            ),
            old(self).document().wf() && r is Ok ==> final(self).document().wf(),
    {
        let mut state = match self.database.read_db() {
            Ok(state) => state,
            Err(e) => { return Err(e); },
        };
        match state.update_epic_status(epic_id, status) {
            Ok(_) => {},
            Err(e) => { return Err(e); },
        };
        self.database.write_db(&state)
    }

    /// Gives a story another status. Without such a story the call fails with
    /// [`DbError::StoryNotFound`] and the document stays as it is. Any other
    /// failure is one of the place that keeps the document.
    pub fn update_story_status(&mut self, story_id: ID, status: Status) -> (r: Result<
        (),
        DbError,
    >)
        ensures
            settled(
                old(self).document(),
                old(self).document().update_story_status(story_id, status),
                r,
                final(self).document(),
            ),
            old(self).document().wf() && r is Ok ==> final(self).document().wf(),
    {
        let mut state = match self.database.read_db() {
            Ok(state) => state,
            Err(e) => { return Err(e); },
        };
        match state.update_story_status(story_id, status) {
            Ok(_) => {},
            Err(e) => { return Err(e); },
        };
        self.database.write_db(&state)
    }
}

/// What a call that returns an id says of its success alone.
pub open spec fn without_id(r: Result<ID, DbError>) -> Result<(), DbError> {
    match r {
        Ok(_) => Ok(()),
        Err(e) => Err(e),
    }
}

/// How a call of the store on a document ended, given what the operation makes
/// of that document: in success with the new document kept; in the operation's
/// own error with the old document kept; or in a failure of the place that
/// keeps the document. After a failure to read the old document is kept;
/// after a failure to write nothing is known of what is kept.
pub open spec fn settled(
    before: DBStateView,
    outcome: Result<DBStateView, DbError>,
    r: Result<(), DbError>,
    kept: DBStateView,
) -> bool {
    match r {
        Ok(_) => outcome == Ok::<DBStateView, DbError>(kept),
        Err(e) => if e.is_storage() {
            e is ParseError ==> kept == before
        } else {
            r == reply(outcome) && kept == before
        },
    }
}

} // verus!
