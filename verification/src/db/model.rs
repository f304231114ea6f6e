//! The operations of the store as functions on the document's value.
use crate::db::DbError;
use crate::models::{DBStateView, EpicView, Status, StoryView};
use vstd::prelude::*;

verus! {

/// A list of stories with every occurrence of one story taken out.
pub open spec fn strip(stories: Seq<u32>, story_id: u32) -> Seq<u32> {
    stories.filter(|id: u32| id != story_id)
}

impl EpicView {
    /// The epic with one more story at the end of its list.
    pub open spec fn with_story(self, story_id: u32) -> EpicView {
        EpicView { stories: self.stories.push(story_id), ..self }
    }

    /// The epic with every occurrence of a story taken out of its list.
    pub open spec fn without_story(self, story_id: u32) -> EpicView {
        EpicView { stories: strip(self.stories, story_id), ..self }
    }

    /// The epic with another status.
    pub open spec fn with_status(self, status: Status) -> EpicView {
        EpicView { status, ..self }
    }
}

impl StoryView {
    /// The story with another status.
    pub open spec fn with_status(self, status: Status) -> StoryView {
        StoryView { status, ..self }
    }
}

/// What the caller of an operation without a value of its own gets back.
pub open spec fn reply(outcome: Result<DBStateView, DbError>) -> Result<(), DbError> {
    match outcome {
        Ok(_) => Ok(()),
        Err(e) => Err(e),
    }
}

impl DBStateView {
    /// The document after an operation: what the operation made of it, or the
    /// document itself where the operation failed.
    pub open spec fn after(self, outcome: Result<DBStateView, DbError>) -> DBStateView {
        match outcome {
            Ok(document) => document,
            Err(_) => self,
        }
    }

    /// Whether the counter can still give an id.
    pub open spec fn has_next_id(self) -> bool {
        self.last_item_id < u32::MAX
    }

    /// The id that the next created item gets.
    pub open spec fn next_id(self) -> u32
        recommends
            self.has_next_id(),
    {
        (self.last_item_id + 1) as u32
    }

    /// The document after a new epic was stored under the next id. Whatever
    /// was handed in, the stored epic is open and lists no story.
    pub open spec fn create_epic(self, name: Seq<char>, description: Seq<char>) -> DBStateView {
        DBStateView {
            last_item_id: self.next_id(),
            epics: self.epics.insert(self.next_id(), EpicView::fresh(name, description)),
            stories: self.stories,
        }
    }

    /// The document after a story was stored under the next id and listed
    /// last by its epic, or the reason why none was stored.
    pub open spec fn create_story(self, story: StoryView, epic_id: u32) -> Result<
        DBStateView,
        DbError,
    > {
        if !self.epics.contains_key(epic_id) {
            Err(DbError::EpicNotFound)
        } else {
            Ok(
                DBStateView {
                    last_item_id: self.next_id(),
                    epics: self.epics.insert(
                        epic_id,
                        self.epics[epic_id].with_story(self.next_id()),
                    ),
                    stories: self.stories.insert(self.next_id(), story),
                },
            )
        }
    }

    /// The document after an epic left it together with the stories it
    /// listed, or the reason why nothing left.
    pub open spec fn delete_epic(self, epic_id: u32) -> Result<DBStateView, DbError> {
        if !self.epics.contains_key(epic_id) {
            Err(DbError::EpicNotFound)
        } else {
            Ok(
                DBStateView {
                    last_item_id: self.last_item_id,
                    epics: self.epics.remove(epic_id),
                    stories: self.stories.remove_keys(self.epics[epic_id].stories.to_set()),
                },
            )
        }
    }

    /// The document after a story left it and the list of its epic, or the
    /// reason why nothing left.
    pub open spec fn delete_story(self, epic_id: u32, story_id: u32) -> Result<
        DBStateView,
        DbError,
    > {
        if !self.epics.contains_key(epic_id) {
            Err(DbError::EpicNotFound)
        } else if !self.epics[epic_id].stories.contains(story_id) {
            Err(DbError::StoryNotFound)
        } else {
            Ok(
                DBStateView {
                    last_item_id: self.last_item_id,
                    epics: self.epics.insert(
                        epic_id,
                        self.epics[epic_id].without_story(story_id),
                    ),
                    stories: self.stories.remove(story_id),
                },
            )
        }
    }

    /// The document after an epic got another status, or the reason why none
    /// did.
    pub open spec fn update_epic_status(self, epic_id: u32, status: Status) -> Result<
        DBStateView,
        DbError,
    > {
        if !self.epics.contains_key(epic_id) {
            Err(DbError::EpicNotFound)
        } else {
            Ok(
                DBStateView {
                    epics: self.epics.insert(epic_id, self.epics[epic_id].with_status(status)),
                    ..self
                },
            )
        }
    }

    /// The document after a story got another status, or the reason why none
    /// did.
    pub open spec fn update_story_status(self, story_id: u32, status: Status) -> Result<
        DBStateView,
        DbError,
    > {
        if !self.stories.contains_key(story_id) {
            Err(DbError::StoryNotFound)
        } else {
            Ok(
                DBStateView {
                    stories: self.stories.insert(
                        story_id,
                        self.stories[story_id].with_status(status),
                    ),
                    ..self
                },
            )
        }
    }
}

} // verus!
