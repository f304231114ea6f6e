//! The document of the tracker and the events that its pages produce.
use std::collections::HashMap;
use vstd::prelude::*;

verus! {

/// Identifier of an epic or a story. Both kinds draw from one counter.
pub type ID = u32;

/// What the user asked for on a page.
#[derive(Debug, Clone, Copy, PartialEq, Eq, Structural)]
pub enum Action {
    NavigateToEpicDetail { epic_id: u32 },
    NavigateToStoryDetail { epic_id: u32, story_id: u32 },
    NavigateToPreviousPage,
    CreateEpic,
    UpdateEpicStatus { epic_id: u32 },
    DeleteEpic { epic_id: u32 },
    CreateStory { epic_id: u32 },
    UpdateStoryStatus { story_id: u32 },
    DeleteStory { epic_id: u32, story_id: u32 },
    Exit,
}

/// Progress of an epic or a story.
#[derive(Debug, Clone, Copy, PartialEq, Eq, Structural)]
pub enum Status {
    Open,
    InProgress,
    Resolved,
    Closed,
}

impl Status {
    /// The label of the status as the pages print it.
    pub open spec fn label(self) -> Seq<char> {
        match self {
            Status::Open => "OPEN"@,
            Status::InProgress => "IN PROGRESS"@,
            Status::Resolved => "RESOLVED"@,
            Status::Closed => "CLOSED"@,
        }
    }

    /// Returns the label of the status as the pages print it.
    pub fn to_string(&self) -> (text: String)
        ensures
            text@ == self.label(),
    {
        match self {
            Status::Open => "OPEN".to_owned(),
            Status::InProgress => "IN PROGRESS".to_owned(),
            Status::Resolved => "RESOLVED".to_owned(),
            Status::Closed => "CLOSED".to_owned(),
        }
    }
}

/// A top-level work item that owns an ordered list of stories.
#[derive(Debug, Clone, PartialEq)]
pub struct Epic {
    pub name: String,
    pub description: String,
    pub status: Status,
    pub stories: Vec<ID>,
}

/// The mathematical value of an [`Epic`].
pub struct EpicView {
    pub name: Seq<char>,
    pub description: Seq<char>,
    pub status: Status,
    pub stories: Seq<u32>,
}

impl View for Epic {
    type V = EpicView;

    open spec fn view(&self) -> EpicView {
        EpicView {
            name: self.name@,
            description: self.description@,
            status: self.status,
            stories: self.stories@,
        }
    }
}

impl EpicView {
    /// A fresh epic: open, with no stories.
    pub open spec fn fresh(name: Seq<char>, description: Seq<char>) -> EpicView {
        EpicView { name, description, status: Status::Open, stories: Seq::empty() }
    }
}

impl Epic {
    /// Makes an open epic with no stories.
    pub fn new(name: String, description: String) -> (epic: Self)
        ensures
            epic@ == EpicView::fresh(name@, description@),
    {
        Epic { name, description, status: Status::Open, stories: Vec::new() }
    }

    /// Returns whether the epic lists the story.
    pub fn lists(&self, story_id: ID) -> (found: bool)
        ensures
            found == self@.stories.contains(story_id),
    {
        let mut i: usize = 0;
        while i < self.stories.len()
            invariant
                i <= self.stories.len(),
                forall|j: int| 0 <= j < i ==> self.stories@[j] != story_id,
            decreases self.stories.len() - i,
        {
            if self.stories[i] == story_id {
                return true;
            }
            i += 1;
        }
        false
    }
}

/// A leaf work item. It belongs to one epic.
#[derive(Debug, Clone, PartialEq)]
pub struct Story {
    pub name: String,
    pub description: String,
    pub status: Status,
}

/// The mathematical value of a [`Story`].
pub struct StoryView {
    pub name: Seq<char>,
    pub description: Seq<char>,
    pub status: Status,
}

impl View for Story {
    type V = StoryView;

    open spec fn view(&self) -> StoryView {
        StoryView { name: self.name@, description: self.description@, status: self.status }
    }
}

impl StoryView {
    /// A fresh story: open.
    pub open spec fn fresh(name: Seq<char>, description: Seq<char>) -> StoryView {
        StoryView { name, description, status: Status::Open }
    }
}

impl Story {
    /// Makes an open story.
    pub fn new(name: String, description: String) -> (story: Self)
        ensures
            story@ == StoryView::fresh(name@, description@),
    {
        Story { name, description, status: Status::Open }
    }
}

/// The whole document: the id counter, the epics and the stories.
#[derive(Debug, Clone, PartialEq)]
pub struct DBState {
    pub last_item_id: ID,
    pub epics: HashMap<ID, Epic>,
    pub stories: HashMap<ID, Story>,
}

/// The epics of a document, each taken by its view.
pub open spec fn epics_view(epics: Map<u32, Epic>) -> Map<u32, EpicView> {
    epics.map_values(|epic: Epic| epic@)
}

/// The stories of a document, each taken by its view.
pub open spec fn stories_view(stories: Map<u32, Story>) -> Map<u32, StoryView> {
    stories.map_values(|story: Story| story@)
}

/// The mathematical value of a [`DBState`].
pub struct DBStateView {
    pub last_item_id: u32,
    pub epics: Map<u32, EpicView>,
    pub stories: Map<u32, StoryView>,
}

impl View for DBState {
    type V = DBStateView;

    open spec fn view(&self) -> DBStateView {
        DBStateView {
            last_item_id: self.last_item_id,
            epics: epics_view(self.epics@),
            stories: stories_view(self.stories@),
        }
    }
}

impl DBStateView {
    /// The document before anything was created.
    pub open spec fn empty() -> DBStateView {
        DBStateView { last_item_id: 0, epics: Map::empty(), stories: Map::empty() }
    }

    /// No id in use is above the counter.
    pub open spec fn ids_bounded(self) -> bool {
        &&& forall|id: u32| #[trigger] self.epics.contains_key(id) ==> id <= self.last_item_id
        &&& forall|id: u32| #[trigger] self.stories.contains_key(id) ==> id <= self.last_item_id
    }

    /// No id names both an epic and a story.
    pub open spec fn ids_unshared(self) -> bool {
        forall|id: u32| #[trigger] self.epics.contains_key(id) ==> !self.stories.contains_key(id)
    }

    /// Every story that an epic lists exists.
    pub open spec fn references_resolve(self) -> bool {
        forall|epic_id: u32, story_id: u32|
            self.epics.contains_key(epic_id) && #[trigger] self.epics[epic_id].stories.contains(
                story_id,
            ) ==> self.stories.contains_key(story_id)
    }

    /// No epic lists a story twice.
    pub open spec fn lists_distinct(self) -> bool {
        forall|epic_id: u32| #[trigger]
            self.epics.contains_key(epic_id) ==> self.epics[epic_id].stories.no_duplicates()
    }

    /// No two epics list the same story.
    pub open spec fn single_owner(self) -> bool {
        forall|e1: u32, e2: u32, story_id: u32|
            self.epics.contains_key(e1) && self.epics.contains_key(e2)
                && #[trigger] self.epics[e1].stories.contains(story_id)
                && #[trigger] self.epics[e2].stories.contains(story_id) ==> e1 == e2
    }

    /// Whether some epic lists the story.
    pub open spec fn is_listed(self, story_id: u32) -> bool {
        exists|epic_id: u32|
            self.epics.contains_key(epic_id) && #[trigger] self.epics[epic_id].stories.contains(
                story_id,
            )
    }

    /// Every story is listed by some epic.
    pub open spec fn no_orphans(self) -> bool {
        forall|story_id: u32| #[trigger]
            self.stories.contains_key(story_id) ==> self.is_listed(story_id)
    }

    /// The document is consistent: ids are bounded by the counter and name one
    /// item each, and the stories are exactly what the epics list, each once.
    pub open spec fn wf(self) -> bool {
        &&& self.ids_bounded()
        &&& self.ids_unshared()
        &&& self.references_resolve()
        &&& self.lists_distinct()
        &&& self.single_owner()
        &&& self.no_orphans()
    }
}

impl DBState {
    /// Makes the empty document.
    pub fn new() -> (state: Self)
        ensures
            state@ == DBStateView::empty(),
            state@.wf(),
    {
        let state = DBState { last_item_id: 0, epics: HashMap::new(), stories: HashMap::new() };
        assert(state@.epics =~= Map::empty());
        assert(state@.stories =~= Map::empty());
        state
    }
}

} // verus!
