//! The pages of the tracker: what each shows and what each makes of a line
//! that the user typed.
//!
//! A page shows the document as a list of lines. It turns a trimmed line into
//! an [`Action`], or into none where the line means nothing on that page. A
//! line that names an epic or a story by its id gives an action only if the
//! document holds that id.
use crate::db::{Database, DbError, JiraDatabase};
use crate::models::{Action, DBState, DBStateView, EpicView, StoryView};
use layout::{
    banner, detail_heading, detail_row, epics_heading, lemma_texts_push, list_row, make_banner,
    make_detail_heading, make_detail_row, make_epics_heading, make_list_row,
    make_stories_heading, stories_heading, texts,
};
use listing::{ascending, ascending_ids, lemma_ascending_is_unique, lists_ascending};
use page_helpers::{highlight, highlighted, id_of, parse_id};
use vstd::prelude::*;
use vstd::string::StrSliceExecFns;

pub mod layout;
pub mod listing;
pub mod page_helpers;

verus! {

broadcast use vstd::std_specs::hash::group_hash_axioms;

/// Returns whether the line is the one character given.
fn is_key(input: &str, key: char) -> (b: bool)
    ensures
        b == (input@ == seq![key]),
{
    if input.unicode_len() == 1 {
        let c = input.get_char(0);
        proof {
            if c == key {
                assert(input@ =~= seq![key]);
            } else {
                assert(seq![key][0] == key);
            }
        }
        c == key
    } else {
        proof {
            assert(seq![key].len() == 1);
        }
        false
    }
}

/// The end of a page: two empty lines, then the keys of the page.
pub open spec fn footer(keys: Seq<char>) -> Seq<Seq<char>> {
    seq![Seq::empty(), Seq::empty(), highlighted(keys)]
}

/// Appends the end of a page.
fn push_footer(lines: &mut Vec<String>, keys: &str)
    ensures
        texts(final(lines)@) == texts(old(lines)@) + footer(keys@),
{
    let first = String::new();
    let second = String::new();
    let third = highlight(keys);
    proof {
        lemma_texts_push(lines@, first);
        lemma_texts_push(lines@.push(first), second);
        lemma_texts_push(lines@.push(first).push(second), third);
        assert(texts(lines@).push(first@).push(second@).push(third@) =~= texts(lines@) + footer(
            keys@,
        ));
    }
    lines.push(first);
    lines.push(second);
    lines.push(third);
}

/// The keys of the home page.
pub const HOME_KEYS: &'static str = "[q] quit | [c] create epic | [:id:] navigate to epic";

/// The keys of the page of an epic.
pub const EPIC_KEYS: &'static str =
    "[p] previous | [u] update epic | [d] delete epic | [c] create story | [:id:] navigate to story";

/// The keys of the page of a story.
pub const STORY_KEYS: &'static str = "[p] previous | [u] update story | [d] delete story";

/// The page that lists the epics.
#[derive(Debug, Clone, Copy, PartialEq, Eq, Structural)]
pub struct HomePage {}

impl HomePage {
    /// What the line asks for where it is one of the page's commands.
    pub open spec fn command(input: Seq<char>) -> Option<Action> {
        if input == seq!['q'] {
            Some(Action::Exit)
        } else if input == seq!['c'] {
            Some(Action::CreateEpic)
        } else {
            None
        }
    }

    /// Whether the page has to look into the document to answer the line.
    pub open spec fn reads_document(input: Seq<char>) -> bool {
        Self::command(input) is None && id_of(input) is Some
    }

    /// What the line asks for on this page, given the document: a command, or
    /// the page of an epic that the document holds.
    pub open spec fn action(input: Seq<char>, document: DBStateView) -> Option<Action> {
        match Self::command(input) {
            Some(action) => Some(action),
            None => match id_of(input) {
                Some(epic_id) => if document.epics.contains_key(epic_id) {
                    Some(Action::NavigateToEpicDetail { epic_id })
                } else {
                    None
                },
                None => None,
            },
        }
    }

    /// The rows of the epics with the given ids.
    pub open spec fn rows(document: DBStateView, ids: Seq<u32>) -> Seq<Seq<char>> {
        Seq::new(
            ids.len(),
            |i: int| list_row(ids[i], document.epics[ids[i]].name, document.epics[ids[i]].status),
        )
    }

    /// The lines of the page: the epics of the document by ascending id, then
    /// the keys of the page.
    pub open spec fn lines(document: DBStateView) -> Seq<Seq<char>> {
        seq![banner(" EPICS "@), epics_heading()] + Self::rows(
            document,
            ascending(document.epics.dom()),
        ) + footer(HOME_KEYS@)
    }

    /// Returns the lines of the page for a document that was read before.
    pub fn render(&self, state: &DBState) -> (lines: Vec<String>)
        ensures
            texts(lines@) == Self::lines(state@),
    {
        let ids = ascending_ids(&state.epics);
        let mut lines: Vec<String> = Vec::new();
        lines.push(make_banner(" EPICS "));
        lines.push(make_epics_heading());
        let ghost head = seq![banner(" EPICS "@), epics_heading()];
        proof {
            assert(texts(lines@) =~= head + Self::rows(state@, ids@.take(0)));
            assert(state@.epics.dom() =~= state.epics@.dom());
        }
        let mut i: usize = 0;
        while i < ids.len()
            invariant
                i <= ids.len(),
                lists_ascending(ids@, state.epics@.dom()),
                ids@ == ascending(state@.epics.dom()),
                head == seq![banner(" EPICS "@), epics_heading()],
                texts(lines@) == head + Self::rows(state@, ids@.take(i as int)),
            decreases ids.len() - i,
        {
            let id = ids[i];
            proof {
                assert(ids@.contains(id));
                assert(ids@.to_set().contains(id));
            }
            match state.epics.get(&id) {
                Some(epic) => {
                    let row = make_list_row(id, epic.name.as_str(), epic.status);
                    proof {
                        lemma_texts_push(lines@, row);
                        assert(Self::rows(state@, ids@.take(i + 1)) =~= Self::rows(
                            state@,
                            ids@.take(i as int),
                        ).push(row@));
                        assert(head + Self::rows(state@, ids@.take(i as int)).push(row@) =~= (head
                            + Self::rows(state@, ids@.take(i as int))).push(row@));
                    }
                    lines.push(row);
                },
                None => {},
            }
            i += 1;
        }
        proof {
            assert(ids@.take(i as int) =~= ids@);
        }
        push_footer(&mut lines, HOME_KEYS);
        lines
    }

    /// Returns the lines of the page. The call fails only when the document
    /// cannot be read.
    pub fn draw_page<D: Database>(&self, db: &JiraDatabase<D>) -> (r: Result<
        Vec<String>,
        DbError,
    >)
        ensures
            match r {
                Ok(lines) => texts(lines@) == Self::lines(db.document()),
                Err(e) => e.is_storage(),
            },
    {
        match db.read_db() {
            Ok(state) => Ok(self.render(&state)),
            Err(e) => Err(e),
        }
    }

    /// Returns what the line asks for where it is one of the page's commands.
    fn read_command(input: &str) -> (action: Option<Action>)
        ensures
            action == Self::command(input@),
    {
        if is_key(input, 'q') {
            Some(Action::Exit)
        } else if is_key(input, 'c') {
            Some(Action::CreateEpic)
        } else {
            None
        }
    }

    /// Returns what the line asks for, given a document that was read
    /// before.
    pub fn parse_input(&self, input: &str, state: &DBState) -> (action: Option<Action>)
        ensures
            action == Self::action(input@, state@),
    {
        match Self::read_command(input) {
            Some(action) => Some(action),
            None => match parse_id(input) {
                Some(epic_id) => if state.epics.contains_key(&epic_id) {
                    Some(Action::NavigateToEpicDetail { epic_id })
                } else {
                    None
                },
                None => None,
            },
        }
    }

    /// Returns what the line asks for. The document is read only for a line
    /// that names an id, and only then can the call fail.
    pub fn handle_input<D: Database>(&self, input: &str, db: &JiraDatabase<D>) -> (r: Result<
        Option<Action>,
        DbError,
    >)
        ensures
            match r {
                Ok(action) => action == Self::action(input@, db.document()),
                Err(e) => e.is_storage() && Self::reads_document(input@),
            },
    {
        match Self::read_command(input) {
            Some(action) => Ok(Some(action)),
            None => match parse_id(input) {
                None => Ok(None),
                Some(_) => match db.read_db() {
                    Ok(state) => Ok(self.parse_input(input, &state)),
                    Err(e) => Err(e),
                },
            },
        }
    }
}

/// The page that shows one epic and lists its stories.
#[derive(Debug, Clone, Copy, PartialEq, Eq, Structural)]
pub struct EpicDetail {
    pub epic_id: u32,
}

impl EpicDetail {
    /// What the line asks for where it is one of the page's commands.
    pub open spec fn command(self, input: Seq<char>) -> Option<Action> {
        if input == seq!['p'] {
            Some(Action::NavigateToPreviousPage)
        } else if input == seq!['u'] {
            Some(Action::UpdateEpicStatus { epic_id: self.epic_id })
        } else if input == seq!['d'] {
            Some(Action::DeleteEpic { epic_id: self.epic_id })
        } else if input == seq!['c'] {
            Some(Action::CreateStory { epic_id: self.epic_id })
        } else {
            None
        }
    }

    /// Whether the page has to look into the document to answer the line.
    pub open spec fn reads_document(self, input: Seq<char>) -> bool {
        self.command(input) is None && id_of(input) is Some
    }

    /// What the line asks for on this page, given the document: a command, or
    /// the page of a story that the document holds.
    pub open spec fn action(self, input: Seq<char>, document: DBStateView) -> Option<Action> {
        match self.command(input) {
            Some(action) => Some(action),
            None => match id_of(input) {
                Some(story_id) => if document.stories.contains_key(story_id) {
                    Some(Action::NavigateToStoryDetail { epic_id: self.epic_id, story_id })
                } else {
                    None
                },
                None => None,
            },
        }
    }

    /// The rows of those stories with the given ids that the epic lists.
    pub open spec fn rows(document: DBStateView, epic: EpicView, ids: Seq<u32>) -> Seq<Seq<char>>
        decreases ids.len(),
    {
        if ids.len() == 0 {
            Seq::empty()
        } else {
            let id = ids.last();
            let before = Self::rows(document, epic, ids.drop_last());
            if epic.stories.contains(id) {
                before.push(list_row(id, document.stories[id].name, document.stories[id].status))
            } else {
                before
            }
        }
    }

    /// The lines above the list of stories: the epic, then the heading of the
    /// list.
    pub open spec fn head(self, epic: EpicView) -> Seq<Seq<char>> {
        seq![
            banner(" EPIC "@),
            detail_heading(),
            detail_row(self.epic_id, epic.name, epic.description, epic.status),
            Seq::empty(),
            banner(" STORIES "@),
            stories_heading(),
        ]
    }

    /// The lines of the page: the epic, then those stories of the document
    /// that the epic lists, by ascending id, then the keys of the page.
    pub open spec fn lines(self, document: DBStateView) -> Seq<Seq<char>>
        recommends
            document.epics.contains_key(self.epic_id),
    {
        let epic = document.epics[self.epic_id];
        self.head(epic) + Self::rows(document, epic, ascending(document.stories.dom())) + footer(
            EPIC_KEYS@,
        )
    }

    /// Returns the lines of the page for a document that was read before.
    /// Fails when the document does not hold the epic of the page.
    pub fn render(&self, state: &DBState) -> (r: Result<Vec<String>, DbError>)
        ensures
            r matches Ok(lines) ==> texts(lines@) == self.lines(state@),
            r is Ok <==> state@.epics.contains_key(self.epic_id),
            r is Err ==> r == Err::<Vec<String>, DbError>(DbError::EpicNotFound),
    {
        let epic = match state.epics.get(&self.epic_id) {
            Some(epic) => epic,
            None => { return Err(DbError::EpicNotFound); },
        };
        let mut lines: Vec<String> = Vec::new();
        lines.push(make_banner(" EPIC "));
        lines.push(make_detail_heading());
        lines.push(
            make_detail_row(
                self.epic_id,
                epic.name.as_str(),
                epic.description.as_str(),
                epic.status,
            ),
        );
        lines.push(String::new());
        lines.push(make_banner(" STORIES "));
        lines.push(make_stories_heading());
        let ids = ascending_ids(&state.stories);
        let ghost head = self.head(epic@);
        proof {
            assert(ids@.take(0) =~= Seq::<u32>::empty());
            assert(texts(lines@) =~= head + Self::rows(state@, epic@, ids@.take(0)));
            assert(state@.stories.dom() =~= state.stories@.dom());
        }
        let mut i: usize = 0;
        while i < ids.len()
            invariant
                i <= ids.len(),
                lists_ascending(ids@, state.stories@.dom()),
                ids@ == ascending(state@.stories.dom()),
                texts(lines@) == head + Self::rows(state@, epic@, ids@.take(i as int)),
            decreases ids.len() - i,
        {
            let id = ids[i];
            proof {
                assert(ids@.contains(id));
                assert(ids@.to_set().contains(id));
                assert(ids@.take(i + 1).drop_last() =~= ids@.take(i as int));
                assert(ids@.take(i + 1).last() == id);
            }
            if epic.lists(id) {
                match state.stories.get(&id) {
                    Some(story) => {
                        let row = make_list_row(id, story.name.as_str(), story.status);
                        proof {
                            lemma_texts_push(lines@, row);
                            assert(head + Self::rows(state@, epic@, ids@.take(i as int)).push(row@)
                                =~= (head + Self::rows(state@, epic@, ids@.take(i as int))).push(
                                row@,
                            ));
                        }
                        lines.push(row);
                    },
                    None => {},
                }
            }
            i += 1;
        }
        proof {
            assert(ids@.take(i as int) =~= ids@);
        }
        push_footer(&mut lines, EPIC_KEYS);
        Ok(lines)
    }

    /// Returns the lines of the page. Fails with [`DbError::EpicNotFound`]
    /// when the document does not hold the epic of the page; any other failure
    /// is one of reading the document.
    pub fn draw_page<D: Database>(&self, db: &JiraDatabase<D>) -> (r: Result<
        Vec<String>,
        DbError,
    >)
        ensures
            match r {
                Ok(lines) => db.document().epics.contains_key(self.epic_id) && texts(lines@)
                    == self.lines(db.document()),
                Err(e) => e.is_storage() || (e == DbError::EpicNotFound
                    && !db.document().epics.contains_key(self.epic_id)),
            },
    {
        match db.read_db() {
            Ok(state) => self.render(&state),
            Err(e) => Err(e),
        }
    }

    /// Returns what the line asks for where it is one of the page's commands.
    fn read_command(&self, input: &str) -> (action: Option<Action>)
        ensures
            action == self.command(input@),
    {
        let epic_id = self.epic_id;
        if is_key(input, 'p') {
            Some(Action::NavigateToPreviousPage)
        } else if is_key(input, 'u') {
            Some(Action::UpdateEpicStatus { epic_id })
        } else if is_key(input, 'd') {
            Some(Action::DeleteEpic { epic_id })
        } else if is_key(input, 'c') {
            Some(Action::CreateStory { epic_id })
        } else {
            None
        }
    }

    /// Returns what the line asks for, given a document that was read
    /// before.
    pub fn parse_input(&self, input: &str, state: &DBState) -> (action: Option<Action>)
        ensures
            action == self.action(input@, state@),
    {
        match self.read_command(input) {
            Some(action) => Some(action),
            None => match parse_id(input) {
                Some(story_id) => if state.stories.contains_key(&story_id) {
                    Some(Action::NavigateToStoryDetail { epic_id: self.epic_id, story_id })
                } else {
                    None
                },
                None => None,
            },
        }
    }

    /// Returns what the line asks for. The document is read only for a line
    /// that names an id, and only then can the call fail.
    pub fn handle_input<D: Database>(&self, input: &str, db: &JiraDatabase<D>) -> (r: Result<
        Option<Action>,
        DbError,
    >)
        ensures
            match r {
                Ok(action) => action == self.action(input@, db.document()),
                Err(e) => e.is_storage() && self.reads_document(input@),
            },
    {
        match self.read_command(input) {
            Some(action) => Ok(Some(action)),
            None => match parse_id(input) {
                None => Ok(None),
                Some(_) => match db.read_db() {
                    Ok(state) => Ok(self.parse_input(input, &state)),
                    Err(e) => Err(e),
                },
            },
        }
    }
}

/// The rows of the stories with the given ids hold the row of each of those
/// stories that the epic lists.
pub proof fn lemma_rows_hold_listed(
    document: DBStateView,
    epic: EpicView,
    ids: Seq<u32>,
    id: u32,
)
    requires
        ids.contains(id),
        epic.stories.contains(id),
    ensures
        EpicDetail::rows(document, epic, ids).contains(
            list_row(id, document.stories[id].name, document.stories[id].status),
        ),
    decreases ids.len(),
{
    let row = list_row(id, document.stories[id].name, document.stories[id].status);
    let rows = EpicDetail::rows(document, epic, ids);
    let before = EpicDetail::rows(document, epic, ids.drop_last());
    if ids.last() == id {
        assert(rows == before.push(row));
        assert(rows[rows.len() - 1] == row);
    } else {
        let i = choose|i: int| 0 <= i < ids.len() && ids[i] == id;
        assert(ids.drop_last()[i] == id);
        lemma_rows_hold_listed(document, epic, ids.drop_last(), id);
        let j = choose|j: int| 0 <= j < before.len() && before[j] == row;
        assert(rows[j] == row);
    }
}

/// A story that was created under an epic is shown on the page of that epic:
/// the page can be drawn, and one of its lines is the row of the new story.
/// `ids` stands for the ids of the stories in ascending order.
pub proof fn law_created_story_is_shown(
    v: DBStateView,
    story: StoryView,
    epic_id: u32,
    ids: Seq<u32>,
)
    requires
        v.create_story(story, epic_id) is Ok,
        lists_ascending(ids, v.create_story(story, epic_id).unwrap().stories.dom()),
    ensures
        ({
            let w = v.create_story(story, epic_id).unwrap();
            let page = EpicDetail { epic_id };
            &&& Page::EpicDetail(page).missing(w) is None
            &&& page.lines(w).contains(list_row(v.next_id(), story.name, story.status))
        }),
{
    let w = v.create_story(story, epic_id).unwrap();
    let id = v.next_id();
    let page = EpicDetail { epic_id };
    let epic = w.epics[epic_id];
    let row = list_row(id, story.name, story.status);
    assert(epic.stories[epic.stories.len() - 1] == id);
    assert(w.stories.contains_key(id));
    assert(ids.to_set().contains(id));
    lemma_ascending_is_unique(ids, ascending(w.stories.dom()));
    lemma_rows_hold_listed(w, epic, ids, id);
    let rows = EpicDetail::rows(w, epic, ids);
    let j = choose|j: int| 0 <= j < rows.len() && rows[j] == row;
    let lines = page.lines(w);
    assert(lines[page.head(epic).len() + j] == row);
}

/// The page that shows one story.
#[derive(Debug, Clone, Copy, PartialEq, Eq, Structural)]
pub struct StoryDetail {
    pub epic_id: u32,
    pub story_id: u32,
}

impl StoryDetail {
    /// What the line asks for on this page.
    pub open spec fn action(self, input: Seq<char>) -> Option<Action> {
        if input == seq!['p'] {
            Some(Action::NavigateToPreviousPage)
        } else if input == seq!['u'] {
            Some(Action::UpdateStoryStatus { story_id: self.story_id })
        } else if input == seq!['d'] {
            Some(Action::DeleteStory { epic_id: self.epic_id, story_id: self.story_id })
        } else {
            None
        }
    }

    /// The lines of the page: the story, then the keys of the page.
    pub open spec fn lines(self, document: DBStateView) -> Seq<Seq<char>>
        recommends
            document.stories.contains_key(self.story_id),
    {
        let story = document.stories[self.story_id];
        seq![
            banner(" STORY "@),
            detail_heading(),
            detail_row(self.story_id, story.name, story.description, story.status),
        ] + footer(STORY_KEYS@)
    }

    /// Returns the lines of the page for a document that was read before.
    /// Fails when the document does not hold the story of the page.
    pub fn render(&self, state: &DBState) -> (r: Result<Vec<String>, DbError>)
        ensures
            r matches Ok(lines) ==> texts(lines@) == self.lines(state@),
            r is Ok <==> state@.stories.contains_key(self.story_id),
            r is Err ==> r == Err::<Vec<String>, DbError>(DbError::StoryNotFound),
    {
        let story = match state.stories.get(&self.story_id) {
            Some(story) => story,
            None => { return Err(DbError::StoryNotFound); },
        };
        let mut lines: Vec<String> = Vec::new();
        lines.push(make_banner(" STORY "));
        lines.push(make_detail_heading());
        lines.push(
            make_detail_row(
                self.story_id,
                story.name.as_str(),
                story.description.as_str(),
                story.status,
            ),
        );
        proof {
            assert(texts(lines@) =~= seq![
                banner(" STORY "@),
                detail_heading(),
                detail_row(self.story_id, story@.name, story@.description, story@.status),
            ]);
        }
        push_footer(&mut lines, STORY_KEYS);
        Ok(lines)
    }

    /// Returns the lines of the page. Fails with [`DbError::StoryNotFound`]
    /// when the document does not hold the story of the page; any other
    /// failure is one of reading the document.
    pub fn draw_page<D: Database>(&self, db: &JiraDatabase<D>) -> (r: Result<
        Vec<String>,
        DbError,
    >)
        ensures
            match r {
                Ok(lines) => db.document().stories.contains_key(self.story_id) && texts(lines@)
                    == self.lines(db.document()),
                Err(e) => e.is_storage() || (e == DbError::StoryNotFound
                    && !db.document().stories.contains_key(self.story_id)),
            },
    {
        match db.read_db() {
            Ok(state) => self.render(&state),
            Err(e) => Err(e),
        }
    }

    /// Returns what the line asks for. No document is needed for that.
    pub fn parse_input(&self, input: &str) -> (action: Option<Action>)
        ensures
            action == self.action(input@),
    {
        if is_key(input, 'p') {
            Some(Action::NavigateToPreviousPage)
        } else if is_key(input, 'u') {
            Some(Action::UpdateStoryStatus { story_id: self.story_id })
        } else if is_key(input, 'd') {
            Some(Action::DeleteStory { epic_id: self.epic_id, story_id: self.story_id })
        } else {
            None
        }
    }

    /// Returns what the line asks for. The document is never read and the
    /// call never fails.
    pub fn handle_input<D: Database>(&self, input: &str, db: &JiraDatabase<D>) -> (r: Result<
        Option<Action>,
        DbError,
    >)
        ensures
            r == Ok::<Option<Action>, DbError>(self.action(input@)),
    {
        Ok(self.parse_input(input))
    }
}

/// One of the pages of the tracker.
#[derive(Debug, Clone, Copy, PartialEq, Eq, Structural)]
pub enum Page {
    Home(HomePage),
    EpicDetail(EpicDetail),
    StoryDetail(StoryDetail),
}

impl Page {
    /// What the line asks for on this page, given the document.
    pub open spec fn action(self, input: Seq<char>, document: DBStateView) -> Option<Action> {
        match self {
            Page::Home(_) => HomePage::action(input, document),
            Page::EpicDetail(page) => page.action(input, document),
            Page::StoryDetail(page) => page.action(input),
        }
    }

    /// Whether the page has to look into the document to answer the line.
    pub open spec fn reads_document(self, input: Seq<char>) -> bool {
        match self {
            Page::Home(_) => HomePage::reads_document(input),
            Page::EpicDetail(page) => page.reads_document(input),
            Page::StoryDetail(_) => false,
        }
    }

    /// The lines of the page, given a document that holds what the page
    /// shows.
    pub open spec fn lines(self, document: DBStateView) -> Seq<Seq<char>> {
        match self {
            Page::Home(_) => HomePage::lines(document),
            Page::EpicDetail(page) => page.lines(document),
            Page::StoryDetail(page) => page.lines(document),
        }
    }

    /// Why the page cannot be shown for a document, if it cannot: the document
    /// does not hold the epic or the story of the page.
    pub open spec fn missing(self, document: DBStateView) -> Option<DbError> {
        match self {
            Page::Home(_) => None,
            Page::EpicDetail(page) => if document.epics.contains_key(page.epic_id) {
                None
            } else {
                Some(DbError::EpicNotFound)
            },
            Page::StoryDetail(page) => if document.stories.contains_key(page.story_id) {
                None
            } else {
                Some(DbError::StoryNotFound)
            },
        }
    }

    /// Returns the lines of the page. Fails when the document does not hold
    /// what the page shows; any other failure is one of reading the document.
    pub fn draw_page<D: Database>(&self, db: &JiraDatabase<D>) -> (r: Result<
        Vec<String>,
        DbError,
    >)
        ensures
            match r {
                Ok(lines) => self.missing(db.document()) is None && texts(lines@) == self.lines(
                    db.document(),
                ),
                Err(e) => e.is_storage() || self.missing(db.document()) == Some(e),
            },
    {
        match self {
            Page::Home(page) => page.draw_page(db),
            Page::EpicDetail(page) => page.draw_page(db),
            Page::StoryDetail(page) => page.draw_page(db),
        }
    }

    /// Returns the lines of the page for a document that was read before.
    /// Fails when the document does not hold what the page shows.
    pub fn render(&self, state: &DBState) -> (r: Result<Vec<String>, DbError>)
        ensures
            match r {
                Ok(lines) => self.missing(state@) is None && texts(lines@) == self.lines(state@),
                Err(e) => self.missing(state@) == Some(e),
            },
    {
        match self {
            Page::Home(page) => Ok(page.render(state)),
            Page::EpicDetail(page) => page.render(state),
            Page::StoryDetail(page) => page.render(state),
        }
    }

    /// Returns what the line asks for on this page, given a document that was
    /// read before.
    pub fn parse_input(&self, input: &str, state: &DBState) -> (action: Option<Action>)
        ensures
            action == self.action(input@, state@),
    {
        match self {
            Page::Home(page) => page.parse_input(input, state),
            Page::EpicDetail(page) => page.parse_input(input, state),
            Page::StoryDetail(page) => page.parse_input(input),
        }
    }

    /// Returns what the line asks for on this page. The document is read only
    /// where the page has to look into it, and only then can the call fail.
    pub fn handle_input<D: Database>(&self, input: &str, db: &JiraDatabase<D>) -> (r: Result<
        Option<Action>,
        DbError,
    >)
        ensures
            match r {
                Ok(action) => action == self.action(input@, db.document()),
                Err(e) => e.is_storage() && self.reads_document(input@),
            },
    {
        match self {
            Page::Home(page) => page.handle_input(input, db),
            Page::EpicDetail(page) => page.handle_input(input, db),
            Page::StoryDetail(page) => page.handle_input(input, db),
        }
    }
}

} // verus!
