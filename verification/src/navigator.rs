//! The stack of pages and what each action does to it and to the store.
//!
//! An action is handled in three steps: the user is asked the one question
//! that the action leaves open ([`Navigator::ask`]), the action and the
//! [`Answer`] give a [`Request`] ([`Navigator::request`]), and the request is
//! carried out on the stack and the store ([`Navigator::carry_out`]).
use crate::db::{settled, Database, DbError, JiraDatabase};
use crate::models::{Action, DBStateView, Epic, Status, Story};
use crate::ui::pages::{EpicDetail, HomePage, Page, StoryDetail};
use crate::ui::prompts::Prompts;
use vstd::prelude::*;

verus! {

/// An action together with what the user answered when asked about it: what
/// is left to do without another question.
#[derive(Debug, Clone, PartialEq)]
pub enum Request {
    /// Show another page on top of the current one.
    Push(Page),
    /// Go back to the page below the current one.
    Back,
    /// Leave everything as it is: the user declined or named no status.
    Nothing,
    /// Store a new epic.
    CreateEpic(Epic),
    /// Store a new story under an epic.
    CreateStory { story: Story, epic_id: u32 },
    /// Give an epic another status.
    UpdateEpicStatus { epic_id: u32, status: Status },
    /// Give a story another status.
    UpdateStoryStatus { story_id: u32, status: Status },
    /// Delete an epic with its stories and leave its page.
    DeleteEpic { epic_id: u32 },
    /// Delete a story and leave its page.
    DeleteStory { epic_id: u32, story_id: u32 },
    /// Leave the tracker.
    Exit,
}

/// What the user answered to the one question that an action asks, if it
/// asks one.
#[derive(Debug, Clone, PartialEq)]
pub enum Answer {
    /// The action asks nothing.
    NotAsked,
    /// The epic that the user described.
    NewEpic(Epic),
    /// The story that the user described.
    NewStory(Story),
    /// Whether the user confirmed a deletion.
    Confirmed(bool),
    /// The status that the user named, if the user named one.
    NewStatus(Option<Status>),
}

/// Whether the answer is of the kind that the action asks for: an epic or a
/// story for creating one, a confirmation for deleting, a status for changing
/// one, and none for moving between pages.
pub open spec fn asked_for(action: Action, answer: Answer) -> bool {
    match action {
        Action::NavigateToEpicDetail { .. } => answer is NotAsked,
        Action::NavigateToStoryDetail { .. } => answer is NotAsked,
        Action::NavigateToPreviousPage => answer is NotAsked,
        Action::CreateEpic => answer is NewEpic,
        Action::UpdateEpicStatus { .. } => answer is NewStatus,
        Action::DeleteEpic { .. } => answer is Confirmed,
        Action::CreateStory { .. } => answer is NewStory,
        Action::UpdateStoryStatus { .. } => answer is NewStatus,
        Action::DeleteStory { .. } => answer is Confirmed,
        Action::Exit => answer is NotAsked,
    }
}

/// What is left to do for an action once the user has answered. A deletion
/// is left to do only if the user confirmed it, a change of status only if
/// the user named one; what is created is what the user described. An answer
/// of another kind than the action asks for leaves nothing to do.
pub open spec fn request_for(action: Action, answer: Answer) -> Request {
    match action {
        Action::NavigateToEpicDetail { epic_id } => Request::Push(
            Page::EpicDetail(EpicDetail { epic_id }),
        ),
        Action::NavigateToStoryDetail { epic_id, story_id } => Request::Push(
            Page::StoryDetail(StoryDetail { epic_id, story_id }),
        ),
        Action::NavigateToPreviousPage => Request::Back,
        Action::CreateEpic => match answer {
            Answer::NewEpic(epic) => Request::CreateEpic(epic),
            _ => Request::Nothing,
        },
        Action::UpdateEpicStatus { epic_id } => match answer {
            Answer::NewStatus(Some(status)) => Request::UpdateEpicStatus { epic_id, status },
            _ => Request::Nothing,
        },
        Action::DeleteEpic { epic_id } => match answer {
            Answer::Confirmed(true) => Request::DeleteEpic { epic_id },
            _ => Request::Nothing,
        },
        Action::CreateStory { epic_id } => match answer {
            Answer::NewStory(story) => Request::CreateStory { story, epic_id },
            _ => Request::Nothing,
        },
        Action::UpdateStoryStatus { story_id } => match answer {
            Answer::NewStatus(Some(status)) => Request::UpdateStoryStatus { story_id, status },
            _ => Request::Nothing,
        },
        Action::DeleteStory { epic_id, story_id } => match answer {
            Answer::Confirmed(true) => Request::DeleteStory { epic_id, story_id },
            _ => Request::Nothing,
        },
        Action::Exit => Request::Exit,
    }
}

/// The stack after going back: without its top page, unless at most one page
/// is on it.
pub open spec fn back(pages: Seq<Page>) -> Seq<Page> {
    if pages.len() > 1 {
        pages.drop_last()
    } else {
        pages
    }
}

/// The stack after the current page was left for good: without its top page.
pub open spec fn left(pages: Seq<Page>) -> Seq<Page> {
    if pages.len() > 0 {
        pages.drop_last()
    } else {
        pages
    }
}

/// Whether a request needs an id that the counter of the document cannot give.
pub open spec fn exhausts(request: Request, document: DBStateView) -> bool {
    match request {
        Request::CreateEpic(_) => !document.has_next_id(),
        Request::CreateStory { epic_id, .. } => document.epics.contains_key(epic_id)
            && !document.has_next_id(),
        _ => false,
    }
}

/// How carrying out a request ended: `r` is what was returned, `pages_after`
/// the stack and `kept` the document afterwards. A request that fails leaves
/// the stack as it was.
pub open spec fn carried_out(
    pages: Seq<Page>,
    document: DBStateView,
    request: Request,
    r: Result<(), DbError>,
    pages_after: Seq<Page>,
    kept: DBStateView,
) -> bool {
    match request {
        Request::Push(page) => r is Ok && pages_after == pages.push(page) && kept == document,
        Request::Back => r is Ok && pages_after == back(pages) && kept == document,
        Request::Nothing => r is Ok && pages_after == pages && kept == document,
        Request::Exit => r is Ok && pages_after == Seq::<Page>::empty() && kept == document,
        Request::CreateEpic(epic) => {
            &&& pages_after == pages
            &&& settled(
                document,
                Ok(document.create_epic(epic.name@, epic.description@)),
                r,
                kept,
            )
        },
        Request::CreateStory { story, epic_id } => {
            &&& pages_after == pages
            &&& settled(document, document.create_story(story@, epic_id), r, kept)
        },
        Request::UpdateEpicStatus { epic_id, status } => {
            &&& pages_after == pages
            &&& settled(document, document.update_epic_status(epic_id, status), r, kept)
        },
        Request::UpdateStoryStatus { story_id, status } => {
            &&& pages_after == pages
            &&& settled(document, document.update_story_status(story_id, status), r, kept)
        },
        Request::DeleteEpic { epic_id } => {
            &&& pages_after == if r is Ok {
                left(pages)
            } else {
                pages
            }
            &&& settled(document, document.delete_epic(epic_id), r, kept)
        },
        Request::DeleteStory { epic_id, story_id } => {
            &&& pages_after == if r is Ok {
                left(pages)
            } else {
                pages
            }
            &&& settled(document, document.delete_story(epic_id, story_id), r, kept)
        },
    }
}

/// Going back from the home page alone leaves the stack as it is, and the
/// document too.
pub proof fn law_back_on_home_changes_nothing(
    pages: Seq<Page>,
    document: DBStateView,
    answer: Answer,
    r: Result<(), DbError>,
    pages_after: Seq<Page>,
    kept: DBStateView,
)
    requires
        pages.len() == 1,
        carried_out(
            pages,
            document,
            request_for(Action::NavigateToPreviousPage, answer),
            r,
            pages_after,
            kept,
        ),
    ensures
        r is Ok,
        pages_after == pages,
        kept == document,
{
}

/// A deletion that the user did not confirm, and a change of status for
/// which the user named none, change neither the stack nor the document.
pub proof fn law_declined_changes_nothing(
    pages: Seq<Page>,
    document: DBStateView,
    action: Action,
    answer: Answer,
    r: Result<(), DbError>,
    pages_after: Seq<Page>,
    kept: DBStateView,
)
    requires
        action is DeleteEpic || action is DeleteStory || action is UpdateEpicStatus
            || action is UpdateStoryStatus,
        answer != Answer::Confirmed(true),
        !(answer matches Answer::NewStatus(Some(_))),
        carried_out(pages, document, request_for(action, answer), r, pages_after, kept),
    ensures
        r is Ok,
        pages_after == pages,
        kept == document,
{
}

/// A request that fails leaves the stack as it was, and so does every
/// request that only creates an item or changes a status. Of a stack of two
/// or more pages, only leaving the tracker takes the last page.
pub proof fn law_stack_changes_on_success_only(
    pages: Seq<Page>,
    document: DBStateView,
    request: Request,
    r: Result<(), DbError>,
    pages_after: Seq<Page>,
    kept: DBStateView,
)
    requires
        carried_out(pages, document, request, r, pages_after, kept),
    ensures
        r is Err ==> pages_after == pages,
        request is CreateEpic || request is CreateStory || request is UpdateEpicStatus
            || request is UpdateStoryStatus || request is Nothing ==> pages_after == pages,
        !(request is Exit) && pages.len() > 1 ==> pages_after.len() > 0,
{
}

/// Only what the store is asked to do changes the document: showing another
/// page, going back and leaving do not.
pub proof fn law_navigation_keeps_the_document(
    pages: Seq<Page>,
    document: DBStateView,
    request: Request,
    r: Result<(), DbError>,
    pages_after: Seq<Page>,
    kept: DBStateView,
)
    requires
        carried_out(pages, document, request, r, pages_after, kept),
        request is Push || request is Back || request is Nothing || request is Exit,
    ensures
        r is Ok,
        kept == document,
{
}

/// The stack of pages. The page on top is the one that the user sees; an
/// empty stack ends the session.
#[derive(Debug, Clone, PartialEq)]
pub struct Navigator {
    pages: Vec<Page>,
}

impl View for Navigator {
    type V = Seq<Page>;

    closed spec fn view(&self) -> Seq<Page> {
        self.pages@
    }
}

impl Navigator {
    /// Makes the stack that a session starts with: the home page alone.
    pub fn new() -> (nav: Self)
        ensures
            nav@ == seq![Page::Home(HomePage {  })],
    {
        let mut pages: Vec<Page> = Vec::new();
        pages.push(Page::Home(HomePage {  }));
        proof {
            assert(pages@ =~= seq![Page::Home(HomePage {  })]);
        }
        Navigator { pages }
    }

    /// Returns the page on top of the stack, or `None` when the stack is
    /// empty.
    pub fn get_current_page(&self) -> (page: Option<Page>)
        ensures
            page == if self@.len() > 0 {
                Some(self@.last())
            } else {
                None
            },
    {
        let n = self.pages.len();
        if n > 0 {
            Some(self.pages[n - 1])
        } else {
            None
        }
    }

    /// Returns the number of pages on the stack.
    pub fn get_page_count(&self) -> (count: usize)
        ensures
            count == self@.len(),
    {
        self.pages.len()
    }

    /// Asks the user the one question that the action asks, if it asks one,
    /// and returns the answer. Which question is asked depends on the action
    /// alone; nothing is known of the answer but its kind.
    pub fn ask<P: Prompts>(action: Action, prompts: &P) -> (answer: Answer)
        ensures
            asked_for(action, answer),
    {
        match action {
            Action::NavigateToEpicDetail { .. } => Answer::NotAsked,
            Action::NavigateToStoryDetail { .. } => Answer::NotAsked,
            Action::NavigateToPreviousPage => Answer::NotAsked,
            Action::CreateEpic => Answer::NewEpic(prompts.create_epic()),
            Action::UpdateEpicStatus { .. } => Answer::NewStatus(prompts.update_status()),
            Action::DeleteEpic { .. } => Answer::Confirmed(prompts.delete_epic()),
            Action::CreateStory { .. } => Answer::NewStory(prompts.create_story()),
            Action::UpdateStoryStatus { .. } => Answer::NewStatus(prompts.update_status()),
            Action::DeleteStory { .. } => Answer::Confirmed(prompts.delete_story()),
            Action::Exit => Answer::NotAsked,
        }
    }

    /// Returns what is left to do for an action once the user has answered.
    pub fn request(action: Action, answer: Answer) -> (request: Request)
        ensures
            request == request_for(action, answer),
    {
        match action {
            Action::NavigateToEpicDetail { epic_id } => Request::Push(
                Page::EpicDetail(EpicDetail { epic_id }),
            ),
            Action::NavigateToStoryDetail { epic_id, story_id } => Request::Push(
                Page::StoryDetail(StoryDetail { epic_id, story_id }),
            ),
            Action::NavigateToPreviousPage => Request::Back,
            Action::CreateEpic => match answer {
                Answer::NewEpic(epic) => Request::CreateEpic(epic),
                _ => Request::Nothing,
            },
            Action::UpdateEpicStatus { epic_id } => match answer {
                Answer::NewStatus(Some(status)) => Request::UpdateEpicStatus { epic_id, status },
                _ => Request::Nothing,
            },
            Action::DeleteEpic { epic_id } => match answer {
                Answer::Confirmed(true) => Request::DeleteEpic { epic_id },
                _ => Request::Nothing,
            },
            Action::CreateStory { epic_id } => match answer {
                Answer::NewStory(story) => Request::CreateStory { story, epic_id },
                _ => Request::Nothing,
            },
            Action::UpdateStoryStatus { story_id } => match answer {
                Answer::NewStatus(Some(status)) => Request::UpdateStoryStatus { story_id, status },
                _ => Request::Nothing,
            },
            Action::DeleteStory { epic_id, story_id } => match answer {
                Answer::Confirmed(true) => Request::DeleteStory { epic_id, story_id },
                _ => Request::Nothing,
            },
            Action::Exit => Request::Exit,
        }
    }

    /// Asks the user what the action leaves open and returns what is then
    /// left to do: what [`Navigator::request`] makes of the action and of the
    /// answer that the user gave.
    pub fn resolve<P: Prompts>(action: Action, prompts: &P) -> (request: Request)
        ensures
            exists|answer: Answer| #[trigger]
                asked_for(action, answer) && request == request_for(action, answer),
    {
        let answer = Self::ask(action, prompts);
        let ghost given = answer;
        let request = Self::request(action, answer);
        proof {
            assert(asked_for(action, given) && request == request_for(action, given));
        }
        request
    }

    /// Takes the top page off the stack, if there is one.
    fn leave(&mut self)
        ensures
            final(self)@ == left(old(self)@),
    {
        self.pages.pop();
    }

    /// Carries out a request: changes the stack, or has the store change the
    /// document and then changes the stack. When the store fails, its error is
    /// returned as it is and the stack stays as it was.
    pub fn carry_out<D: Database>(&mut self, request: Request, db: &mut JiraDatabase<D>) -> (r:
        Result<(), DbError>)
        requires
            !exhausts(request, old(db).document()),
        ensures
            carried_out(
                old(self)@,
                old(db).document(),
                request,
                r,
                final(self)@,
                final(db).document(),
            ),
            old(db).document().wf() && r is Ok ==> final(db).document().wf(),
    {
        match request {
            Request::Push(page) => {
                self.pages.push(page);
                Ok(())
            },
            Request::Back => {
                if self.pages.len() > 1 {
                    self.pages.pop();
                }
                Ok(())
            },
            Request::Nothing => Ok(()),
            Request::Exit => {
                self.pages.clear();
                Ok(())
            },
            Request::CreateEpic(epic) => {
                match db.create_epic(epic) {
                    Ok(_) => Ok(()),
                    Err(e) => Err(e),
                }
            },
            Request::CreateStory { story, epic_id } => {
                match db.create_story(story, epic_id) {
                    Ok(_) => Ok(()),
                    Err(e) => Err(e),
                }
            },
            Request::UpdateEpicStatus { epic_id, status } => db.update_epic_status(epic_id, status),
            Request::UpdateStoryStatus { story_id, status } => db.update_story_status(
                story_id,
                status,
            ),
            Request::DeleteEpic { epic_id } => {
                match db.delete_epic(epic_id) {
                    Ok(_) => {
                        self.leave();
                        Ok(())
                    },
                    Err(e) => Err(e),
                }
            },
            Request::DeleteStory { epic_id, story_id } => {
                match db.delete_story(epic_id, story_id) {
                    Ok(_) => {
                        self.leave();
                        Ok(())
                    },
                    Err(e) => Err(e),
                }
            },
        }
    }

    /// Handles an action once the user has answered: carries out what
    /// [`Navigator::request`] makes of the action and of the answer. When the
    /// store fails, its error is returned as it is and the stack stays as it
    /// was.
    pub fn handle_answer<D: Database>(
        &mut self,
        action: Action,
        answer: Answer,
        db: &mut JiraDatabase<D>,
    ) -> (r: Result<(), DbError>)
        requires
            !exhausts(request_for(action, answer), old(db).document()),
        ensures
            carried_out(
                old(self)@,
                old(db).document(),
                request_for(action, answer),
                r,
                final(self)@,
                final(db).document(),
            ),
            r is Err ==> final(self)@ == old(self)@,
            old(db).document().wf() && r is Ok ==> final(db).document().wf(),
    {
        let request = Self::request(action, answer);
        self.carry_out(request, db)
    }

    /// Handles an action: asks the user the question of the action, then does
    /// what [`Navigator::handle_answer`] does with the answer. What the user
    /// answers is not known beforehand, so the result is stated of some answer
    /// of the kind that the action asks for.
    pub fn handle_action<D: Database, P: Prompts>(
        &mut self,
        action: Action,
        db: &mut JiraDatabase<D>,
        prompts: &P,
    ) -> (r: Result<(), DbError>)
        requires
            action is CreateEpic ==> old(db).document().has_next_id(),
            action matches Action::CreateStory { epic_id } ==> (old(db).document().epics.contains_key(
                epic_id,
            ) ==> old(db).document().has_next_id()),
        ensures
            exists|answer: Answer| #[trigger]
                asked_for(action, answer) && carried_out(
                    old(self)@,
                    old(db).document(),
                    request_for(action, answer),
                    r,
                    final(self)@,
                    final(db).document(),
                ),
            r is Err ==> final(self)@ == old(self)@,
            old(db).document().wf() && r is Ok ==> final(db).document().wf(),
    {
        let answer = Self::ask(action, prompts);
        let ghost given = answer;
        let r = self.handle_answer(action, answer, db);
        proof {
            assert(asked_for(action, given));
        }
        r
    }
}

} // verus!
