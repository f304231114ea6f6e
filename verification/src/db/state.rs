//! The operations of the store, carried out on a document in memory.
use crate::db::laws::{
    lemma_create_epic_keeps_wf, lemma_create_story_keeps_wf, lemma_delete_epic_keeps_wf,
    lemma_delete_story_keeps_wf, lemma_strip_push, lemma_update_epic_status_keeps_wf,
    lemma_update_story_status_keeps_wf,
};
use crate::db::model::{reply, strip};
use crate::db::DbError;
use crate::models::{epics_view, stories_view, DBState, Epic, EpicView, Status, Story, ID};
use vstd::prelude::*;

verus! {

broadcast use vstd::std_specs::hash::group_hash_axioms;

/// Storing an epic shows in the view as storing its view.
proof fn lemma_epics_view_insert(epics: Map<u32, Epic>, id: u32, epic: Epic)
    ensures
        epics_view(epics.insert(id, epic)) == epics_view(epics).insert(id, epic@),
{
    assert(epics_view(epics.insert(id, epic)) =~= epics_view(epics).insert(id, epic@));
}

/// Taking an epic out shows in the view as taking its view out.
proof fn lemma_epics_view_remove(epics: Map<u32, Epic>, id: u32)
    ensures
        epics_view(epics.remove(id)) == epics_view(epics).remove(id),
{
    assert(epics_view(epics.remove(id)) =~= epics_view(epics).remove(id));
}

/// Storing a story shows in the view as storing its view.
proof fn lemma_stories_view_insert(stories: Map<u32, Story>, id: u32, story: Story)
    ensures
        stories_view(stories.insert(id, story)) == stories_view(stories).insert(id, story@),
{
    assert(stories_view(stories.insert(id, story)) =~= stories_view(stories).insert(id, story@));
}

/// Taking a story out shows in the view as taking its view out.
proof fn lemma_stories_view_remove(stories: Map<u32, Story>, id: u32)
    ensures
        stories_view(stories.remove(id)) == stories_view(stories).remove(id),
{
    assert(stories_view(stories.remove(id)) =~= stories_view(stories).remove(id));
}

/// Returns the list without any occurrence of the id.
fn strip_story(stories: &Vec<ID>, story_id: ID) -> (kept: Vec<ID>)
    ensures
        kept@ == strip(stories@, story_id),
{
    let mut kept: Vec<ID> = Vec::new();
    let mut i: usize = 0;
    proof {
        reveal(Seq::filter);
        assert(stories@.take(0) =~= Seq::<u32>::empty());
    }
    while i < stories.len()
        invariant
            i <= stories.len(),
            kept@ == strip(stories@.take(i as int), story_id),
        decreases stories.len() - i,
    {
        proof {
            lemma_strip_push(stories@.take(i as int), stories@[i as int], story_id);
            assert(stories@.take(i + 1) =~= stories@.take(i as int).push(stories@[i as int]));
        }
        if stories[i] != story_id {
            kept.push(stories[i]);
        }
        i += 1;
    }
    proof {
        assert(stories@.take(i as int) =~= stories@);
    }
    kept
}

impl DBState {
    /// Returns whether the counter can still give an id, which creating an
    /// item needs.
    pub fn has_next_id(&self) -> (b: bool)
        ensures
            b == self@.has_next_id(),
    {
        self.last_item_id < u32::MAX
    }

    /// Stores a new epic under the next id and returns that id. Whatever
    /// status and stories the epic came with, it is stored open and with no
    /// stories.
    pub fn create_epic(&mut self, epic: Epic) -> (id: ID)
        requires
            old(self)@.has_next_id(),
        ensures
            id == old(self)@.next_id(),
            final(self)@ == old(self)@.create_epic(epic.name@, epic.description@),
            final(self)@.epics[id] == EpicView::fresh(epic.name@, epic.description@),
            old(self)@.wf() ==> final(self)@.wf(),
            old(self)@.ids_bounded() ==> final(self)@.ids_bounded(),
    {
        let id = self.last_item_id + 1;
        let stored = Epic::new(epic.name, epic.description);
        proof {
            lemma_epics_view_insert(self.epics@, id, stored);
            if self@.wf() {
                lemma_create_epic_keeps_wf(self@, epic.name@, epic.description@);
            }
        }
        self.epics.insert(id, stored);
        self.last_item_id = id;
        id
    }

    /// Stores a new story under the next id, lists it last in its epic and
    /// returns the id. Fails, and changes nothing, when there is no such epic.
    pub fn create_story(&mut self, story: Story, epic_id: ID) -> (r: Result<ID, DbError>)
        requires
            old(self)@.epics.contains_key(epic_id) ==> old(self)@.has_next_id(),
        ensures
            final(self)@ == old(self)@.after(old(self)@.create_story(story@, epic_id)),
            r == match old(self)@.create_story(story@, epic_id) {
                Ok(_) => Ok::<ID, DbError>(old(self)@.next_id()),
                Err(e) => Err::<ID, DbError>(e),
            },
            r == Err::<ID, DbError>(DbError::EpicNotFound) <==> !old(self)@.epics.contains_key(
                epic_id,
            ),
            old(self)@.wf() ==> final(self)@.wf(),
            old(self)@.ids_bounded() ==> final(self)@.ids_bounded(),
    {
        let ghost before = self@;
        let ghost epics = self.epics@;
        match self.epics.remove(&epic_id) {
            None => {
                proof {
                    assert(self.epics@ =~= epics);
                }
                Err(DbError::EpicNotFound)
            },
            Some(mut epic) => {
                let id = self.last_item_id + 1;
                epic.stories.push(id);
                proof {
                    lemma_epics_view_insert(epics.remove(epic_id), epic_id, epic);
                    lemma_epics_view_remove(epics, epic_id);
                    lemma_stories_view_insert(self.stories@, id, story);
                    assert(before.epics.remove(epic_id).insert(epic_id, epic@)
                        =~= before.epics.insert(epic_id, epic@));
                    if before.wf() {
                        lemma_create_story_keeps_wf(before, story@, epic_id);
                    }
                }
                self.epics.insert(epic_id, epic);
                self.stories.insert(id, story);
                self.last_item_id = id;
                Ok(id)
            },
        }
    }

    /// Removes an epic and every story that it lists. Fails, and changes
    /// nothing, when there is no such epic.
    pub fn delete_epic(&mut self, epic_id: ID) -> (r: Result<(), DbError>)
        ensures
            final(self)@ == old(self)@.after(old(self)@.delete_epic(epic_id)),
            r == reply(old(self)@.delete_epic(epic_id)),
            old(self)@.wf() ==> final(self)@.wf(),
            old(self)@.ids_bounded() ==> final(self)@.ids_bounded(),
    {
        let ghost before = self@;
        let ghost epics = self.epics@;
        let ghost stories = self.stories@;
        match self.epics.remove(&epic_id) {
            None => {
                proof {
                    assert(self.epics@ =~= epics);
                }
                Err(DbError::EpicNotFound)
            },
            Some(epic) => {
                proof {
                    lemma_epics_view_remove(epics, epic_id);
                    assert(epic.stories@.take(0) =~= Seq::<u32>::empty());
                    assert(stories_view(stories).remove_keys(Seq::<u32>::empty().to_set())
                        =~= stories_view(stories));
                }
                let mut i: usize = 0;
                while i < epic.stories.len()
                    invariant
                        i <= epic.stories.len(),
                        self.last_item_id == before.last_item_id,
                        epics_view(self.epics@) == before.epics.remove(epic_id),
                        stories_view(self.stories@) == before.stories.remove_keys(
                            epic.stories@.take(i as int).to_set(),
                        ),
                    decreases epic.stories.len() - i,
                {
                    let story_id = epic.stories[i];
                    proof {
                        lemma_stories_view_remove(self.stories@, story_id);
                        let done = epic.stories@.take(i as int);
                        let next = epic.stories@.take(i + 1);
                        assert(next =~= done.push(story_id));
                        assert(next.to_set() =~= done.to_set().insert(story_id)) by {
                            done.lemma_push_to_set_commute(story_id);
                        }
                        assert(before.stories.remove_keys(done.to_set()).remove(story_id)
                            =~= before.stories.remove_keys(next.to_set()));
                    }
                    self.stories.remove(&story_id);
                    i += 1;
                }
                proof {
                    assert(epic.stories@.take(i as int) =~= epic.stories@);
                    if before.wf() {
                        lemma_delete_epic_keeps_wf(before, epic_id);
                    }
                }
                Ok(())
            },
        }
    }

    /// Removes a story and strikes it from the list of its epic. Fails, and
    /// changes nothing, when there is no such epic or when the epic does not
    /// list the story.
    pub fn delete_story(&mut self, epic_id: ID, story_id: ID) -> (r: Result<(), DbError>)
        ensures
            final(self)@ == old(self)@.after(old(self)@.delete_story(epic_id, story_id)),
            r == reply(old(self)@.delete_story(epic_id, story_id)),
            old(self)@.wf() ==> final(self)@.wf(),
            old(self)@.ids_bounded() ==> final(self)@.ids_bounded(),
    {
        let ghost before = self@;
        let ghost epics = self.epics@;
        match self.epics.remove(&epic_id) {
            None => {
                proof {
                    assert(self.epics@ =~= epics);
                }
                Err(DbError::EpicNotFound)
            },
            Some(mut epic) => {
                if !epic.lists(story_id) {
                    proof {
                        assert(epics.remove(epic_id).insert(epic_id, epic) =~= epics);
                    }
                    self.epics.insert(epic_id, epic);
                    return Err(DbError::StoryNotFound);
                }
                let kept = strip_story(&epic.stories, story_id);
                epic.stories = kept;
                proof {
                    lemma_epics_view_insert(epics.remove(epic_id), epic_id, epic);
                    lemma_epics_view_remove(epics, epic_id);
                    lemma_stories_view_remove(self.stories@, story_id);
                    assert(before.epics.remove(epic_id).insert(epic_id, epic@)
                        =~= before.epics.insert(epic_id, epic@));
                    if before.wf() {
                        lemma_delete_story_keeps_wf(before, epic_id, story_id);
                    }
                }
                self.epics.insert(epic_id, epic);
                self.stories.remove(&story_id);
                Ok(())
            },
        }
    }

    /// Gives an epic another status. Fails, and changes nothing, when there
    /// is no such epic.
    pub fn update_epic_status(&mut self, epic_id: ID, status: Status) -> (r: Result<(), DbError>)
        ensures
            final(self)@ == old(self)@.after(old(self)@.update_epic_status(epic_id, status)),
            r == reply(old(self)@.update_epic_status(epic_id, status)),
            old(self)@.wf() ==> final(self)@.wf(),
            old(self)@.ids_bounded() ==> final(self)@.ids_bounded(),
    {
        let ghost before = self@;
        let ghost epics = self.epics@;
        match self.epics.remove(&epic_id) {
            None => {
                proof {
                    assert(self.epics@ =~= epics);
                }
                Err(DbError::EpicNotFound)
            },
            Some(mut epic) => {
                epic.status = status;
                proof {
                    lemma_epics_view_insert(epics.remove(epic_id), epic_id, epic);
                    lemma_epics_view_remove(epics, epic_id);
                    assert(before.epics.remove(epic_id).insert(epic_id, epic@)
                        =~= before.epics.insert(epic_id, epic@));
                    if before.wf() {
                        lemma_update_epic_status_keeps_wf(before, epic_id, status);
                    }
                }
                self.epics.insert(epic_id, epic);
                Ok(())
            },
        }
    }

    /// Gives a story another status. Fails, and changes nothing, when there
    /// is no such story.
    pub fn update_story_status(&mut self, story_id: ID, status: Status) -> (r: Result<
        (),
        DbError,
    >)
        ensures
            final(self)@ == old(self)@.after(old(self)@.update_story_status(story_id, status)),
            r == reply(old(self)@.update_story_status(story_id, status)),
            old(self)@.wf() ==> final(self)@.wf(),
            old(self)@.ids_bounded() ==> final(self)@.ids_bounded(),
    {
        let ghost before = self@;
        let ghost stories = self.stories@;
        match self.stories.remove(&story_id) {
            None => {
                proof {
                    assert(self.stories@ =~= stories);
                }
                Err(DbError::StoryNotFound)
            },
            Some(mut story) => {
                story.status = status;
                proof {
                    lemma_stories_view_insert(stories.remove(story_id), story_id, story);
                    lemma_stories_view_remove(stories, story_id);
                    assert(before.stories.remove(story_id).insert(story_id, story@)
                        =~= before.stories.insert(story_id, story@));
                    if before.wf() {
                        lemma_update_story_status_keeps_wf(before, story_id, status);
                    }
                }
                self.stories.insert(story_id, story);
                Ok(())
            },
        }
    }
}

} // verus!
