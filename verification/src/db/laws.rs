//! What holds of the store's operations, whatever the document.
use crate::db::model::strip;
use crate::db::DbError;
use crate::models::{DBStateView, EpicView, Status, StoryView};
use vstd::prelude::*;

verus! {

/// Stripping a story from a list with one more item strips it from the list
/// and then keeps or drops the item.
pub proof fn lemma_strip_push(stories: Seq<u32>, last: u32, story_id: u32)
    ensures
        strip(stories.push(last), story_id) == if last != story_id {
            strip(stories, story_id).push(last)
        } else {
            strip(stories, story_id)
        },
{
    reveal(Seq::filter);
    assert(stories.push(last).drop_last() =~= stories);
}

/// A stripped list holds what the list held but for the story, and repeats
/// nothing that the list did not repeat.
pub proof fn lemma_strip(stories: Seq<u32>, story_id: u32)
    ensures
        forall|id: u32| #[trigger]
            strip(stories, story_id).contains(id) <==> stories.contains(id) && id != story_id,
        stories.no_duplicates() ==> strip(stories, story_id).no_duplicates(),
    decreases stories.len(),
{
    if stories.len() == 0 {
        reveal(Seq::filter);
        assert(strip(stories, story_id) =~= stories);
    } else {
        let front = stories.drop_last();
        let last = stories.last();
        assert(stories =~= front.push(last));
        lemma_strip(front, story_id);
        lemma_strip_push(front, last, story_id);
        let stripped_front = strip(front, story_id);
        let stripped = strip(stories, story_id);
        assert forall|id: u32| #[trigger]
            stripped.contains(id) <==> stories.contains(id) && id != story_id by {
            if stripped.contains(id) {
                let i = choose|i: int| 0 <= i < stripped.len() && stripped[i] == id;
                if last != story_id && i == stripped.len() - 1 {
                    assert(stories[stories.len() - 1] == id);
                } else {
                    assert(stripped_front[i] == id);
                    assert(stripped_front.contains(id));
                    let j = choose|j: int| 0 <= j < front.len() && front[j] == id;
                    assert(stories[j] == id);
                }
            }
            if stories.contains(id) && id != story_id {
                let j = choose|j: int| 0 <= j < stories.len() && stories[j] == id;
                if j == stories.len() - 1 {
                    assert(stripped[stripped.len() - 1] == id);
                } else {
                    assert(front[j] == id);
                    assert(front.contains(id));
                    assert(stripped_front.contains(id));
                    let i = choose|i: int| 0 <= i < stripped_front.len() && stripped_front[i] == id;
                    assert(stripped[i] == id);
                }
            }
        }
        if stories.no_duplicates() {
            assert(front.no_duplicates());
            if last != story_id {
                assert forall|i: int, j: int|
                    0 <= i < stripped.len() && 0 <= j < stripped.len() && i != j implies stripped[i]
                    != stripped[j] by {
                    if i == stripped.len() - 1 || j == stripped.len() - 1 {
                        let k = if i == stripped.len() - 1 { j } else { i };
                        assert(stripped_front[k] == stripped[k]);
                        assert(stripped_front.contains(stripped[k]));
                        if stripped[k] == last {
                            let m = choose|m: int| 0 <= m < front.len() && front[m] == last;
                            assert(stories[m] == stories[stories.len() - 1]);
                        }
                    } else {
                        assert(stripped_front[i] != stripped_front[j]);
                    }
                }
            }
        }
    }
}

/// With ids bounded by the counter, the next id names nothing yet.
pub proof fn law_next_id_is_fresh(v: DBStateView)
    requires
        v.ids_bounded(),
        v.has_next_id(),
    ensures
        !v.epics.contains_key(v.next_id()),
        !v.stories.contains_key(v.next_id()),
{
}

/// Creating an epic keeps the document consistent.
pub proof fn lemma_create_epic_keeps_wf(v: DBStateView, name: Seq<char>, description: Seq<char>)
    requires
        v.wf(),
        v.has_next_id(),
    ensures
        v.create_epic(name, description).wf(),
{
    let w = v.create_epic(name, description);
    let id = v.next_id();
    assert(w.epics[id].stories =~= Seq::<u32>::empty());
    assert forall|story_id: u32| #[trigger] w.stories.contains_key(story_id) implies w.is_listed(
        story_id,
    ) by {
        assert(v.is_listed(story_id));
        let e = choose|e: u32|
            v.epics.contains_key(e) && #[trigger] v.epics[e].stories.contains(story_id);
        assert(w.epics.contains_key(e) && w.epics[e].stories.contains(story_id));
    }
}

/// Creating a story keeps the document consistent.
pub proof fn lemma_create_story_keeps_wf(v: DBStateView, story: StoryView, epic_id: u32)
    requires
        v.wf(),
        v.has_next_id(),
        v.create_story(story, epic_id) is Ok,
    ensures
        v.create_story(story, epic_id).unwrap().wf(),
{
    let w = v.create_story(story, epic_id).unwrap();
    let id = v.next_id();
    let before = v.epics[epic_id].stories;
    let after = w.epics[epic_id].stories;
    assert(after == before.push(id));
    assert(after[after.len() - 1] == id);
    assert forall|s: u32| #[trigger] after.contains(s) <==> before.contains(s) || s == id by {
        if after.contains(s) {
            let i = choose|i: int| 0 <= i < after.len() && after[i] == s;
            if i < before.len() {
                assert(before[i] == s);
            }
        }
        if before.contains(s) {
            let i = choose|i: int| 0 <= i < before.len() && before[i] == s;
            assert(after[i] == s);
        }
    }
    assert(!before.contains(id)) by {
        if before.contains(id) {
            assert(v.stories.contains_key(id));
        }
    }
    assert forall|e: u32, s: u32|
        w.epics.contains_key(e) && #[trigger] w.epics[e].stories.contains(
            s,
        ) implies w.stories.contains_key(s) by {
        if e != epic_id {
            assert(v.epics[e].stories.contains(s));
        } else if s != id {
            assert(v.epics[e].stories.contains(s));
        }
    }
    assert forall|e: u32| #[trigger] w.epics.contains_key(e) implies w.epics[e].stories.no_duplicates() by {
        if e == epic_id {
            assert(before.no_duplicates());
            assert forall|i: int, j: int|
                0 <= i < after.len() && 0 <= j < after.len() && i != j implies after[i]
                != after[j] by {
                if i == after.len() - 1 {
                    assert(before[j] == after[j]);
                    assert(before.contains(after[j]));
                } else if j == after.len() - 1 {
                    assert(before[i] == after[i]);
                    assert(before.contains(after[i]));
                } else {
                    assert(before[i] != before[j]);
                }
            }
        } else {
            assert(v.epics.contains_key(e));
        }
    }
    assert forall|e1: u32, e2: u32, s: u32|
        w.epics.contains_key(e1) && w.epics.contains_key(e2)
            && #[trigger] w.epics[e1].stories.contains(s)
            && #[trigger] w.epics[e2].stories.contains(s) implies e1 == e2 by {
        if s == id {
            if e1 != epic_id {
                assert(v.epics[e1].stories.contains(id));
                assert(v.stories.contains_key(id));
            }
            if e2 != epic_id {
                assert(v.epics[e2].stories.contains(id));
                assert(v.stories.contains_key(id));
            }
        } else {
            assert(v.epics[e1].stories.contains(s));
            assert(v.epics[e2].stories.contains(s));
        }
    }
    assert forall|s: u32| #[trigger] w.stories.contains_key(s) implies w.is_listed(s) by {
        if s == id {
            assert(w.epics.contains_key(epic_id) && w.epics[epic_id].stories.contains(s));
        } else {
            assert(v.is_listed(s));
            let e = choose|e: u32|
                v.epics.contains_key(e) && #[trigger] v.epics[e].stories.contains(s);
            assert(w.epics.contains_key(e) && w.epics[e].stories.contains(s));
        }
    }
}

/// Deleting an epic keeps the document consistent.
pub proof fn lemma_delete_epic_keeps_wf(v: DBStateView, epic_id: u32)
    requires
        v.wf(),
        v.delete_epic(epic_id) is Ok,
    ensures
        v.delete_epic(epic_id).unwrap().wf(),
{
    let w = v.delete_epic(epic_id).unwrap();
    let gone = v.epics[epic_id].stories;
    assert forall|e: u32, s: u32|
        w.epics.contains_key(e) && #[trigger] w.epics[e].stories.contains(
            s,
        ) implies w.stories.contains_key(s) by {
        assert(v.epics[e].stories.contains(s));
        if gone.contains(s) {
            assert(v.epics[epic_id].stories.contains(s));
        }
    }
    assert forall|s: u32| #[trigger] w.stories.contains_key(s) implies w.is_listed(s) by {
        assert(v.is_listed(s));
        let e = choose|e: u32|
            v.epics.contains_key(e) && #[trigger] v.epics[e].stories.contains(s);
        assert(!gone.contains(s));
        assert(w.epics.contains_key(e) && w.epics[e].stories.contains(s));
    }
}

/// Deleting a story keeps the document consistent.
pub proof fn lemma_delete_story_keeps_wf(v: DBStateView, epic_id: u32, story_id: u32)
    requires
        v.wf(),
        v.delete_story(epic_id, story_id) is Ok,
    ensures
        v.delete_story(epic_id, story_id).unwrap().wf(),
{
    let w = v.delete_story(epic_id, story_id).unwrap();
    let before = v.epics[epic_id].stories;
    let after = w.epics[epic_id].stories;
    lemma_strip(before, story_id);
    assert(after == strip(before, story_id));
    assert forall|e: u32, s: u32|
        w.epics.contains_key(e) && #[trigger] w.epics[e].stories.contains(
            s,
        ) implies w.stories.contains_key(s) by {
        assert(v.epics[e].stories.contains(s));
        if s == story_id {
            assert(v.epics[epic_id].stories.contains(s));
        }
    }
    assert forall|e: u32| #[trigger] w.epics.contains_key(e) implies w.epics[e].stories.no_duplicates() by {
        assert(v.epics.contains_key(e));
    }
    assert forall|e1: u32, e2: u32, s: u32|
        w.epics.contains_key(e1) && w.epics.contains_key(e2)
            && #[trigger] w.epics[e1].stories.contains(s)
            && #[trigger] w.epics[e2].stories.contains(s) implies e1 == e2 by {
        assert(v.epics[e1].stories.contains(s));
        assert(v.epics[e2].stories.contains(s));
    }
    assert forall|s: u32| #[trigger] w.stories.contains_key(s) implies w.is_listed(s) by {
        assert(v.is_listed(s));
        let e = choose|e: u32|
            v.epics.contains_key(e) && #[trigger] v.epics[e].stories.contains(s);
        assert(w.epics.contains_key(e) && w.epics[e].stories.contains(s));
    }
}

/// Giving an epic another status keeps the document consistent.
pub proof fn lemma_update_epic_status_keeps_wf(v: DBStateView, epic_id: u32, status: Status)
    requires
        v.wf(),
        v.update_epic_status(epic_id, status) is Ok,
    ensures
        v.update_epic_status(epic_id, status).unwrap().wf(),
{
    let w = v.update_epic_status(epic_id, status).unwrap();
    assert forall|e: u32| #[trigger] w.epics.contains_key(e) implies w.epics[e].stories
        == v.epics[e].stories && v.epics.contains_key(e) by {}
    assert forall|e: u32, s: u32|
        w.epics.contains_key(e) && #[trigger] w.epics[e].stories.contains(
            s,
        ) implies w.stories.contains_key(s) by {
        assert(v.epics[e].stories.contains(s));
    }
    assert forall|e1: u32, e2: u32, s: u32|
        w.epics.contains_key(e1) && w.epics.contains_key(e2)
            && #[trigger] w.epics[e1].stories.contains(s)
            && #[trigger] w.epics[e2].stories.contains(s) implies e1 == e2 by {
        assert(v.epics[e1].stories.contains(s));
        assert(v.epics[e2].stories.contains(s));
    }
    assert forall|s: u32| #[trigger] w.stories.contains_key(s) implies w.is_listed(s) by {
        assert(v.is_listed(s));
        let e = choose|e: u32|
            v.epics.contains_key(e) && #[trigger] v.epics[e].stories.contains(s);
        assert(w.epics.contains_key(e) && w.epics[e].stories.contains(s));
    }
}

/// Giving a story another status keeps the document consistent.
pub proof fn lemma_update_story_status_keeps_wf(v: DBStateView, story_id: u32, status: Status)
    requires
        v.wf(),
        v.update_story_status(story_id, status) is Ok,
    ensures
        v.update_story_status(story_id, status).unwrap().wf(),
{
    let w = v.update_story_status(story_id, status).unwrap();
    assert forall|s: u32| #[trigger] w.stories.contains_key(s) implies w.is_listed(s) by {
        assert(v.is_listed(s));
        let e = choose|e: u32|
            v.epics.contains_key(e) && #[trigger] v.epics[e].stories.contains(s);
        assert(w.epics.contains_key(e) && w.epics[e].stories.contains(s));
    }
}

/// After a call to delete an epic, the document holds no epic of that id,
/// and every other epic as before. Of the stories it holds those that the
/// epic did not list, as before, and no others. So the call removes the
/// stories that were listed under the epic, and only those.
pub proof fn law_delete_epic_removes_its_stories_only(v: DBStateView, epic_id: u32)
    ensures
        ({
            let w = v.after(v.delete_epic(epic_id));
            let listed = |s: u32|
                v.epics.contains_key(epic_id) && v.epics[epic_id].stories.contains(s);
            &&& !w.epics.contains_key(epic_id)
            &&& forall|e: u32|
                e != epic_id ==> (#[trigger] w.epics.contains_key(e) <==> v.epics.contains_key(e))
            &&& forall|e: u32| #[trigger] w.epics.contains_key(e) ==> w.epics[e] == v.epics[e]
            &&& forall|s: u32| #[trigger]
                w.stories.contains_key(s) <==> v.stories.contains_key(s) && !listed(s)
            &&& forall|s: u32| #[trigger] w.stories.contains_key(s) ==> w.stories[s] == v.stories[s]
            &&& w.last_item_id == v.last_item_id
        }),
{
}

/// In a consistent document, deleting an epic leaves the stories of every
/// other epic in place.
pub proof fn law_delete_epic_spares_other_epics(v: DBStateView, epic_id: u32, other: u32, s: u32)
    requires
        v.wf(),
        other != epic_id,
        v.epics.contains_key(other),
        v.epics[other].stories.contains(s),
    ensures
        v.after(v.delete_epic(epic_id)).stories.contains_key(s),
        v.after(v.delete_epic(epic_id)).stories[s] == v.stories[s],
{
    if v.epics.contains_key(epic_id) && v.epics[epic_id].stories.contains(s) {
        assert(v.epics[other].stories.contains(s));
    }
}

/// Deleting the same story from the same epic twice in a row: whatever the
/// first call did, the second call fails because the epic does not list the
/// story, and leaves the document as the first call left it.
pub proof fn law_delete_story_twice(v: DBStateView, epic_id: u32, story_id: u32)
    requires
        v.epics.contains_key(epic_id),
    ensures
        ({
            let once = v.after(v.delete_story(epic_id, story_id));
            &&& once.delete_story(epic_id, story_id) == Err::<DBStateView, DbError>(
                DbError::StoryNotFound,
            )
            &&& once.after(once.delete_story(epic_id, story_id)) == once
        }),
{
    lemma_strip(v.epics[epic_id].stories, story_id);
}

/// Creating a story fails for want of its epic exactly where the document
/// holds no epic of the id that was given, and fails for no other reason.
pub proof fn law_create_story_needs_its_epic(v: DBStateView, story: StoryView, epic_id: u32)
    ensures
        v.create_story(story, epic_id) == Err::<DBStateView, DbError>(DbError::EpicNotFound)
            <==> !v.epics.contains_key(epic_id),
        v.create_story(story, epic_id) is Ok <==> v.epics.contains_key(epic_id),
{
}

/// A created epic is stored under the id that is returned, open and with no
/// stories, with the name and the description that were given.
pub proof fn law_created_epic_is_fresh(v: DBStateView, name: Seq<char>, description: Seq<char>)
    ensures
        v.create_epic(name, description).epics.contains_key(v.next_id()),
        v.create_epic(name, description).epics[v.next_id()] == EpicView::fresh(name, description),
        v.create_epic(name, description).epics[v.next_id()].status == Status::Open,
        v.create_epic(name, description).epics[v.next_id()].stories.len() == 0,
{
}

/// Giving an epic or a story the status that it has leaves the document as
/// it is.
pub proof fn law_same_status_changes_nothing(v: DBStateView, id: u32)
    ensures
        v.epics.contains_key(id) ==> v.update_epic_status(id, v.epics[id].status) == Ok::<
            DBStateView,
            DbError,
        >(v),
        v.stories.contains_key(id) ==> v.update_story_status(id, v.stories[id].status) == Ok::<
            DBStateView,
            DbError,
        >(v),
{
    if v.epics.contains_key(id) {
        assert(v.epics.insert(id, v.epics[id].with_status(v.epics[id].status)) =~= v.epics);
    }
    if v.stories.contains_key(id) {
        assert(v.stories.insert(id, v.stories[id].with_status(v.stories[id].status))
            =~= v.stories);
    }
}

/// One call of an operation of the store.
pub enum Call {
    CreateEpic { name: Seq<char>, description: Seq<char> },
    CreateStory { story: StoryView, epic_id: u32 },
    DeleteEpic { epic_id: u32 },
    DeleteStory { epic_id: u32, story_id: u32 },
    UpdateEpicStatus { epic_id: u32, status: Status },
    UpdateStoryStatus { story_id: u32, status: Status },
}

impl DBStateView {
    /// What a call makes of the document.
    pub open spec fn outcome(self, call: Call) -> Result<DBStateView, DbError> {
        match call {
            Call::CreateEpic { name, description } => Ok(self.create_epic(name, description)),
            Call::CreateStory { story, epic_id } => self.create_story(story, epic_id),
            Call::DeleteEpic { epic_id } => self.delete_epic(epic_id),
            Call::DeleteStory { epic_id, story_id } => self.delete_story(epic_id, story_id),
            Call::UpdateEpicStatus { epic_id, status } => self.update_epic_status(epic_id, status),
            Call::UpdateStoryStatus { story_id, status } => self.update_story_status(
                story_id,
                status,
            ),
        }
    }

    /// The id that a call returns: that of the item it created, if it created
    /// one.
    pub open spec fn returned_id(self, call: Call) -> Option<u32> {
        match call {
            Call::CreateEpic { .. } => Some(self.next_id()),
            Call::CreateStory { story, epic_id } => if self.create_story(story, epic_id) is Ok {
                Some(self.next_id())
            } else {
                None
            },
            _ => None,
        }
    }

    /// Whether the call may be made on the document: a call that creates an
    /// item needs an id that the counter can still give.
    pub open spec fn admits(self, call: Call) -> bool {
        self.returned_id(call) is Some ==> self.has_next_id()
    }

    /// The document after a sequence of calls, one after the other.
    pub open spec fn run(self, calls: Seq<Call>) -> DBStateView
        decreases calls.len(),
    {
        if calls.len() == 0 {
            self
        } else {
            let before = self.run(calls.drop_last());
            before.after(before.outcome(calls.last()))
        }
    }

    /// Whether each call of the sequence may be made on the document that the
    /// calls before it have left.
    pub open spec fn admits_all(self, calls: Seq<Call>) -> bool {
        forall|k: int| 0 <= k < calls.len() ==> #[trigger] self.run(calls.take(k)).admits(calls[k])
    }
}

/// Where no id in use is above the counter, none is after a call either.
pub proof fn law_call_keeps_ids_bounded(v: DBStateView, call: Call)
    requires
        v.ids_bounded(),
        v.admits(call),
    ensures
        v.after(v.outcome(call)).ids_bounded(),
{
}

/// No call lowers the counter, and a call that returns an id leaves the
/// counter at that id.
pub proof fn lemma_counter_after_call(v: DBStateView, call: Call)
    requires
        v.admits(call),
    ensures
        v.last_item_id <= v.after(v.outcome(call)).last_item_id,
        v.returned_id(call) matches Some(id) ==> v.last_item_id < id && v.after(
            v.outcome(call),
        ).last_item_id == id,
{
}

/// The counter never falls in the course of a sequence of calls.
pub proof fn lemma_counter_never_falls(v: DBStateView, calls: Seq<Call>, i: int, j: int)
    requires
        v.admits_all(calls),
        0 <= i <= j <= calls.len(),
    ensures
        v.run(calls.take(i)).last_item_id <= v.run(calls.take(j)).last_item_id,
    decreases j - i,
{
    if i < j {
        lemma_counter_never_falls(v, calls, i, j - 1);
        assert(calls.take(j).drop_last() =~= calls.take(j - 1));
        assert(calls.take(j).last() == calls[j - 1]);
        let before = v.run(calls.take(j - 1));
        assert(before.admits(calls[j - 1]));
        lemma_counter_after_call(before, calls[j - 1]);
    }
}

/// Ids only grow: in any sequence of calls, an id that a call returns is
/// greater than every id that an earlier call returned. So no id is given
/// twice, be it to epics or to stories.
pub proof fn law_ids_strictly_increase(v: DBStateView, calls: Seq<Call>, i: int, j: int)
    requires
        v.admits_all(calls),
        0 <= i < j < calls.len(),
        v.run(calls.take(i)).returned_id(calls[i]) is Some,
        v.run(calls.take(j)).returned_id(calls[j]) is Some,
    ensures
        v.run(calls.take(i)).returned_id(calls[i]).unwrap() < v.run(calls.take(j)).returned_id(
            calls[j],
        ).unwrap(),
{
    let at_i = v.run(calls.take(i));
    let at_j = v.run(calls.take(j));
    assert(at_i.admits(calls[i]));
    assert(at_j.admits(calls[j]));
    lemma_counter_after_call(at_i, calls[i]);
    assert(calls.take(i + 1).drop_last() =~= calls.take(i));
    assert(calls.take(i + 1).last() == calls[i]);
    assert(v.run(calls.take(i + 1)) == at_i.after(at_i.outcome(calls[i])));
    lemma_counter_never_falls(v, calls, i + 1, j);
    lemma_counter_after_call(at_j, calls[j]);
}

/// In a consistent document, every sequence of calls leaves a consistent
/// document.
pub proof fn law_calls_keep_wf(v: DBStateView, calls: Seq<Call>)
    requires
        v.wf(),
        v.admits_all(calls),
    ensures
        v.run(calls).wf(),
    decreases calls.len(),
{
    if calls.len() > 0 {
        let front = calls.drop_last();
        assert forall|k: int| 0 <= k < front.len() implies #[trigger] v.run(front.take(k)).admits(
            front[k],
        ) by {
            assert(front.take(k) =~= calls.take(k));
        }
        law_calls_keep_wf(v, front);
        let before = v.run(front);
        assert(calls.take(calls.len() - 1) =~= front);
        assert(before.admits(calls[calls.len() - 1]));
        lemma_call_keeps_wf(before, calls.last());
    }
}

/// In a consistent document, every call leaves a consistent document.
pub proof fn lemma_call_keeps_wf(v: DBStateView, call: Call)
    requires
        v.wf(),
        v.admits(call),
    ensures
        v.after(v.outcome(call)).wf(),
{
    if v.outcome(call) is Ok {
        match call {
            Call::CreateEpic { name, description } => {
                lemma_create_epic_keeps_wf(v, name, description);
            },
            Call::CreateStory { story, epic_id } => {
                lemma_create_story_keeps_wf(v, story, epic_id);
            },
            Call::DeleteEpic { epic_id } => {
                lemma_delete_epic_keeps_wf(v, epic_id);
            },
            Call::DeleteStory { epic_id, story_id } => {
                lemma_delete_story_keeps_wf(v, epic_id, story_id);
            },
            Call::UpdateEpicStatus { epic_id, status } => {
                lemma_update_epic_status_keeps_wf(v, epic_id, status);
            },
            Call::UpdateStoryStatus { story_id, status } => {
                lemma_update_story_status_keeps_wf(v, story_id, status);
            },
        }
    }
}

} // verus!
