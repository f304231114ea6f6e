use my_jira::db::test_utils::MockDB;
use my_jira::db::{Database, DbError, JiraDatabase};
use my_jira::models::{DBState, Epic, Status, Story};
use std::collections::HashMap;

fn epic(name: &str) -> Epic {
    Epic::new(name.to_owned(), "d".to_owned())
}

fn story(name: &str) -> Story {
    Story::new(name.to_owned(), "d".to_owned())
}

#[test]
fn new_epic_should_be_open_and_empty() {
    let epic = Epic::new("name".to_owned(), "description".to_owned());

    assert_eq!(epic.name, "name");
    assert_eq!(epic.description, "description");
    assert_eq!(epic.status, Status::Open);
    assert_eq!(epic.stories, Vec::<u32>::new());
}

#[test]
fn new_story_should_be_open() {
    let story = Story::new("name".to_owned(), "description".to_owned());

    assert_eq!(story.name, "name");
    assert_eq!(story.description, "description");
    assert_eq!(story.status, Status::Open);
}

#[test]
fn new_document_should_be_empty() {
    let state = DBState::new();

    assert_eq!(state.last_item_id, 0);
    assert_eq!(state.epics, HashMap::new());
    assert_eq!(state.stories, HashMap::new());
    assert_eq!(MockDB::new().read_db().unwrap(), state);
}

#[test]
fn create_epic_should_store_an_open_epic_without_stories() {
    let mut db = JiraDatabase::new(MockDB::new());
    let mut given = Epic::new("E1".to_owned(), "d".to_owned());
    given.status = Status::Closed;
    given.stories = vec![7, 8];

    let id = db.create_epic(given).unwrap();

    assert_eq!(id, 1);
    let state = db.read_db().unwrap();
    assert_eq!(state.last_item_id, 1);
    assert_eq!(state.epics.len(), 1);
    assert_eq!(
        state.epics.get(&1),
        Some(&Epic::new("E1".to_owned(), "d".to_owned()))
    );
    assert_eq!(state.epics.get(&1).unwrap().status, Status::Open);
    assert_eq!(state.epics.get(&1).unwrap().stories, Vec::<u32>::new());
    assert_eq!(state.stories.len(), 0);
}

#[test]
fn create_story_should_fail_without_its_epic() {
    let mut db = JiraDatabase::new(MockDB::new());

    assert_eq!(db.create_story(story("S"), 1), Err(DbError::EpicNotFound));
    assert_eq!(db.read_db().unwrap(), DBState::new());

    let epic_id = db.create_epic(epic("E")).unwrap();
    assert_eq!(
        db.create_story(story("S"), epic_id + 1),
        Err(DbError::EpicNotFound)
    );
    assert_eq!(db.read_db().unwrap().last_item_id, 1);
    assert_eq!(db.create_story(story("S"), epic_id), Ok(2));
    assert_eq!(db.create_story(story("S"), 2), Err(DbError::EpicNotFound));
}

#[test]
fn create_story_should_list_the_story_last() {
    let mut db = JiraDatabase::new(MockDB::new());
    let epic_id = db.create_epic(epic("E")).unwrap();
    let mut given = story("S1");
    given.status = Status::Resolved;

    let first = db.create_story(given.clone(), epic_id).unwrap();
    let second = db.create_story(story("S2"), epic_id).unwrap();

    assert_eq!((first, second), (2, 3));
    let state = db.read_db().unwrap();
    assert_eq!(state.last_item_id, 3);
    assert_eq!(state.epics.get(&epic_id).unwrap().stories, vec![2, 3]);
    assert_eq!(state.stories.get(&2), Some(&given));
    assert_eq!(state.stories.get(&3), Some(&story("S2")));
}

#[test]
fn delete_epic_should_remove_its_stories_only() {
    let mut db = JiraDatabase::new(MockDB::new());
    let first = db.create_epic(epic("E1")).unwrap();
    let second = db.create_epic(epic("E2")).unwrap();
    let a = db.create_story(story("A"), first).unwrap();
    let b = db.create_story(story("B"), second).unwrap();
    let c = db.create_story(story("C"), first).unwrap();

    db.delete_epic(first).unwrap();

    let state = db.read_db().unwrap();
    assert_eq!(state.epics.contains_key(&first), false);
    assert_eq!(state.epics.get(&second).unwrap().stories, vec![b]);
    assert_eq!(state.stories.contains_key(&a), false);
    assert_eq!(state.stories.contains_key(&c), false);
    assert_eq!(state.stories.get(&b), Some(&story("B")));
    assert_eq!(state.stories.len(), 1);
    assert_eq!(state.last_item_id, 5);
}

#[test]
fn delete_epic_should_fail_without_the_epic() {
    let mut db = JiraDatabase::new(MockDB::new());
    let epic_id = db.create_epic(epic("E")).unwrap();
    db.create_story(story("S"), epic_id).unwrap();
    let before = db.read_db().unwrap();

    assert_eq!(db.delete_epic(2), Err(DbError::EpicNotFound));
    assert_eq!(db.delete_epic(9), Err(DbError::EpicNotFound));

    assert_eq!(db.read_db().unwrap(), before);
}

#[test]
fn delete_story_should_fail_without_epic_or_story() {
    let mut db = JiraDatabase::new(MockDB::new());
    let first = db.create_epic(epic("E1")).unwrap();
    let second = db.create_epic(epic("E2")).unwrap();
    let story_id = db.create_story(story("S"), first).unwrap();
    let before = db.read_db().unwrap();

    assert_eq!(db.delete_story(9, story_id), Err(DbError::EpicNotFound));
    assert_eq!(db.delete_story(first, 9), Err(DbError::StoryNotFound));
    assert_eq!(
        db.delete_story(second, story_id),
        Err(DbError::StoryNotFound)
    );
    assert_eq!(db.delete_story(9, 9), Err(DbError::EpicNotFound));

    assert_eq!(db.read_db().unwrap(), before);
}

#[test]
fn delete_story_twice_should_fail_and_change_nothing() {
    let mut db = JiraDatabase::new(MockDB::new());
    let epic_id = db.create_epic(epic("E")).unwrap();
    let kept = db.create_story(story("kept"), epic_id).unwrap();
    let gone = db.create_story(story("gone"), epic_id).unwrap();

    assert_eq!(db.delete_story(epic_id, gone), Ok(()));
    let after_first = db.read_db().unwrap();
    assert_eq!(db.delete_story(epic_id, gone), Err(DbError::StoryNotFound));
    let after_second = db.read_db().unwrap();

    assert_eq!(after_first, after_second);
    assert_eq!(after_first.epics.get(&epic_id).unwrap().stories, vec![kept]);
    assert_eq!(after_first.stories.len(), 1);
}

#[test]
fn delete_story_should_strike_every_occurrence() {
    let mut state = DBState::new();
    let epic_id = state.create_epic(epic("E"));
    let a = state.create_story(story("A"), epic_id).unwrap();
    let b = state.create_story(story("B"), epic_id).unwrap();
    state.epics.get_mut(&epic_id).unwrap().stories = vec![a, b, a, a, b];

    assert_eq!(state.delete_story(epic_id, a), Ok(()));

    assert_eq!(state.epics.get(&epic_id).unwrap().stories, vec![b, b]);
    assert_eq!(state.stories.contains_key(&a), false);
    assert_eq!(state.delete_story(epic_id, a), Err(DbError::StoryNotFound));
}

#[test]
fn update_status_should_change_the_status_only() {
    let mut db = JiraDatabase::new(MockDB::new());
    let epic_id = db.create_epic(epic("E")).unwrap();
    let story_id = db.create_story(story("S"), epic_id).unwrap();

    db.update_epic_status(epic_id, Status::Resolved).unwrap();
    db.update_story_status(story_id, Status::InProgress)
        .unwrap();

    let state = db.read_db().unwrap();
    let mut expected_epic = epic("E");
    expected_epic.status = Status::Resolved;
    expected_epic.stories = vec![story_id];
    let mut expected_story = story("S");
    expected_story.status = Status::InProgress;
    assert_eq!(state.epics.get(&epic_id), Some(&expected_epic));
    assert_eq!(state.stories.get(&story_id), Some(&expected_story));
    assert_eq!(state.last_item_id, 2);

    db.update_epic_status(epic_id, Status::Closed).unwrap();
    db.update_story_status(story_id, Status::Open).unwrap();
    let state = db.read_db().unwrap();
    assert_eq!(state.epics.get(&epic_id).unwrap().status, Status::Closed);
    assert_eq!(state.stories.get(&story_id).unwrap().status, Status::Open);
}

#[test]
fn update_status_should_fail_without_the_item() {
    let mut db = JiraDatabase::new(MockDB::new());
    let epic_id = db.create_epic(epic("E")).unwrap();
    let story_id = db.create_story(story("S"), epic_id).unwrap();
    let before = db.read_db().unwrap();

    assert_eq!(
        db.update_epic_status(story_id, Status::Closed),
        Err(DbError::EpicNotFound)
    );
    assert_eq!(
        db.update_story_status(epic_id, Status::Closed),
        Err(DbError::StoryNotFound)
    );
    assert_eq!(
        db.update_epic_status(9, Status::Closed),
        Err(DbError::EpicNotFound)
    );
    assert_eq!(
        db.update_story_status(9, Status::Closed),
        Err(DbError::StoryNotFound)
    );

    assert_eq!(db.read_db().unwrap(), before);
}

#[test]
fn ids_should_grow_and_never_come_back() {
    let mut db = JiraDatabase::new(MockDB::new());
    let mut returned: Vec<u32> = Vec::new();

    returned.push(db.create_epic(epic("E1")).unwrap());
    returned.push(db.create_story(story("S1"), 1).unwrap());
    db.delete_story(1, 2).unwrap();
    returned.push(db.create_story(story("S2"), 1).unwrap());
    returned.push(db.create_epic(epic("E2")).unwrap());
    db.delete_epic(1).unwrap();
    returned.push(db.create_epic(epic("E3")).unwrap());
    assert_eq!(db.create_story(story("S3"), 1), Err(DbError::EpicNotFound));
    returned.push(db.create_story(story("S4"), 4).unwrap());
    db.delete_epic(4).unwrap();
    db.delete_epic(5).unwrap();
    assert_eq!(db.read_db().unwrap().epics.len(), 0);
    returned.push(db.create_epic(epic("E4")).unwrap());

    assert_eq!(returned, vec![1, 2, 3, 4, 5, 6, 7]);
    assert_eq!(db.read_db().unwrap().last_item_id, 7);
}

#[test]
fn scenario_delete_epic_with_its_story() {
    let mut db = JiraDatabase::new(MockDB::new());

    assert_eq!(
        db.create_epic(Epic::new("E1".to_owned(), "d".to_owned())),
        Ok(1)
    );
    assert_eq!(
        db.create_story(Story::new("S1".to_owned(), "d".to_owned()), 1),
        Ok(2)
    );
    assert_eq!(db.delete_epic(1), Ok(()));

    let state = db.read_db().unwrap();
    assert_eq!(state.epics, HashMap::new());
    assert_eq!(state.stories, HashMap::new());
}

#[test]
fn scenario_delete_story_of_first_epic() {
    let mut db = JiraDatabase::new(MockDB::new());

    assert_eq!(db.create_epic(epic("E1")), Ok(1));
    assert_eq!(db.create_epic(epic("E2")), Ok(2));
    assert_eq!(db.create_story(story("S1"), 1), Ok(3));
    assert_eq!(db.delete_story(1, 3), Ok(()));

    let state = db.read_db().unwrap();
    assert_eq!(state.stories, HashMap::new());
    assert_eq!(state.epics.get(&1).unwrap().stories, Vec::<u32>::new());
    assert_eq!(state.epics.len(), 2);
}

#[test]
fn document_operations_should_agree_with_the_store() {
    let mut state = DBState::new();

    assert_eq!(state.create_epic(epic("E1")), 1);
    assert_eq!(state.create_story(story("S1"), 1), Ok(2));
    assert_eq!(state.create_story(story("S2"), 2), Err(DbError::EpicNotFound));
    assert_eq!(state.update_epic_status(1, Status::InProgress), Ok(()));
    assert_eq!(state.update_story_status(2, Status::Closed), Ok(()));
    assert_eq!(
        state.update_story_status(1, Status::Closed),
        Err(DbError::StoryNotFound)
    );
    assert_eq!(state.epics.get(&1).unwrap().lists(2), true);
    assert_eq!(state.epics.get(&1).unwrap().lists(1), false);
    assert_eq!(state.delete_story(1, 2), Ok(()));
    assert_eq!(state.epics.get(&1).unwrap().lists(2), false);
    assert_eq!(state.delete_epic(1), Ok(()));
    assert_eq!(state.delete_epic(1), Err(DbError::EpicNotFound));

    assert_eq!(state.last_item_id, 2);
    assert_eq!(state.epics.len(), 0);
    assert_eq!(state.stories.len(), 0);
}

#[test]
fn written_document_should_be_read_back() {
    let mut backend = MockDB::new();
    let mut state = DBState::new();
    state.create_epic(epic("E1"));
    state.create_story(story("S1"), 1).unwrap();
    state.update_story_status(2, Status::Resolved).unwrap();

    backend.write_db(&state).unwrap();
    let read = backend.read_db().unwrap();
    backend.write_db(&read).unwrap();

    assert_eq!(backend.read_db().unwrap(), state);
}

#[test]
fn counter_should_give_ids_up_to_the_last_one() {
    let mut state = DBState::new();
    assert_eq!(state.has_next_id(), true);
    state.last_item_id = u32::MAX - 1;
    assert_eq!(state.has_next_id(), true);

    assert_eq!(state.create_epic(epic("last")), u32::MAX);

    assert_eq!(state.last_item_id, u32::MAX);
    assert_eq!(state.has_next_id(), false);
    assert_eq!(
        state.create_story(story("S"), 7),
        Err(DbError::EpicNotFound)
    );
    assert_eq!(state.epics.get(&u32::MAX), Some(&epic("last")));
}
