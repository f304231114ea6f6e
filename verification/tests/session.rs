use my_jira::db::test_utils::MockDB;
use my_jira::db::{Database, DbError, JiraDatabase};
use my_jira::models::{Action, DBState, Epic, Status, Story};
use my_jira::navigator::{Answer, Navigator, Request};
use my_jira::ui::pages::{EpicDetail, HomePage, Page, StoryDetail};
use my_jira::ui::prompts::{read_confirmation, read_status, Prompts};
use std::cell::RefCell;
use std::collections::{HashMap, VecDeque};
use std::rc::Rc;

/// The lines that the user will type, one after the other.
type Lines = Rc<RefCell<VecDeque<String>>>;

/// Answers each question with the next lines that the user types.
struct Typed {
    lines: Lines,
}

impl Typed {
    fn next(&self) -> String {
        self.lines.borrow_mut().pop_front().unwrap()
    }
}

impl Prompts for Typed {
    fn create_epic(&self) -> Epic {
        let name = self.next();
        let description = self.next();
        Epic::new(name, description)
    }

    fn create_story(&self) -> Story {
        let name = self.next();
        let description = self.next();
        Story::new(name, description)
    }

    fn delete_epic(&self) -> bool {
        read_confirmation(&self.next())
    }

    fn delete_story(&self) -> bool {
        read_confirmation(&self.next())
    }

    fn update_status(&self) -> Option<Status> {
        read_status(&self.next())
    }
}

/// Runs a session on the typed lines and returns the pages that were shown
/// when a line was read, and the number of lines that were left unread.
fn session(db: &mut JiraDatabase<MockDB>, typed: &[&str]) -> (Vec<Page>, usize) {
    let lines: Lines = Rc::new(RefCell::new(
        typed.iter().map(|line| line.to_string()).collect(),
    ));
    let prompts = Typed {
        lines: lines.clone(),
    };
    let mut nav = Navigator::new();
    let mut shown = Vec::new();
    loop {
        let page = match nav.get_current_page() {
            None => break,
            Some(page) => page,
        };
        let _ = page.draw_page(db);
        let input = match lines.borrow_mut().pop_front() {
            None => break,
            Some(input) => input,
        };
        shown.push(page);
        if let Ok(Some(action)) = page.handle_input(input.trim(), db) {
            let _ = nav.handle_action(action, db, &prompts);
        }
    }
    let unread = lines.borrow().len();
    (shown, unread)
}

fn holding(state: &DBState) -> JiraDatabase<MockDB> {
    let mut backend = MockDB::new();
    backend.write_db(state).unwrap();
    JiraDatabase::new(backend)
}

fn epic(name: &str, description: &str, stories: Vec<u32>) -> Epic {
    let mut epic = Epic::new(name.to_owned(), description.to_owned());
    epic.stories = stories;
    epic
}

#[test]
fn session_should_store_the_epic_that_was_typed() {
    let mut db = JiraDatabase::new(MockDB::new());

    let (_, unread) = session(&mut db, &["c", "E1", "d", "q"]);

    assert_eq!(unread, 0);
    let expected = DBState {
        last_item_id: 1,
        epics: HashMap::from([(1, epic("E1", "d", vec![]))]),
        stories: HashMap::new(),
    };
    assert_eq!(db.read_db().unwrap(), expected);
}

#[test]
fn session_should_delete_the_confirmed_epic_only() {
    let mut db = JiraDatabase::new(MockDB::new());

    let (_, unread) = session(
        &mut db,
        &[
            "c", "E1", "d", "c", "E2", "d", "1", "c", "S1", "d", "p", "2", "c", "S2", "d", "p",
            "1", "d", "Y", "q",
        ],
    );

    assert_eq!(unread, 0);
    let expected = DBState {
        last_item_id: 4,
        epics: HashMap::from([(2, epic("E2", "d", vec![4]))]),
        stories: HashMap::from([(4, Story::new("S2".to_owned(), "d".to_owned()))]),
    };
    assert_eq!(db.read_db().unwrap(), expected);
}

#[test]
fn session_should_keep_the_document_when_the_status_stays() {
    let mut before = DBState::new();
    before.create_epic(Epic::new("E".to_owned(), "d".to_owned()));
    before
        .create_story(Story::new("S".to_owned(), "s".to_owned()), 1)
        .unwrap();
    let mut db = holding(&before);

    let (_, unread) = session(&mut db, &["1", "u", "1", "p", "q"]);

    assert_eq!(unread, 0);
    assert_eq!(db.read_db().unwrap(), before);
}

#[test]
fn session_should_delete_an_epic_with_its_story() {
    let mut db = JiraDatabase::new(MockDB::new());

    let (_, unread) = session(
        &mut db,
        &["c", "E1", "d", "1", "c", "S1", "d", "d", "Y", "q"],
    );

    assert_eq!(unread, 0);
    let expected = DBState {
        last_item_id: 2,
        epics: HashMap::new(),
        stories: HashMap::new(),
    };
    assert_eq!(db.read_db().unwrap(), expected);
}

#[test]
fn session_should_delete_the_confirmed_story() {
    let mut db = JiraDatabase::new(MockDB::new());

    let (_, unread) = session(
        &mut db,
        &[
            "c", "A", "a", "c", "B", "b", "1", "c", "S", "s", "3", "d", "Y", "p", "q",
        ],
    );

    assert_eq!(unread, 0);
    let expected = DBState {
        last_item_id: 3,
        epics: HashMap::from([(1, epic("A", "a", vec![])), (2, epic("B", "b", vec![]))]),
        stories: HashMap::new(),
    };
    assert_eq!(db.read_db().unwrap(), expected);
}

#[test]
fn session_should_neither_delete_nor_leave_when_declined() {
    let mut before = DBState::new();
    before.create_epic(Epic::new("E".to_owned(), "d".to_owned()));
    let mut db = holding(&before);

    let (shown, unread) = session(&mut db, &["1", "d", "n", "q", "p", "q"]);

    assert_eq!(unread, 0);
    let home = Page::Home(HomePage {});
    let detail = Page::EpicDetail(EpicDetail { epic_id: 1 });
    assert_eq!(shown, vec![home, detail, detail, detail, home]);
    assert_eq!(db.read_db().unwrap(), before);
}

#[test]
fn request_should_follow_the_answer() {
    let typed = Epic::new("typed".to_owned(), "d".to_owned());
    let told = Story::new("told".to_owned(), "s".to_owned());

    assert_eq!(
        Navigator::request(Action::CreateEpic, Answer::NewEpic(typed.clone())),
        Request::CreateEpic(typed.clone())
    );
    assert_eq!(
        Navigator::request(
            Action::CreateStory { epic_id: 5 },
            Answer::NewStory(told.clone())
        ),
        Request::CreateStory {
            story: told.clone(),
            epic_id: 5
        }
    );
    assert_eq!(
        Navigator::request(Action::DeleteEpic { epic_id: 5 }, Answer::Confirmed(true)),
        Request::DeleteEpic { epic_id: 5 }
    );
    assert_eq!(
        Navigator::request(Action::DeleteEpic { epic_id: 5 }, Answer::Confirmed(false)),
        Request::Nothing
    );
    assert_eq!(
        Navigator::request(
            Action::DeleteStory {
                epic_id: 5,
                story_id: 6
            },
            Answer::Confirmed(true)
        ),
        Request::DeleteStory {
            epic_id: 5,
            story_id: 6
        }
    );
    assert_eq!(
        Navigator::request(
            Action::DeleteStory {
                epic_id: 5,
                story_id: 6
            },
            Answer::Confirmed(false)
        ),
        Request::Nothing
    );
    assert_eq!(
        Navigator::request(
            Action::UpdateEpicStatus { epic_id: 5 },
            Answer::NewStatus(Some(Status::Closed))
        ),
        Request::UpdateEpicStatus {
            epic_id: 5,
            status: Status::Closed
        }
    );
    assert_eq!(
        Navigator::request(
            Action::UpdateEpicStatus { epic_id: 5 },
            Answer::NewStatus(None)
        ),
        Request::Nothing
    );
    assert_eq!(
        Navigator::request(
            Action::UpdateStoryStatus { story_id: 6 },
            Answer::NewStatus(Some(Status::Resolved))
        ),
        Request::UpdateStoryStatus {
            story_id: 6,
            status: Status::Resolved
        }
    );
    assert_eq!(
        Navigator::request(
            Action::UpdateStoryStatus { story_id: 6 },
            Answer::NewStatus(None)
        ),
        Request::Nothing
    );
}

#[test]
fn request_should_need_no_answer_to_move_between_pages() {
    assert_eq!(
        Navigator::request(Action::NavigateToEpicDetail { epic_id: 5 }, Answer::NotAsked),
        Request::Push(Page::EpicDetail(EpicDetail { epic_id: 5 }))
    );
    assert_eq!(
        Navigator::request(
            Action::NavigateToStoryDetail {
                epic_id: 5,
                story_id: 6
            },
            Answer::NotAsked
        ),
        Request::Push(Page::StoryDetail(StoryDetail {
            epic_id: 5,
            story_id: 6
        }))
    );
    assert_eq!(
        Navigator::request(Action::NavigateToPreviousPage, Answer::NotAsked),
        Request::Back
    );
    assert_eq!(
        Navigator::request(Action::Exit, Answer::Confirmed(true)),
        Request::Exit
    );
}

#[test]
fn request_should_do_nothing_with_an_answer_of_another_kind() {
    assert_eq!(
        Navigator::request(Action::CreateEpic, Answer::Confirmed(true)),
        Request::Nothing
    );
    assert_eq!(
        Navigator::request(Action::CreateStory { epic_id: 5 }, Answer::NotAsked),
        Request::Nothing
    );
    assert_eq!(
        Navigator::request(
            Action::DeleteEpic { epic_id: 5 },
            Answer::NewStatus(Some(Status::Open))
        ),
        Request::Nothing
    );
    assert_eq!(
        Navigator::request(Action::UpdateEpicStatus { epic_id: 5 }, Answer::Confirmed(true)),
        Request::Nothing
    );
}

#[test]
fn ask_should_put_the_question_of_the_action() {
    let lines: Lines = Rc::new(RefCell::new(
        ["N", "D", "n", "d", "Y", "n", "3", "x"]
            .iter()
            .map(|line| line.to_string())
            .collect(),
    ));
    let prompts = Typed {
        lines: lines.clone(),
    };

    assert_eq!(
        Navigator::ask(Action::NavigateToEpicDetail { epic_id: 1 }, &prompts),
        Answer::NotAsked
    );
    assert_eq!(Navigator::ask(Action::Exit, &prompts), Answer::NotAsked);
    assert_eq!(lines.borrow().len(), 8);
    assert_eq!(
        Navigator::ask(Action::CreateEpic, &prompts),
        Answer::NewEpic(Epic::new("N".to_owned(), "D".to_owned()))
    );
    assert_eq!(
        Navigator::ask(Action::CreateStory { epic_id: 1 }, &prompts),
        Answer::NewStory(Story::new("n".to_owned(), "d".to_owned()))
    );
    assert_eq!(
        Navigator::ask(Action::DeleteEpic { epic_id: 1 }, &prompts),
        Answer::Confirmed(true)
    );
    assert_eq!(
        Navigator::ask(
            Action::DeleteStory {
                epic_id: 1,
                story_id: 2
            },
            &prompts
        ),
        Answer::Confirmed(false)
    );
    assert_eq!(
        Navigator::ask(Action::UpdateEpicStatus { epic_id: 1 }, &prompts),
        Answer::NewStatus(Some(Status::Resolved))
    );
    assert_eq!(
        Navigator::ask(Action::UpdateStoryStatus { story_id: 2 }, &prompts),
        Answer::NewStatus(None)
    );
    assert_eq!(lines.borrow().len(), 0);
}

#[test]
fn handle_answer_should_do_what_the_answer_says() {
    let mut db = JiraDatabase::new(MockDB::new());
    let mut nav = Navigator::new();

    assert_eq!(
        nav.handle_answer(
            Action::CreateEpic,
            Answer::NewEpic(Epic::new("typed".to_owned(), "d".to_owned())),
            &mut db
        ),
        Ok(())
    );
    assert_eq!(
        db.read_db().unwrap().epics.get(&1),
        Some(&Epic::new("typed".to_owned(), "d".to_owned()))
    );
    nav.handle_answer(
        Action::NavigateToEpicDetail { epic_id: 1 },
        Answer::NotAsked,
        &mut db,
    )
    .unwrap();

    assert_eq!(
        nav.handle_answer(
            Action::DeleteEpic { epic_id: 1 },
            Answer::Confirmed(false),
            &mut db
        ),
        Ok(())
    );
    assert_eq!(nav.get_page_count(), 2);
    assert_eq!(db.read_db().unwrap().epics.len(), 1);

    assert_eq!(
        nav.handle_answer(
            Action::UpdateEpicStatus { epic_id: 1 },
            Answer::NewStatus(Some(Status::Closed)),
            &mut db
        ),
        Ok(())
    );
    assert_eq!(
        db.read_db().unwrap().epics.get(&1).unwrap().status,
        Status::Closed
    );
    assert_eq!(
        nav.handle_answer(
            Action::UpdateEpicStatus { epic_id: 9 },
            Answer::NewStatus(Some(Status::Closed)),
            &mut db
        ),
        Err(DbError::EpicNotFound)
    );

    assert_eq!(
        nav.handle_answer(
            Action::DeleteEpic { epic_id: 1 },
            Answer::Confirmed(true),
            &mut db
        ),
        Ok(())
    );
    assert_eq!(nav.get_page_count(), 1);
    assert_eq!(db.read_db().unwrap().epics.len(), 0);
}
