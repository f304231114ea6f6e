use my_jira::db::test_utils::MockDB;
use my_jira::db::JiraDatabase;
use my_jira::models::{Action, Epic, Story};
use my_jira::ui::pages::page_helpers::get_column_string;
use my_jira::ui::pages::{EpicDetail, HomePage, StoryDetail};

#[test]
fn handle_input_should_not_throw_error() {
    let db = JiraDatabase {
        database: MockDB::new(),
    };

    let page = HomePage {};
    assert_eq!(page.handle_input("", &db).is_ok(), true);
}

#[test]
fn handle_input_should_return_the_correct_actions() {
    let mut db = JiraDatabase {
        database: MockDB::new(),
    };

    let epic = Epic::new("".to_owned(), "".to_owned());

    let epic_id = db.create_epic(epic).unwrap();

    let page = HomePage {};

    let q = "q";
    let c = "c";
    let valid_epic_id = epic_id.to_string();
    let invalid_epic_id = "999";
    let junk_input = "j983f2j";
    let junk_input_with_valid_prefix = "q983f2j";
    let input_with_trailing_white_spaces = "q\n";

    assert_eq!(page.handle_input(q, &db).unwrap(), Some(Action::Exit));
    assert_eq!(page.handle_input(c, &db).unwrap(), Some(Action::CreateEpic));
    assert_eq!(
        page.handle_input(&valid_epic_id, &db).unwrap(),
        Some(Action::NavigateToEpicDetail { epic_id: 1 })
    );
    assert_eq!(page.handle_input(invalid_epic_id, &db).unwrap(), None);
    assert_eq!(page.handle_input(junk_input, &db).unwrap(), None);
    assert_eq!(
        page.handle_input(junk_input_with_valid_prefix, &db).unwrap(),
        None
    );
    assert_eq!(
        page.handle_input(input_with_trailing_white_spaces, &db)
            .unwrap(),
        None
    );
}

#[test]
fn mod_handle_input_should_not_throw_error() {
    let mut db = JiraDatabase {
        database: MockDB::new(),
    };
    let epic_id = db
        .create_epic(Epic::new("".to_owned(), "".to_owned()))
        .unwrap();

    let page = EpicDetail { epic_id };
    assert_eq!(page.handle_input("", &db).is_ok(), true);
}

#[test]
fn mod_handle_input_should_return_the_correct_actions() {
    let mut db = JiraDatabase {
        database: MockDB::new(),
    };

    let epic_id = db
        .create_epic(Epic::new("".to_owned(), "".to_owned()))
        .unwrap();
    let story_id = db
        .create_story(Story::new("".to_owned(), "".to_owned()), epic_id)
        .unwrap();

    let page = EpicDetail { epic_id };

    let p = "p";
    let u = "u";
    let d = "d";
    let c = "c";
    let invalid_story_id = "999";
    let junk_input = "j983f2j";
    let junk_input_with_valid_prefix = "p983f2j";
    let input_with_trailing_white_spaces = "p\n";

    assert_eq!(
        page.handle_input(p, &db).unwrap(),
        Some(Action::NavigateToPreviousPage)
    );
    assert_eq!(
        page.handle_input(u, &db).unwrap(),
        Some(Action::UpdateEpicStatus { epic_id: 1 })
    );
    assert_eq!(
        page.handle_input(d, &db).unwrap(),
        Some(Action::DeleteEpic { epic_id: 1 })
    );
    assert_eq!(
        page.handle_input(c, &db).unwrap(),
        Some(Action::CreateStory { epic_id: 1 })
    );
    assert_eq!(
        page.handle_input(&story_id.to_string(), &db).unwrap(),
        Some(Action::NavigateToStoryDetail {
            epic_id: 1,
            story_id: 2
        })
    );
    assert_eq!(page.handle_input(invalid_story_id, &db).unwrap(), None);
    assert_eq!(page.handle_input(junk_input, &db).unwrap(), None);
    assert_eq!(
        page.handle_input(junk_input_with_valid_prefix, &db).unwrap(),
        None
    );
    assert_eq!(
        page.handle_input(input_with_trailing_white_spaces, &db)
            .unwrap(),
        None
    );
}

#[test]
fn story_detail_handle_input_should_not_throw_error() {
    let mut db = JiraDatabase {
        database: MockDB::new(),
    };

    let epic_id = db
        .create_epic(Epic::new("".to_owned(), "".to_owned()))
        .unwrap();
    let story_id = db
        .create_story(Story::new("".to_owned(), "".to_owned()), epic_id)
        .unwrap();

    let page = StoryDetail { epic_id, story_id };
    assert_eq!(page.handle_input("", &db).is_ok(), true);
}

#[test]
fn story_detail_handle_input_should_return_the_correct_actions() {
    let mut db = JiraDatabase {
        database: MockDB::new(),
    };

    let epic_id = db
        .create_epic(Epic::new("".to_owned(), "".to_owned()))
        .unwrap();
    let story_id = db
        .create_story(Story::new("".to_owned(), "".to_owned()), epic_id)
        .unwrap();

    let page = StoryDetail { epic_id, story_id };

    let p = "p";
    let u = "u";
    let d = "d";
    let some_number = "1";
    let junk_input = "j983f2j";
    let junk_input_with_valid_prefix = "p983f2j";
    let input_with_trailing_white_spaces = "p\n";

    assert_eq!(
        page.handle_input(p, &db).unwrap(),
        Some(Action::NavigateToPreviousPage)
    );
    assert_eq!(
        page.handle_input(u, &db).unwrap(),
        Some(Action::UpdateStoryStatus { story_id })
    );
    assert_eq!(
        page.handle_input(d, &db).unwrap(),
        Some(Action::DeleteStory { epic_id, story_id })
    );
    assert_eq!(page.handle_input(some_number, &db).unwrap(), None);
    assert_eq!(page.handle_input(junk_input, &db).unwrap(), None);
    assert_eq!(
        page.handle_input(junk_input_with_valid_prefix, &db).unwrap(),
        None
    );
    assert_eq!(
        page.handle_input(input_with_trailing_white_spaces, &db)
            .unwrap(),
        None
    );
}

#[test]
fn test_get_column_string() {
    let text1 = "";
    let text2 = "test";
    let text3 = "testme";
    let text4 = "testmetest";

    let width = 0;

    assert_eq!(get_column_string(text4, width), "".to_owned());

    let width = 1;

    assert_eq!(get_column_string(text4, width), ".".to_owned());

    let width = 2;

    assert_eq!(get_column_string(text4, width), "..".to_owned());

    let width = 3;

    assert_eq!(get_column_string(text4, width), "...".to_owned());

    let width = 4;

    assert_eq!(get_column_string(text4, width), "t...".to_owned());

    let width = 6;

    assert_eq!(get_column_string(text1, width), "      ".to_owned());
    assert_eq!(get_column_string(text2, width), "test  ".to_owned());
    assert_eq!(get_column_string(text3, width), "testme".to_owned());
    assert_eq!(get_column_string(text4, width), "tes...".to_owned());
}
