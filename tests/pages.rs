use cli_jira::db::{JiraDatabase, MemoryDatabase};
use cli_jira::models::{Action, Epic, JiraError, RecordStatus, Story};
use cli_jira::page_helpers::{decimal_text, get_column_string, integer_text};
use cli_jira::pages::{
    epic_action_of, epic_page_lines, home_action_of, home_page_lines, parse_id, story_page_lines,
    EpicDetail, HomePage, Page, StoryDetail,
};
use cli_jira::prompts::{is_confirmation, status_choice};

fn sample_db() -> JiraDatabase<MemoryDatabase> {
    let mut db = JiraDatabase::new(MemoryDatabase::new());
    db.create_epic(Epic::new("Epic one".to_owned(), "first".to_owned())).unwrap();
    db.create_story(Story::new("S".to_owned(), "d".to_owned()), 1).unwrap();
    db.create_epic(Epic::new("Epic two".to_owned(), "second".to_owned())).unwrap();
    db
}

#[test]
fn column_of_width_three_is_dots() {
    assert_eq!(get_column_string("anything at all", 3), "...");
    assert_eq!(get_column_string("", 3), "...");
    assert_eq!(get_column_string("ab", 2), "..");
    assert_eq!(get_column_string("ab", 0), "");
}

#[test]
fn column_that_fits_is_padded() {
    assert_eq!(get_column_string("abcdefghij", 10), "abcdefghij");
    assert_eq!(get_column_string("abc", 6), "abc   ");
}

#[test]
fn column_that_overflows_is_cut_with_ellipsis() {
    let r = get_column_string("abcdefghijklmno", 10);
    assert_eq!(r, "abcdefg...");
    assert_eq!(r.len(), 10);
}

#[test]
fn parse_id_reads_unsigned_numbers() {
    assert_eq!(parse_id("42"), Some(42));
    assert_eq!(parse_id("+7"), Some(7));
    assert_eq!(parse_id("007"), Some(7));
    assert_eq!(parse_id("4294967295"), Some(u32::MAX));
    assert_eq!(parse_id("4294967296"), None);
    assert_eq!(parse_id(""), None);
    assert_eq!(parse_id("+"), None);
    assert_eq!(parse_id("-1"), None);
    assert_eq!(parse_id("1a"), None);
    assert_eq!(parse_id(" 1"), None);
}

#[test]
fn confirmation_answers() {
    assert!(is_confirmation(""));
    assert!(is_confirmation("y"));
    assert!(is_confirmation("Y"));
    assert!(!is_confirmation("n"));
    assert!(!is_confirmation("yes"));
}

#[test]
fn status_answers() {
    assert_eq!(status_choice("1"), Some(RecordStatus::Open));
    assert_eq!(status_choice("2"), Some(RecordStatus::InProgress));
    assert_eq!(status_choice("3"), Some(RecordStatus::Resolved));
    assert_eq!(status_choice("4"), Some(RecordStatus::Closed));
    assert_eq!(status_choice("5"), None);
    assert_eq!(status_choice("11"), None);
    assert_eq!(RecordStatus::InProgress.to_string(), "In progress");
}

#[test]
fn home_page_input() {
    let db = sample_db();
    let page = HomePage {};
    assert_eq!(page.handle_input(&db, "q").unwrap(), Some(Action::Exit));
    assert_eq!(page.handle_input(&db, "c").unwrap(), Some(Action::CreateEpic));
    assert_eq!(
        page.handle_input(&db, "3").unwrap(),
        Some(Action::NavigateToEpicDetail { epic_id: 3 })
    );
    assert_eq!(page.handle_input(&db, "2").unwrap(), None);
    assert_eq!(page.handle_input(&db, "Q").unwrap(), None);
    assert_eq!(page.handle_input(&db, "x").unwrap(), None);
}

#[test]
fn epic_page_input() {
    let db = sample_db();
    let page = EpicDetail { epic_id: 1 };
    assert_eq!(page.handle_input(&db, "p").unwrap(), Some(Action::NavigateToPreviousPage));
    assert_eq!(page.handle_input(&db, "u").unwrap(), Some(Action::UpdateEpicStatus { epic_id: 1 }));
    assert_eq!(page.handle_input(&db, "d").unwrap(), Some(Action::DeleteEpic { epic_id: 1 }));
    assert_eq!(page.handle_input(&db, "c").unwrap(), Some(Action::CreateStory { epic_id: 1 }));
    assert_eq!(
        page.handle_input(&db, "2").unwrap(),
        Some(Action::NavigateToStoryDetail { epic_id: 1, story_id: 2 })
    );
    assert_eq!(page.handle_input(&db, "1").unwrap(), None);
}

#[test]
fn story_page_input() {
    let page = StoryDetail { epic_id: 1, story_id: 2 };
    assert_eq!(page.handle_input("p"), Some(Action::NavigateToPreviousPage));
    assert_eq!(page.handle_input("u"), Some(Action::UpdateStoryStatus { story_id: 2 }));
    assert_eq!(page.handle_input("d"), Some(Action::DeleteStory { epic_id: 1, story_id: 2 }));
    assert_eq!(page.handle_input("c"), None);
}

#[test]
fn home_page_lists_epics_in_order() {
    let db = sample_db();
    let lines = Page::Home(HomePage {}).draw_page(&db).unwrap();
    assert_eq!(lines.len(), 7);
    assert_eq!(lines[0], "----------------------------- EPICS -----------------------------");
    assert_eq!(
        lines[2],
        format!("{} | {} | {}", "1          ", format!("{:32}", "Epic one"), "Open             ")
    );
    assert_eq!(lines[3], format!("{:11} | {:32} | {:17}", "3", "Epic two", "Open"));
    assert_eq!(lines[6], "[q] quit | [c] create epic | [:id:] navigate to epic");
}

#[test]
fn epic_page_shows_stories_sorted() {
    let mut db = sample_db();
    db.create_story(Story::new("T".to_owned(), "e".to_owned()), 3).unwrap();
    db.create_story(Story::new("U".to_owned(), "f".to_owned()), 3).unwrap();
    let mut state = db.read_db().unwrap();
    state.epics.get_mut(&3).unwrap().stories = vec![5, 4];
    let db = JiraDatabase::new(MemoryDatabase::with_state(state));
    let lines = EpicDetail { epic_id: 3 }.draw_page(&db).unwrap();
    assert_eq!(lines[2], "3     | Epic two     | second                      | Open         ");
    assert_eq!(lines[6], format!("{:11} | {:32} | {:17}", "4", "T", "Open"));
    assert_eq!(lines[7], format!("{:11} | {:32} | {:17}", "5", "U", "Open"));
    assert_eq!(lines.len(), 11);
}

#[test]
fn epic_page_reports_missing_records() {
    let db = sample_db();
    assert_eq!(EpicDetail { epic_id: 9 }.draw_page(&db), Err(JiraError::EpicNotFound(9)));
    let mut state = db.read_db().unwrap();
    state.epics.get_mut(&1).unwrap().stories.push(77);
    let db = JiraDatabase::new(MemoryDatabase::with_state(state));
    assert_eq!(EpicDetail { epic_id: 1 }.draw_page(&db), Err(JiraError::StoryNotFound(77)));
}

#[test]
fn story_page_shows_fields() {
    let db = sample_db();
    let lines = StoryDetail { epic_id: 1, story_id: 2 }.draw_page(&db).unwrap();
    assert_eq!(lines.len(), 5);
    assert_eq!(lines[2], format!("{:6}|{:14}|{:29}|{:14}", "2", "S", "d", "Open"));
    assert_eq!(
        StoryDetail { epic_id: 1, story_id: 8 }.draw_page(&db),
        Err(JiraError::StoryNotFound(8))
    );
}

#[test]
fn page_lines_and_actions_on_a_plain_state() {
    let state = sample_db().read_db().unwrap();
    assert_eq!(home_page_lines(&state).len(), 7);
    assert_eq!(epic_page_lines(&state, 1).unwrap().len(), 10);
    assert_eq!(epic_page_lines(&state, 2), Err(JiraError::EpicNotFound(2)));
    assert_eq!(story_page_lines(&state, 2).unwrap().len(), 5);
    assert_eq!(story_page_lines(&state, 1), Err(JiraError::StoryNotFound(1)));
    assert_eq!(home_action_of(&state, "1"), Some(Action::NavigateToEpicDetail { epic_id: 1 }));
    assert_eq!(home_action_of(&state, "2"), None);
    assert_eq!(
        epic_action_of(&state, 1, "2"),
        Some(Action::NavigateToStoryDetail { epic_id: 1, story_id: 2 })
    );
    assert_eq!(epic_action_of(&state, 1, "3"), None);
}

#[test]
fn integers_in_decimal() {
    assert_eq!(integer_text(0), "0");
    assert_eq!(integer_text(1234567890), "1234567890");
    assert_eq!(integer_text(-42), "-42");
    assert_eq!(integer_text(i64::MIN), i64::MIN.to_string());
    assert_eq!(decimal_text(u64::MAX), u64::MAX.to_string());
}
