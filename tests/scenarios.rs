use cli_jira::db::{
    apply_create_epic, apply_create_story, apply_delete_epic, apply_delete_story,
    apply_epic_status, apply_story_status, empty_state, JiraDatabase, MemoryDatabase,
};
use cli_jira::models::{Epic, JiraError, RecordStatus, Story};
use cli_jira::student::{set_student_grade, Student};

#[test]
fn end_to_end_create_and_delete() {
    let mut db = JiraDatabase::new(MemoryDatabase::new());
    let epic_id = db.create_epic(Epic::new("E".to_owned(), "d".to_owned())).unwrap();
    assert_eq!(epic_id, 1);
    assert_eq!(db.read_db().unwrap().last_item_id, 1);
    let story_id = db.create_story(Story::new("S".to_owned(), "d".to_owned()), 1).unwrap();
    assert_eq!(story_id, 2);
    assert_eq!(db.read_db().unwrap().epics[&1].stories, vec![2]);
    db.delete_story(1, 2).unwrap();
    let state = db.read_db().unwrap();
    assert!(!state.stories.contains_key(&2));
    assert_eq!(state.epics[&1].stories, Vec::<u32>::new());
    db.delete_epic(1).unwrap();
    assert!(!db.read_db().unwrap().epics.contains_key(&1));
}

#[test]
fn ids_increase_and_are_not_reused() {
    let mut db = JiraDatabase::new(MemoryDatabase::new());
    let a = db.create_epic(Epic::new("a".to_owned(), "".to_owned())).unwrap();
    let b = db.create_story(Story::new("b".to_owned(), "".to_owned()), a).unwrap();
    db.delete_epic(a).unwrap();
    let c = db.create_epic(Epic::new("c".to_owned(), "".to_owned())).unwrap();
    assert!(a < b && b < c);
    assert_eq!(c, 3);
    assert_eq!(db.read_db().unwrap().last_item_id, 3);
}

#[test]
fn deleted_epic_stories_are_gone() {
    let mut db = JiraDatabase::new(MemoryDatabase::new());
    let e = db.create_epic(Epic::new("e".to_owned(), "".to_owned())).unwrap();
    let s = db.create_story(Story::new("s".to_owned(), "".to_owned()), e).unwrap();
    db.delete_epic(e).unwrap();
    assert_eq!(db.delete_story(e, s), Err(JiraError::StoryNotFound(s)));
    assert_eq!(db.update_story_status(s, RecordStatus::Closed), Err(JiraError::StoryNotFound(s)));
}

#[test]
fn failed_calls_leave_state_unchanged() {
    let mut db = JiraDatabase::new(MemoryDatabase::new());
    db.create_epic(Epic::new("e".to_owned(), "".to_owned())).unwrap();
    let before = db.read_db().unwrap();
    assert_eq!(
        db.create_story(Story::new("s".to_owned(), "".to_owned()), 999),
        Err(JiraError::EpicNotFound(999))
    );
    assert_eq!(db.update_epic_status(999, RecordStatus::Closed), Err(JiraError::EpicNotFound(999)));
    assert_eq!(db.update_story_status(999, RecordStatus::Closed), Err(JiraError::StoryNotFound(999)));
    assert_eq!(db.read_db().unwrap(), before);
}

#[test]
fn delete_story_needs_the_epic() {
    let mut db = JiraDatabase::new(MemoryDatabase::new());
    let e = db.create_epic(Epic::new("e".to_owned(), "".to_owned())).unwrap();
    let s = db.create_story(Story::new("s".to_owned(), "".to_owned()), e).unwrap();
    assert_eq!(db.delete_story(999, s), Err(JiraError::EpicNotFound(999)));
    assert_eq!(db.delete_story(e, 999), Err(JiraError::StoryNotFound(999)));
}

#[test]
fn grades_follow_marks() {
    let mut students = vec![
        Student::new("Harry", 75),
        Student::new("Hermione", 99),
        Student::new("Ron", 60),
    ];
    assert_eq!(students[0].grade, 'X');
    for s in students.iter_mut() {
        set_student_grade(s);
    }
    assert_eq!(students[0].grade, 'B');
    assert_eq!(students[1].grade, 'A');
    assert_eq!(students[2].grade, 'C');
}

#[test]
fn apply_functions_change_a_plain_state() {
    let mut s = empty_state();
    assert_eq!(apply_create_epic(&mut s, Epic::new("E".to_owned(), "d".to_owned())), Ok(1));
    assert_eq!(
        apply_create_story(&mut s, Story::new("S".to_owned(), "d".to_owned()), 1),
        Ok(2)
    );
    assert_eq!(s.epics[&1].stories, vec![2]);
    assert_eq!(
        apply_create_story(&mut s, Story::new("T".to_owned(), "d".to_owned()), 9),
        Err(JiraError::EpicNotFound(9))
    );
    assert_eq!(s.last_item_id, 2);
    assert_eq!(apply_epic_status(&mut s, 1, RecordStatus::Resolved), Ok(()));
    assert_eq!(apply_story_status(&mut s, 2, RecordStatus::Closed), Ok(()));
    assert_eq!(apply_story_status(&mut s, 7, RecordStatus::Closed), Err(JiraError::StoryNotFound(7)));
    assert_eq!(apply_delete_story(&mut s, 9, 2), Err(JiraError::EpicNotFound(9)));
    assert!(s.stories.contains_key(&2));
    assert_eq!(apply_delete_story(&mut s, 1, 2), Ok(()));
    assert!(s.epics[&1].stories.is_empty());
    assert_eq!(apply_delete_epic(&mut s, 1), Ok(()));
    assert_eq!(apply_delete_epic(&mut s, 1), Err(JiraError::EpicNotFound(1)));
    assert_eq!(s.last_item_id, 2);
    s.last_item_id = u32::MAX;
    assert_eq!(
        apply_create_epic(&mut s, Epic::new("X".to_owned(), "".to_owned())),
        Err(JiraError::IdsExhausted)
    );
}
