use cli_jira::db::{JiraDatabase, MemoryDatabase};
use cli_jira::models::{Action, Epic, RecordStatus, Story};
use cli_jira::navigator::{Navigator, NavigatorError};
use cli_jira::pages::{EpicDetail, HomePage, Page, StoryDetail};
use cli_jira::prompts::Prompts;

struct FixedPrompts {
    confirm: bool,
    status: Option<RecordStatus>,
}

impl Prompts for FixedPrompts {
    fn create_epic(&mut self) -> Epic {
        Epic::new("Epic".to_owned(), "about it".to_owned())
    }

    fn create_story(&mut self) -> Story {
        Story::new("Story".to_owned(), "details".to_owned())
    }

    fn delete_epic(&mut self) -> bool {
        self.confirm
    }

    fn delete_story(&mut self) -> bool {
        self.confirm
    }

    fn update_status(&mut self) -> Option<RecordStatus> {
        self.status
    }
}

fn navigator(confirm: bool, status: Option<RecordStatus>) -> Navigator<MemoryDatabase, FixedPrompts> {
    Navigator::new(
        JiraDatabase::new(MemoryDatabase::new()),
        FixedPrompts { confirm, status },
    )
}

#[test]
fn starts_on_the_home_page() {
    let nav = navigator(true, None);
    assert_eq!(nav._get_page_count(), 1);
    assert_eq!(nav.get_current_page(), Some(&Page::Home(HomePage {})));
}

#[test]
fn navigation_pushes_and_pops_pages() {
    let mut nav = navigator(true, None);
    nav.handle_action(Action::NavigateToEpicDetail { epic_id: 1 }).unwrap();
    assert_eq!(nav._get_page_count(), 2);
    assert_eq!(nav.get_current_page(), Some(&Page::EpicDetail(EpicDetail { epic_id: 1 })));
    nav.handle_action(Action::NavigateToStoryDetail { epic_id: 1, story_id: 2 }).unwrap();
    assert_eq!(nav._get_page_count(), 3);
    assert_eq!(
        nav.get_current_page(),
        Some(&Page::StoryDetail(StoryDetail { epic_id: 1, story_id: 2 }))
    );
    nav.handle_action(Action::NavigateToPreviousPage).unwrap();
    assert_eq!(nav._get_page_count(), 2);
    nav.handle_action(Action::NavigateToPreviousPage).unwrap();
    nav.handle_action(Action::NavigateToPreviousPage).unwrap();
    assert_eq!(nav._get_page_count(), 0);
    assert!(nav.get_current_page().is_none());
    nav.handle_action(Action::NavigateToPreviousPage).unwrap();
    assert_eq!(nav._get_page_count(), 0);
}

#[test]
fn exit_clears_the_stack() {
    let mut nav = navigator(true, None);
    nav.handle_action(Action::NavigateToEpicDetail { epic_id: 1 }).unwrap();
    nav.handle_action(Action::Exit).unwrap();
    assert_eq!(nav._get_page_count(), 0);
}

#[test]
fn create_actions_use_the_prompts() {
    let mut nav = navigator(true, Some(RecordStatus::Resolved));
    nav.handle_action(Action::CreateEpic).unwrap();
    nav.handle_action(Action::CreateStory { epic_id: 1 }).unwrap();
    let state = nav.database().read_db().unwrap();
    assert_eq!(state.last_item_id, 2);
    assert_eq!(state.epics.get(&1).unwrap().name, "Epic");
    assert_eq!(state.epics.get(&1).unwrap().stories, vec![2]);
    assert_eq!(state.stories.get(&2).unwrap().description, "details");
    nav.handle_action(Action::UpdateEpicStatus { epic_id: 1 }).unwrap();
    nav.handle_action(Action::UpdateStoryStatus { story_id: 2 }).unwrap();
    let state = nav.database().read_db().unwrap();
    assert_eq!(state.epics.get(&1).unwrap().status, RecordStatus::Resolved);
    assert_eq!(state.stories.get(&2).unwrap().status, RecordStatus::Resolved);
}

#[test]
fn missing_status_is_invalid_input() {
    let mut nav = navigator(true, None);
    nav.handle_action(Action::CreateEpic).unwrap();
    let r = nav.handle_action(Action::UpdateEpicStatus { epic_id: 1 });
    assert_eq!(r, Err(NavigatorError::InvalidInput("Error to get valid status".to_string())));
    let r = nav.handle_action(Action::UpdateStoryStatus { story_id: 1 });
    assert!(matches!(r, Err(NavigatorError::InvalidInput(_))));
}

#[test]
fn failures_carry_context() {
    let mut nav = navigator(true, Some(RecordStatus::Closed));
    match nav.handle_action(Action::CreateStory { epic_id: 9 }) {
        Err(NavigatorError::Failed { context, .. }) => assert_eq!(context, "failed to create Story"),
        other => panic!("unexpected {:?}", other),
    }
    match nav.handle_action(Action::UpdateEpicStatus { epic_id: 12 }) {
        Err(NavigatorError::Failed { context, .. }) => {
            assert_eq!(context, "failed to update epic (12) status")
        }
        other => panic!("unexpected {:?}", other),
    }
    match nav.handle_action(Action::DeleteStory { epic_id: 1, story_id: 345 }) {
        Err(NavigatorError::Failed { context, .. }) => {
            assert_eq!(context, "failed to delete Story (345)")
        }
        other => panic!("unexpected {:?}", other),
    }
    assert_eq!(nav._get_page_count(), 1);
}

#[test]
fn confirmed_delete_pops_the_page() {
    let mut nav = navigator(true, None);
    nav.handle_action(Action::CreateEpic).unwrap();
    nav.handle_action(Action::CreateStory { epic_id: 1 }).unwrap();
    nav.handle_action(Action::NavigateToEpicDetail { epic_id: 1 }).unwrap();
    nav.handle_action(Action::NavigateToStoryDetail { epic_id: 1, story_id: 2 }).unwrap();
    nav.handle_action(Action::DeleteStory { epic_id: 1, story_id: 2 }).unwrap();
    assert_eq!(nav._get_page_count(), 2);
    nav.handle_action(Action::DeleteEpic { epic_id: 1 }).unwrap();
    assert_eq!(nav._get_page_count(), 1);
    let state = nav.database().read_db().unwrap();
    assert!(state.epics.is_empty());
    assert!(state.stories.is_empty());
}

#[test]
fn declined_delete_changes_nothing() {
    let mut nav = navigator(false, None);
    nav.handle_action(Action::CreateEpic).unwrap();
    nav.handle_action(Action::NavigateToEpicDetail { epic_id: 1 }).unwrap();
    nav.handle_action(Action::DeleteEpic { epic_id: 1 }).unwrap();
    assert_eq!(nav._get_page_count(), 2);
    assert!(nav.database().read_db().unwrap().epics.contains_key(&1));
}

#[test]
fn set_prompts_replaces_answers() {
    let mut nav = navigator(true, None);
    nav.handle_action(Action::CreateEpic).unwrap();
    nav._set_prompts(FixedPrompts { confirm: true, status: Some(RecordStatus::InProgress) });
    nav.handle_action(Action::UpdateEpicStatus { epic_id: 1 }).unwrap();
    let state = nav.database().read_db().unwrap();
    assert_eq!(state.epics.get(&1).unwrap().status, RecordStatus::InProgress);
}
