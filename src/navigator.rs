use vstd::prelude::*;
use crate::db::{
    create_epic_outcome, create_story_outcome, delete_epic_outcome, delete_story_outcome,
    epic_status_outcome, is_store_error, settles, story_status_outcome, Database, JiraDatabase,
};
use crate::models::{Action, DBModel, Epic, EpicView, JiraError, RecordStatus, Story, StoryView};
use crate::page_helpers::{decimal, integer_text};
use crate::pages::{EpicDetail, HomePage, Page, StoryDetail};
use crate::prompts::Prompts;

verus! {

/// A failed action, as the navigator reports it.
#[derive(Debug, Clone, PartialEq, Eq)]
pub enum NavigatorError {
    /// A prompt gave no usable value where one was needed.
    InvalidInput(String),
    /// A database operation failed; `context` says which.
    Failed { context: String, source: JiraError },
}

pub open spec fn invalid_status_message() -> Seq<char> {
    "Error to get valid status"@
}

/// `prefix`, the decimal form of `id`, then `suffix`.
pub open spec fn with_id(prefix: Seq<char>, id: u32, suffix: Seq<char>) -> Seq<char> {
    prefix + decimal(id as nat) + suffix
}

fn text_with_id(prefix: &str, id: u32, suffix: &str) -> (r: String)
    ensures
        r@ == with_id(prefix@, id, suffix@),
{
    let mut r = String::from_str(prefix);
    let digits = integer_text(id as i64);
    r.append(digits.as_str());
    r.append(suffix);
    r
}

/// `r` is what the navigator reports for a database call that ended as
/// `settles` says for `outcome`, with note `context` on a failure.
pub open spec fn ends_as<T>(
    r: Result<(), NavigatorError>,
    context: Seq<char>,
    before: DBModel,
    after: DBModel,
    outcome: (Result<T, JiraError>, DBModel),
) -> bool {
    match r {
        Ok(()) => outcome.0 is Ok && after == outcome.1,
        Err(NavigatorError::Failed { context: c, source }) => c@ == context && settles(
            before,
            after,
            Err::<T, JiraError>(source),
            outcome,
        ),
        Err(NavigatorError::InvalidInput(_)) => false,
    }
}

/// `r` reports a failure of the persistence port.
pub open spec fn store_failure(r: Result<(), NavigatorError>) -> bool {
    r matches Err(NavigatorError::Failed { source, .. }) && is_store_error(source)
}

/// The stack after popping its top page, if it has one.
pub open spec fn popped(pages: Seq<Page>) -> Seq<Page> {
    if pages.len() == 0 {
        pages
    } else {
        pages.drop_last()
    }
}

/// Owns the page stack, the prompts and the record database, and carries out
/// the actions that pages produce.
pub struct Navigator<D: Database, P: Prompts> {
    pages: Vec<Page>,
    prompts: P,
    db: JiraDatabase<D>,
}

impl<D: Database, P: Prompts> Navigator<D, P> {
    /// The page stack, bottom first.
    pub closed spec fn pages(&self) -> Seq<Page> {
        self.pages@
    }

    /// The stored state of the record database.
    pub closed spec fn state(&self) -> DBModel {
        self.db.state()
    }

    /// The record database's port is faithful (see `Database::faithful`).
    pub closed spec fn faithful(&self) -> bool {
        self.db.faithful()
    }

    /// The record database's port never fails.
    pub closed spec fn infallible(&self) -> bool {
        self.db.infallible()
    }

    /// The port's promises are the same as before.
    pub open spec fn same_port(&self, other: &Self) -> bool {
        self.faithful() == other.faithful() && self.infallible() == other.infallible()
    }

    /// Starts with the list of epics as the only page.
    pub fn new(db: JiraDatabase<D>, prompts: P) -> (r: Self)
        ensures
            r.pages() == seq![Page::Home(HomePage {})],
            r.state() == db.state(),
            r.faithful() == db.faithful(),
            r.infallible() == db.infallible(),
    {
        let mut pages: Vec<Page> = Vec::new();
        pages.push(Page::Home(HomePage {}));
        Navigator { pages, prompts, db }
    }

    /// The page on top of the stack; none once the stack is empty.
    pub fn get_current_page(&self) -> (r: Option<&Page>)
        ensures
            match r {
                Some(p) => self.pages().len() > 0 && *p == self.pages().last(),
                None => self.pages().len() == 0,
            },
    {
        let n = self.pages.len();
        if n == 0 {
            None
        } else {
            Some(&self.pages[n - 1])
        }
    }

    /// The record database, for drawing pages and reading input.
    pub fn database(&self) -> (r: &JiraDatabase<D>)
        ensures
            r.state() == self.state(),
            r.faithful() == self.faithful(),
            r.infallible() == self.infallible(),
    {
        &self.db
    }

    /// The number of pages on the stack.
    pub fn _get_page_count(&self) -> (r: usize)
        ensures
            r == self.pages().len(),
    {
        self.pages.len()
    }

    /// Replaces the prompts.
    pub fn _set_prompts(&mut self, prompts: P)
        ensures
            final(self).same_port(old(self)),
            final(self).pages() == old(self).pages(),
            final(self).state() == old(self).state(),
    {
        self.prompts = prompts;
    }

    fn pop_page(&mut self)
        ensures
            final(self).same_port(old(self)),
            final(self).state() == old(self).state(),
            final(self).pages() == popped(old(self).pages()),
    {
        if self.pages.len() > 0 {
            self.pages.pop();
        }
    }

    /// Stores `epic`, the answer to the create-epic prompt.
    pub fn create_epic_with(&mut self, epic: Epic) -> (r: Result<(), NavigatorError>)
        ensures
            final(self).pages() == old(self).pages(),
            final(self).same_port(old(self)),
            old(self).faithful() ==> ends_as(
                r,
                "failed to create epic"@,
                old(self).state(),
                final(self).state(),
                create_epic_outcome(old(self).state(), epic@),
            ),
            old(self).infallible() ==> !store_failure(r),
    {
        match self.db.create_epic(epic) {
            Ok(_) => Ok(()),
            Err(source) => Err(
                NavigatorError::Failed { context: String::from_str("failed to create epic"), source },
            ),
        }
    }

    /// Stores `story` in epic `epic_id`; `story` is the answer to the
    /// create-story prompt.
    pub fn create_story_with(&mut self, epic_id: u32, story: Story) -> (r: Result<(), NavigatorError>)
        ensures
            final(self).pages() == old(self).pages(),
            final(self).same_port(old(self)),
            old(self).faithful() ==> ends_as(
                r,
                "failed to create Story"@,
                old(self).state(),
                final(self).state(),
                create_story_outcome(old(self).state(), story@, epic_id),
            ),
            old(self).infallible() ==> !store_failure(r),
    {
        match self.db.create_story(story, epic_id) {
            Ok(_) => Ok(()),
            Err(source) => Err(
                NavigatorError::Failed { context: String::from_str("failed to create Story"), source },
            ),
        }
    }

    /// Sets the status of epic `epic_id` to `status`, the answer to the status
    /// prompt; no answer is invalid input.
    pub fn update_epic_status_with(&mut self, epic_id: u32, status: Option<RecordStatus>) -> (r:
        Result<(), NavigatorError>)
        ensures
            final(self).pages() == old(self).pages(),
            final(self).same_port(old(self)),
            status is None ==> {
                &&& r matches Err(NavigatorError::InvalidInput(msg)) && msg@
                    == invalid_status_message()
                &&& final(self).state() == old(self).state()
            },
            status is Some && old(self).faithful() ==> ends_as(
                r,
                with_id("failed to update epic ("@, epic_id, ") status"@),
                old(self).state(),
                final(self).state(),
                epic_status_outcome(old(self).state(), epic_id, status->Some_0),
            ),
            old(self).infallible() ==> !store_failure(r),
    {
        let status = match status {
            Some(s) => s,
            None => return Err(NavigatorError::InvalidInput(String::from_str("Error to get valid status"))),
        };
        match self.db.update_epic_status(epic_id, status) {
            Ok(()) => Ok(()),
            Err(source) => Err(
                NavigatorError::Failed {
                    context: text_with_id("failed to update epic (", epic_id, ") status"),
                    source,
                },
            ),
        }
    }

    /// Sets the status of story `story_id` to `status`, the answer to the
    /// status prompt; no answer is invalid input.
    pub fn update_story_status_with(&mut self, story_id: u32, status: Option<RecordStatus>) -> (r:
        Result<(), NavigatorError>)
        ensures
            final(self).pages() == old(self).pages(),
            final(self).same_port(old(self)),
            status is None ==> {
                &&& r matches Err(NavigatorError::InvalidInput(msg)) && msg@
                    == invalid_status_message()
                &&& final(self).state() == old(self).state()
            },
            status is Some && old(self).faithful() ==> ends_as(
                r,
                with_id("failed to update Story ("@, story_id, ") status"@),
                old(self).state(),
                final(self).state(),
                story_status_outcome(old(self).state(), story_id, status->Some_0),
            ),
            old(self).infallible() ==> !store_failure(r),
    {
        let status = match status {
            Some(s) => s,
            None => return Err(NavigatorError::InvalidInput(String::from_str("Error to get valid status"))),
        };
        match self.db.update_story_status(story_id, status) {
            Ok(()) => Ok(()),
            Err(source) => Err(
                NavigatorError::Failed {
                    context: text_with_id("failed to update Story (", story_id, ") status"),
                    source,
                },
            ),
        }
    }

    /// Deletes epic `epic_id` when `confirmed`, the answer to the delete-epic
    /// prompt, and then leaves its page.
    pub fn delete_epic_with(&mut self, epic_id: u32, confirmed: bool) -> (r: Result<(), NavigatorError>)
        ensures
            final(self).same_port(old(self)),
            !confirmed ==> r is Ok && final(self).state() == old(self).state() && final(self).pages()
                == old(self).pages(),
            confirmed && old(self).faithful() ==> ends_as(
                r,
                with_id("failed to delete epic ("@, epic_id, ")"@),
                old(self).state(),
                final(self).state(),
                delete_epic_outcome(old(self).state(), epic_id),
            ),
            confirmed && r is Ok ==> final(self).pages() == popped(old(self).pages()),
            r is Err ==> final(self).pages() == old(self).pages(),
            old(self).infallible() ==> !store_failure(r),
    {
        if !confirmed {
            return Ok(());
        }
        match self.db.delete_epic(epic_id) {
            Ok(()) => {
                self.pop_page();
                Ok(())
            },
            Err(source) => Err(
                NavigatorError::Failed {
                    context: text_with_id("failed to delete epic (", epic_id, ")"),
                    source,
                },
            ),
        }
    }

    /// Deletes story `story_id` of epic `epic_id` when `confirmed`, the answer
    /// to the delete-story prompt, and then leaves its page.
    pub fn delete_story_with(&mut self, epic_id: u32, story_id: u32, confirmed: bool) -> (r: Result<
        (),
        NavigatorError,
    >)
        ensures
            final(self).same_port(old(self)),
            !confirmed ==> r is Ok && final(self).state() == old(self).state() && final(self).pages()
                == old(self).pages(),
            confirmed && old(self).faithful() ==> ends_as(
                r,
                with_id("failed to delete Story ("@, story_id, ")"@),
                old(self).state(),
                final(self).state(),
                delete_story_outcome(old(self).state(), epic_id, story_id),
            ),
            confirmed && r is Ok ==> final(self).pages() == popped(old(self).pages()),
            r is Err ==> final(self).pages() == old(self).pages(),
            old(self).infallible() ==> !store_failure(r),
    {
        if !confirmed {
            return Ok(());
        }
        match self.db.delete_story(epic_id, story_id) {
            Ok(()) => {
                self.pop_page();
                Ok(())
            },
            Err(source) => Err(
                NavigatorError::Failed {
                    context: text_with_id("failed to delete Story (", story_id, ")"),
                    source,
                },
            ),
        }
    }

    /// Carries out `action`: moves between pages, or asks the prompts and then
    /// changes the records.
    pub fn handle_action(&mut self, action: Action) -> (r: Result<(), NavigatorError>)
        ensures
            final(self).same_port(old(self)),
            action matches Action::NavigateToEpicDetail { epic_id } ==> {
                &&& r is Ok
                &&& final(self).pages() == old(self).pages().push(
                    Page::EpicDetail(EpicDetail { epic_id }),
                )
                &&& final(self).state() == old(self).state()
            },
            action matches Action::NavigateToStoryDetail { epic_id, story_id } ==> {
                &&& r is Ok
                &&& final(self).pages() == old(self).pages().push(
                    Page::StoryDetail(StoryDetail { epic_id, story_id }),
                )
                &&& final(self).state() == old(self).state()
            },
            action matches Action::NavigateToPreviousPage ==> {
                &&& r is Ok
                &&& final(self).pages() == popped(old(self).pages())
                &&& final(self).state() == old(self).state()
            },
            action matches Action::Exit ==> {
                &&& r is Ok
                &&& final(self).pages() == Seq::<Page>::empty()
                &&& final(self).state() == old(self).state()
            },
            action matches Action::CreateEpic ==> {
                &&& final(self).pages() == old(self).pages()
                &&& old(self).faithful() && r is Ok ==> exists|e: EpicView|
                    final(self).state() == #[trigger] old(self).state().with_new_epic(e)
                &&& old(self).faithful() && r is Err ==> final(self).state() == old(self).state()
                &&& old(self).faithful() && old(self).infallible() ==> (r is Ok <==> old(self).state().last_item_id < u32::MAX)
            },
            action matches Action::CreateStory { epic_id } ==> {
                &&& final(self).pages() == old(self).pages()
                &&& old(self).faithful() && r is Ok ==> exists|s: StoryView|
                    final(self).state() == #[trigger] old(self).state().with_new_story(s, epic_id)
                &&& old(self).faithful() && r is Err ==> final(self).state() == old(self).state()
                &&& old(self).faithful() && old(self).infallible() ==> (r is Ok <==> (old(self).state().epics.contains_key(epic_id) && old(self).state().last_item_id
                    < u32::MAX))
            },
            action matches Action::UpdateEpicStatus { epic_id } ==> {
                &&& final(self).pages() == old(self).pages()
                &&& old(self).faithful() && r is Ok ==> exists|s: RecordStatus|
                    final(self).state() == #[trigger] old(self).state().with_epic_status(epic_id, s)
                &&& old(self).faithful() && r is Err ==> final(self).state() == old(self).state()
                &&& old(self).faithful() && !old(self).state().epics.contains_key(epic_id) ==> r is Err
            },
            action matches Action::UpdateStoryStatus { story_id } ==> {
                &&& final(self).pages() == old(self).pages()
                &&& old(self).faithful() && r is Ok ==> exists|s: RecordStatus|
                    final(self).state() == #[trigger] old(self).state().with_story_status(story_id, s)
                &&& old(self).faithful() && r is Err ==> final(self).state() == old(self).state()
                &&& old(self).faithful() && !old(self).state().stories.contains_key(story_id) ==> r is Err
            },
            action matches Action::DeleteEpic { epic_id } ==> {
                &&& r is Err ==> final(self).pages() == old(self).pages()
                &&& old(self).faithful() && r is Ok ==> (final(self).state() == old(self).state()
                    && final(self).pages() == old(self).pages()) || (old(self).state().epics.contains_key(
                    epic_id) && final(self).state() == old(self).state().without_epic(epic_id)
                    && final(self).pages() == popped(old(self).pages()))
                &&& old(self).faithful() && r is Err ==> final(self).state() == old(self).state()
            },
            action matches Action::DeleteStory { epic_id, story_id } ==> {
                &&& r is Err ==> final(self).pages() == old(self).pages()
                &&& old(self).faithful() && r is Ok ==> (final(self).state() == old(self).state()
                    && final(self).pages() == old(self).pages()) || (old(self).state().epics.contains_key(
                    epic_id) && old(self).state().stories.contains_key(story_id) && final(self).state()
                    == old(self).state().without_story(epic_id, story_id) && final(self).pages()
                    == popped(old(self).pages()))
                &&& old(self).faithful() && r is Err ==> final(self).state() == old(self).state()
            },
    {
        match action {
            Action::NavigateToEpicDetail { epic_id } => {
                self.pages.push(Page::EpicDetail(EpicDetail { epic_id }));
                Ok(())
            },
            Action::NavigateToStoryDetail { epic_id, story_id } => {
                self.pages.push(Page::StoryDetail(StoryDetail { epic_id, story_id }));
                Ok(())
            },
            Action::NavigateToPreviousPage => {
                self.pop_page();
                Ok(())
            },
            Action::CreateEpic => {
                let epic = self.prompts.create_epic();
                let ghost e = epic@;
                let r = self.create_epic_with(epic);
                assert(old(self).faithful() && r is Ok ==> self.state() == old(self).state().with_new_epic(e));
                r
            },
            Action::UpdateEpicStatus { epic_id } => {
                let status = self.prompts.update_status();
                let r = self.update_epic_status_with(epic_id, status);
                assert(old(self).faithful() && r is Ok ==> self.state() == old(self).state().with_epic_status(epic_id, status->Some_0));
                r
            },
            Action::DeleteEpic { epic_id } => {
                let confirmed = self.prompts.delete_epic();
                self.delete_epic_with(epic_id, confirmed)
            },
            Action::CreateStory { epic_id } => {
                let story = self.prompts.create_story();
                let ghost v = story@;
                let r = self.create_story_with(epic_id, story);
                assert(old(self).faithful() && r is Ok ==> self.state() == old(self).state().with_new_story(v, epic_id));
                r
            },
            Action::UpdateStoryStatus { story_id } => {
                let status = self.prompts.update_status();
                let r = self.update_story_status_with(story_id, status);
                assert(old(self).faithful() && r is Ok ==> self.state() == old(self).state().with_story_status(story_id, status->Some_0));
                r
            },
            Action::DeleteStory { epic_id, story_id } => {
                let confirmed = self.prompts.delete_story();
                self.delete_story_with(epic_id, story_id, confirmed)
            },
            Action::Exit => {
                self.pages.clear();
                Ok(())
            },
        }
    }
}

} // verus!
