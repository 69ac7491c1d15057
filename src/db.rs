use vstd::prelude::*;
use std::collections::HashMap;
use crate::models::{other_than, DBModel, DBState, Epic, EpicView, JiraError, RecordStatus, Story, StoryView, StoreError};

verus! {

broadcast use vstd::std_specs::hash::group_hash_axioms;

/// The persistence port: reads and writes the whole state at once.
///
/// What an implementation promises about storage is opt-in: the defaults of
/// `faithful` and `infallible` are false, and then the methods promise nothing.
pub trait Database {
    /// Reads return what is stored, a write stores exactly its argument, and a
    /// failed write leaves storage as it was.
    open spec fn faithful(&self) -> bool {
        false
    }

    /// Reads and writes never fail.
    open spec fn infallible(&self) -> bool {
        false
    }

    /// The state held in storage right now; it carries meaning only where
    /// `faithful` holds.
    open spec fn persisted(&self) -> DBModel {
        DBModel { last_item_id: 0, epics: Map::empty(), stories: Map::empty() }
    }

    fn read_db(&self) -> (r: Result<DBState, StoreError>)
        ensures
            self.faithful() && r is Ok ==> r->Ok_0@ == self.persisted(),
            self.infallible() ==> r is Ok,
    ;

    fn write_db(&mut self, db_state: &DBState) -> (r: Result<(), StoreError>)
        ensures
            final(self).faithful() == old(self).faithful(),
            final(self).infallible() == old(self).infallible(),
            old(self).faithful() && r is Ok ==> final(self).persisted() == db_state@,
            old(self).faithful() && r is Err ==> final(self).persisted() == old(self).persisted(),
            old(self).infallible() ==> r is Ok,
    ;
}

/// A copy of `s` with the same content.
pub fn copy_state(s: &DBState) -> (r: DBState)
    ensures
        r@ == s@,
{
    let epics = s.epics.clone();
    let stories = s.stories.clone();
    let r = DBState { last_item_id: s.last_item_id, epics, stories };
    assert(r@.epics =~= s@.epics);
    assert(r@.stories =~= s@.stories);
    r
}

/// The empty state: no records, no ID handed out yet.
pub fn empty_state() -> (r: DBState)
    ensures
        r@.last_item_id == 0,
        r@.epics.is_empty(),
        r@.stories.is_empty(),
{
    let r = DBState { last_item_id: 0, epics: HashMap::new(), stories: HashMap::new() };
    assert(r@.epics =~= Map::empty());
    assert(r@.stories =~= Map::empty());
    r
}

/// A port that keeps the state in memory.
pub struct MemoryDatabase {
    state: DBState,
}

impl MemoryDatabase {
    /// Starts from the empty state.
    pub fn new() -> (r: MemoryDatabase)
        ensures
            r.persisted().last_item_id == 0,
            r.persisted().epics.is_empty(),
            r.persisted().stories.is_empty(),
    {
        MemoryDatabase { state: empty_state() }
    }

    /// Starts from the given state.
    pub fn with_state(state: DBState) -> (r: MemoryDatabase)
        ensures
            r.persisted() == state@,
    {
        MemoryDatabase { state }
    }
}

impl Database for MemoryDatabase {
    open spec fn faithful(&self) -> bool {
        true
    }

    open spec fn infallible(&self) -> bool {
        true
    }

    closed spec fn persisted(&self) -> DBModel {
        self.state@
    }

    fn read_db(&self) -> (r: Result<DBState, StoreError>) {
        Ok(copy_state(&self.state))
    }

    fn write_db(&mut self, db_state: &DBState) -> (r: Result<(), StoreError>) {
        self.state = copy_state(db_state);
        Ok(())
    }
}

/// The IDs of `ids` other than `x`, in their order.
fn without_id(ids: &Vec<u32>, x: u32) -> (r: Vec<u32>)
    ensures
        r@ == ids@.filter(other_than(x)),
{
    let mut r: Vec<u32> = Vec::new();
    let mut i: usize = 0;
    while i < ids.len()
        invariant
            i <= ids.len(),
            r@ == ids@.take(i as int).filter(other_than(x)),
        decreases ids.len() - i,
    {
        proof {
            assert(ids@.take(i + 1) =~= ids@.take(i as int).push(ids@[i as int]));
            ids@.take(i as int).lemma_filter_push(ids@[i as int], other_than(x));
        }
        if ids[i] != x {
            r.push(ids[i]);
        }
        i = i + 1;
    }
    assert(ids@.take(i as int) =~= ids@);
    r
}


/// A port error as seen by callers of the record database.
pub open spec fn is_store_error(e: JiraError) -> bool {
    e is Store
}

/// `r` is a failure of the persistence port.
pub open spec fn store_failed<T>(r: Result<T, JiraError>) -> bool {
    r is Err && is_store_error(r->Err_0)
}

/// `r` and the state `after` are what `outcome` gives, unless the port failed,
/// in which case the state is still `before`.
pub open spec fn settles<T>(
    before: DBModel,
    after: DBModel,
    r: Result<T, JiraError>,
    outcome: (Result<T, JiraError>, DBModel),
) -> bool {
    if store_failed(r) {
        after == before
    } else {
        r == outcome.0 && after == outcome.1
    }
}

/// Result and new state of creating `epic` in `m`.
pub open spec fn create_epic_outcome(m: DBModel, epic: EpicView) -> (Result<u32, JiraError>, DBModel) {
    if m.last_item_id < u32::MAX {
        (Ok((m.last_item_id + 1) as u32), m.with_new_epic(epic))
    } else {
        (Err(JiraError::IdsExhausted), m)
    }
}

/// Result and new state of creating `story` in epic `epic_id` of `m`.
pub open spec fn create_story_outcome(m: DBModel, story: StoryView, epic_id: u32) -> (Result<
    u32,
    JiraError,
>, DBModel) {
    if !m.epics.contains_key(epic_id) {
        (Err(JiraError::EpicNotFound(epic_id)), m)
    } else if m.last_item_id == u32::MAX {
        (Err(JiraError::IdsExhausted), m)
    } else {
        (Ok((m.last_item_id + 1) as u32), m.with_new_story(story, epic_id))
    }
}

/// Result and new state of deleting epic `epic_id` from `m`.
pub open spec fn delete_epic_outcome(m: DBModel, epic_id: u32) -> (Result<(), JiraError>, DBModel) {
    if m.epics.contains_key(epic_id) {
        (Ok(()), m.without_epic(epic_id))
    } else {
        (Err(JiraError::EpicNotFound(epic_id)), m)
    }
}

/// Result and new state of deleting story `story_id` of epic `epic_id` from `m`.
pub open spec fn delete_story_outcome(m: DBModel, epic_id: u32, story_id: u32) -> (Result<
    (),
    JiraError,
>, DBModel) {
    if !m.stories.contains_key(story_id) {
        (Err(JiraError::StoryNotFound(story_id)), m)
    } else if !m.epics.contains_key(epic_id) {
        (Err(JiraError::EpicNotFound(epic_id)), m)
    } else {
        (Ok(()), m.without_story(epic_id, story_id))
    }
}

/// Result and new state of setting the status of epic `epic_id` in `m`.
pub open spec fn epic_status_outcome(m: DBModel, epic_id: u32, status: RecordStatus) -> (Result<
    (),
    JiraError,
>, DBModel) {
    if m.epics.contains_key(epic_id) {
        (Ok(()), m.with_epic_status(epic_id, status))
    } else {
        (Err(JiraError::EpicNotFound(epic_id)), m)
    }
}

/// Result and new state of setting the status of story `story_id` in `m`.
pub open spec fn story_status_outcome(m: DBModel, story_id: u32, status: RecordStatus) -> (Result<
    (),
    JiraError,
>, DBModel) {
    if m.stories.contains_key(story_id) {
        (Ok(()), m.with_story_status(story_id, status))
    } else {
        (Err(JiraError::StoryNotFound(story_id)), m)
    }
}

/// Stores `epic` in `s` under the next ID and returns that ID.
pub fn apply_create_epic(s: &mut DBState, epic: Epic) -> (r: Result<u32, JiraError>)
    ensures
        (r, final(s)@) == create_epic_outcome(old(s)@, epic@),
{
    if s.last_item_id == u32::MAX {
        return Err(JiraError::IdsExhausted);
    }
    let new_id = s.last_item_id + 1;
    let ghost before = s@;
    s.epics.insert(new_id, epic);
    s.last_item_id = new_id;
    assert(s@.epics =~= before.with_new_epic(epic@).epics);
    Ok(new_id)
}

/// Stores `story` in `s` under the next ID and appends that ID to the stories
/// of epic `epic_id`.
pub fn apply_create_story(s: &mut DBState, story: Story, epic_id: u32) -> (r: Result<u32, JiraError>)
    ensures
        (r, final(s)@) == create_story_outcome(old(s)@, story@, epic_id),
{
    let ghost before = s@;
    if !s.epics.contains_key(&epic_id) {
        return Err(JiraError::EpicNotFound(epic_id));
    }
    if s.last_item_id == u32::MAX {
        return Err(JiraError::IdsExhausted);
    }
    let new_id = s.last_item_id + 1;
    let mut epic = match s.epics.remove(&epic_id) {
        Some(e) => e,
        None => return Err(JiraError::EpicNotFound(epic_id)),
    };
    epic.stories.push(new_id);
    s.epics.insert(epic_id, epic);
    s.stories.insert(new_id, story);
    s.last_item_id = new_id;
    assert(s@.epics =~= before.with_new_story(story@, epic_id).epics);
    assert(s@.stories =~= before.with_new_story(story@, epic_id).stories);
    Ok(new_id)
}

/// Removes epic `epic_id` and every story that its list names from `s`.
pub fn apply_delete_epic(s: &mut DBState, epic_id: u32) -> (r: Result<(), JiraError>)
    ensures
        (r, final(s)@) == delete_epic_outcome(old(s)@, epic_id),
{
    let ghost before = s@;
    let ghost raw_stories = s.stories@;
    let ghost raw_epics = s.epics@;
    if !s.epics.contains_key(&epic_id) {
        return Err(JiraError::EpicNotFound(epic_id));
    }
    let epic = match s.epics.remove(&epic_id) {
        Some(e) => e,
        None => return Err(JiraError::EpicNotFound(epic_id)),
    };
    let ids = &epic.stories;
    let mut i: usize = 0;
    while i < ids.len()
        invariant
            i <= ids.len(),
            s.stories@ == raw_stories.remove_keys(ids@.take(i as int).to_set()),
            s.epics@ == raw_epics.remove(epic_id),
            s.last_item_id == before.last_item_id,
        decreases ids.len() - i,
    {
        let id = ids[i];
        s.stories.remove(&id);
        proof {
            assert(ids@.take(i + 1) =~= ids@.take(i as int).push(id));
            ids@.take(i as int).lemma_push_to_set_commute(id);
            assert(s.stories@ =~= raw_stories.remove_keys(ids@.take(i + 1).to_set()));
        }
        i = i + 1;
    }
    proof {
        assert(ids@.take(i as int) =~= ids@);
        assert(s@.epics =~= before.without_epic(epic_id).epics);
        assert(s@.stories =~= before.without_epic(epic_id).stories);
    }
    Ok(())
}

/// Removes story `story_id` from `s` and takes it out of the list of epic
/// `epic_id`.
pub fn apply_delete_story(s: &mut DBState, epic_id: u32, story_id: u32) -> (r: Result<(), JiraError>)
    ensures
        (r, final(s)@) == delete_story_outcome(old(s)@, epic_id, story_id),
{
    let ghost before = s@;
    if !s.stories.contains_key(&story_id) {
        return Err(JiraError::StoryNotFound(story_id));
    }
    if !s.epics.contains_key(&epic_id) {
        return Err(JiraError::EpicNotFound(epic_id));
    }
    s.stories.remove(&story_id);
    let mut epic = match s.epics.remove(&epic_id) {
        Some(e) => e,
        None => return Err(JiraError::EpicNotFound(epic_id)),
    };
    epic.stories = without_id(&epic.stories, story_id);
    s.epics.insert(epic_id, epic);
    assert(s@.epics =~= before.without_story(epic_id, story_id).epics);
    assert(s@.stories =~= before.without_story(epic_id, story_id).stories);
    Ok(())
}

/// Sets the status of epic `epic_id` in `s`.
pub fn apply_epic_status(s: &mut DBState, epic_id: u32, status: RecordStatus) -> (r: Result<
    (),
    JiraError,
>)
    ensures
        (r, final(s)@) == epic_status_outcome(old(s)@, epic_id, status),
{
    let ghost before = s@;
    if !s.epics.contains_key(&epic_id) {
        return Err(JiraError::EpicNotFound(epic_id));
    }
    let mut epic = match s.epics.remove(&epic_id) {
        Some(e) => e,
        None => return Err(JiraError::EpicNotFound(epic_id)),
    };
    epic.status = status;
    s.epics.insert(epic_id, epic);
    assert(s@.epics =~= before.with_epic_status(epic_id, status).epics);
    Ok(())
}

/// Sets the status of story `story_id` in `s`.
pub fn apply_story_status(s: &mut DBState, story_id: u32, status: RecordStatus) -> (r: Result<
    (),
    JiraError,
>)
    ensures
        (r, final(s)@) == story_status_outcome(old(s)@, story_id, status),
{
    let ghost before = s@;
    if !s.stories.contains_key(&story_id) {
        return Err(JiraError::StoryNotFound(story_id));
    }
    let mut story = match s.stories.remove(&story_id) {
        Some(e) => e,
        None => return Err(JiraError::StoryNotFound(story_id)),
    };
    story.status = status;
    s.stories.insert(story_id, story);
    assert(s@.stories =~= before.with_story_status(story_id, status).stories);
    Ok(())
}

/// CRUD over the record store. Each operation reads the whole state from the
/// port, changes it with the matching `apply_` function, and writes it back.
pub struct JiraDatabase<D: Database> {
    pub database: D,
}

impl<D: Database> JiraDatabase<D> {
    pub open spec fn state(&self) -> DBModel {
        self.database.persisted()
    }

    pub open spec fn faithful(&self) -> bool {
        self.database.faithful()
    }

    pub open spec fn infallible(&self) -> bool {
        self.database.infallible()
    }

    /// The port's promises are the same as before.
    pub open spec fn same_port(&self, other: &Self) -> bool {
        self.faithful() == other.faithful() && self.infallible() == other.infallible()
    }

    pub fn new(database: D) -> (r: Self)
        ensures
            r.database == database,
    {
        JiraDatabase { database }
    }

    /// The stored state, for display.
    pub fn read_db(&self) -> (r: Result<DBState, JiraError>)
        ensures
            self.faithful() && r is Ok ==> r->Ok_0@ == self.state(),
            r is Err ==> is_store_error(r->Err_0),
            self.infallible() ==> r is Ok,
    {
        match self.database.read_db() {
            Ok(s) => Ok(s),
            Err(e) => Err(JiraError::Store(e)),
        }
    }

    fn write(&mut self, s: &DBState) -> (r: Result<(), JiraError>)
        ensures
            final(self).same_port(old(self)),
            old(self).faithful() && r is Ok ==> final(self).state() == s@,
            old(self).faithful() && r is Err ==> final(self).state() == old(self).state(),
            r is Err ==> is_store_error(r->Err_0),
            old(self).infallible() ==> r is Ok,
    {
        match self.database.write_db(s) {
            Ok(()) => Ok(()),
            Err(e) => Err(JiraError::Store(e)),
        }
    }

    /// Stores `epic` under the next ID and returns that ID.
    pub fn create_epic(&mut self, epic: Epic) -> (r: Result<u32, JiraError>)
        ensures
            final(self).same_port(old(self)),
            old(self).faithful() ==> settles(
                old(self).state(),
                final(self).state(),
                r,
                create_epic_outcome(old(self).state(), epic@),
            ),
            old(self).infallible() ==> !store_failed(r),
    {
        let mut s = self.read_db()?;
        let r = apply_create_epic(&mut s, epic);
        if r.is_ok() {
            self.write(&s)?;
        }
        r
    }

    /// Stores `story` under the next ID and appends that ID to the stories
    /// of epic `epic_id`.
    pub fn create_story(&mut self, story: Story, epic_id: u32) -> (r: Result<u32, JiraError>)
        ensures
            final(self).same_port(old(self)),
            old(self).faithful() ==> settles(
                old(self).state(),
                final(self).state(),
                r,
                create_story_outcome(old(self).state(), story@, epic_id),
            ),
            old(self).infallible() ==> !store_failed(r),
    {
        let mut s = self.read_db()?;
        let r = apply_create_story(&mut s, story, epic_id);
        if r.is_ok() {
            self.write(&s)?;
        }
        r
    }

    /// Removes epic `epic_id` and every story that its list names.
    pub fn delete_epic(&mut self, epic_id: u32) -> (r: Result<(), JiraError>)
        ensures
            final(self).same_port(old(self)),
            old(self).faithful() ==> settles(
                old(self).state(),
                final(self).state(),
                r,
                delete_epic_outcome(old(self).state(), epic_id),
            ),
            old(self).infallible() ==> !store_failed(r),
    {
        let mut s = self.read_db()?;
        let r = apply_delete_epic(&mut s, epic_id);
        if r.is_ok() {
            self.write(&s)?;
        }
        r
    }

    /// Removes story `story_id` and takes it out of the list of epic `epic_id`.
    pub fn delete_story(&mut self, epic_id: u32, story_id: u32) -> (r: Result<(), JiraError>)
        ensures
            final(self).same_port(old(self)),
            old(self).faithful() ==> settles(
                old(self).state(),
                final(self).state(),
                r,
                delete_story_outcome(old(self).state(), epic_id, story_id),
            ),
            old(self).infallible() ==> !store_failed(r),
    {
        let mut s = self.read_db()?;
        let r = apply_delete_story(&mut s, epic_id, story_id);
        if r.is_ok() {
            self.write(&s)?;
        }
        r
    }

    /// Sets the status of epic `epic_id`.
    pub fn update_epic_status(&mut self, epic_id: u32, status: RecordStatus) -> (r: Result<
        (),
        JiraError,
    >)
        ensures
            final(self).same_port(old(self)),
            old(self).faithful() ==> settles(
                old(self).state(),
                final(self).state(),
                r,
                epic_status_outcome(old(self).state(), epic_id, status),
            ),
            old(self).infallible() ==> !store_failed(r),
    {
        let mut s = self.read_db()?;
        let r = apply_epic_status(&mut s, epic_id, status);
        if r.is_ok() {
            self.write(&s)?;
        }
        r
    }

    /// Sets the status of story `story_id`.
    pub fn update_story_status(&mut self, story_id: u32, status: RecordStatus) -> (r: Result<
        (),
        JiraError,
    >)
        ensures
            final(self).same_port(old(self)),
            old(self).faithful() ==> settles(
                old(self).state(),
                final(self).state(),
                r,
                story_status_outcome(old(self).state(), story_id, status),
            ),
            old(self).infallible() ==> !store_failed(r),
    {
        let mut s = self.read_db()?;
        let r = apply_story_status(&mut s, story_id, status);
        if r.is_ok() {
            self.write(&s)?;
        }
        r
    }
}

} // verus!
