use vstd::prelude::*;
use std::collections::HashMap;

verus! {

/// What a page asks the navigator to do after interpreting a keystroke.
#[derive(Debug, PartialEq, Eq, Structural, Clone, Copy)]
pub enum Action {
    NavigateToEpicDetail { epic_id: u32 },
    NavigateToStoryDetail { epic_id: u32, story_id: u32 },
    NavigateToPreviousPage,
    CreateEpic,
    UpdateEpicStatus { epic_id: u32 },
    DeleteEpic { epic_id: u32 },
    CreateStory { epic_id: u32 },
    UpdateStoryStatus { story_id: u32 },
    DeleteStory { epic_id: u32, story_id: u32 },
    Exit,
}

/// Lifecycle tag shared by epics and stories.
#[derive(Debug, PartialEq, Eq, Structural, Clone, Copy)]
pub enum RecordStatus {
    Open,
    InProgress,
    Resolved,
    Closed,
}

impl RecordStatus {
    pub open spec fn label_view(self) -> Seq<char> {
        match self {
            RecordStatus::Open => "Open"@,
            RecordStatus::InProgress => "In progress"@,
            RecordStatus::Resolved => "Resolved"@,
            RecordStatus::Closed => "Closed"@,
        }
    }

    /// The label shown for this status on screen.
    pub fn label(&self) -> (r: &'static str)
        ensures
            r@ == self.label_view(),
    {
        match self {
            RecordStatus::Open => "Open",
            RecordStatus::InProgress => "In progress",
            RecordStatus::Resolved => "Resolved",
            RecordStatus::Closed => "Closed",
        }
    }

    /// The label as an owned string.
    pub fn to_string(&self) -> (r: String)
        ensures
            r@ == self.label_view(),
    {
        String::from_str(self.label())
    }
}

pub struct EpicView {
    pub name: Seq<char>,
    pub description: Seq<char>,
    pub status: RecordStatus,
    pub stories: Seq<u32>,
}

pub struct StoryView {
    pub name: Seq<char>,
    pub description: Seq<char>,
    pub status: RecordStatus,
}

/// A top-level work item; `stories` lists the IDs of the stories it owns.
#[derive(Debug, Clone, PartialEq, Eq)]
pub struct Epic {
    pub name: String,
    pub description: String,
    pub status: RecordStatus,
    pub stories: Vec<u32>,
}

impl View for Epic {
    type V = EpicView;

    open spec fn view(&self) -> EpicView {
        EpicView {
            name: self.name@,
            description: self.description@,
            status: self.status,
            stories: self.stories@,
        }
    }
}

impl Epic {
    /// A fresh epic: status `Open` and no stories.
    pub fn new(name: String, description: String) -> (r: Epic)
        ensures
            r@ == (EpicView {
                name: name@,
                description: description@,
                status: RecordStatus::Open,
                stories: Seq::empty(),
            }),
    {
        Epic { name, description, status: RecordStatus::Open, stories: Vec::new() }
    }
}

/// A child work item, stored by ID apart from the epic that owns it.
#[derive(Debug, Clone, PartialEq, Eq)]
pub struct Story {
    pub name: String,
    pub description: String,
    pub status: RecordStatus,
}

impl View for Story {
    type V = StoryView;

    open spec fn view(&self) -> StoryView {
        StoryView { name: self.name@, description: self.description@, status: self.status }
    }
}

impl Story {
    /// A fresh story with status `Open`.
    pub fn new(name: String, description: String) -> (r: Story)
        ensures
            r@ == (StoryView { name: name@, description: description@, status: RecordStatus::Open }),
    {
        Story { name, description, status: RecordStatus::Open }
    }
}

/// The whole persisted state: the last ID handed out and the two tables.
#[derive(Debug, Clone, PartialEq, Eq)]
pub struct DBState {
    pub last_item_id: u32,
    pub epics: HashMap<u32, Epic>,
    pub stories: HashMap<u32, Story>,
}

/// Holds of every ID but `x`.
pub open spec fn other_than(x: u32) -> spec_fn(u32) -> bool {
    |y: u32| y != x
}

/// The mathematical content of a `DBState`.
pub struct DBModel {
    pub last_item_id: u32,
    pub epics: Map<u32, EpicView>,
    pub stories: Map<u32, StoryView>,
}

impl View for DBState {
    type V = DBModel;

    open spec fn view(&self) -> DBModel {
        DBModel {
            last_item_id: self.last_item_id,
            epics: self.epics@.map_values(|e: Epic| e@),
            stories: self.stories@.map_values(|s: Story| s@),
        }
    }
}

impl DBModel {
    /// Every ID in either table is one that has already been handed out.
    pub open spec fn wf(self) -> bool {
        &&& forall|id: u32| #[trigger] self.epics.contains_key(id) ==> id <= self.last_item_id
        &&& forall|id: u32| #[trigger] self.stories.contains_key(id) ==> id <= self.last_item_id
    }

    /// The ID that the next creation receives.
    pub open spec fn next_id(self) -> int {
        self.last_item_id + 1
    }

    pub open spec fn with_new_epic(self, epic: EpicView) -> DBModel
        recommends
            self.last_item_id < u32::MAX,
    {
        let id = (self.last_item_id + 1) as u32;
        DBModel { last_item_id: id, epics: self.epics.insert(id, epic), stories: self.stories }
    }

    pub open spec fn with_new_story(self, story: StoryView, epic_id: u32) -> DBModel
        recommends
            self.last_item_id < u32::MAX,
            self.epics.contains_key(epic_id),
    {
        let id = (self.last_item_id + 1) as u32;
        let epic = self.epics[epic_id];
        DBModel {
            last_item_id: id,
            epics: self.epics.insert(epic_id, EpicView { stories: epic.stories.push(id), ..epic }),
            stories: self.stories.insert(id, story),
        }
    }

    pub open spec fn without_epic(self, epic_id: u32) -> DBModel
        recommends
            self.epics.contains_key(epic_id),
    {
        DBModel {
            last_item_id: self.last_item_id,
            epics: self.epics.remove(epic_id),
            stories: self.stories.remove_keys(self.epics[epic_id].stories.to_set()),
        }
    }

    pub open spec fn without_story(self, epic_id: u32, story_id: u32) -> DBModel
        recommends
            self.epics.contains_key(epic_id),
            self.stories.contains_key(story_id),
    {
        let epic = self.epics[epic_id];
        DBModel {
            last_item_id: self.last_item_id,
            epics: self.epics.insert(
                epic_id,
                EpicView { stories: epic.stories.filter(other_than(story_id)), ..epic },
            ),
            stories: self.stories.remove(story_id),
        }
    }

    pub open spec fn with_epic_status(self, epic_id: u32, status: RecordStatus) -> DBModel
        recommends
            self.epics.contains_key(epic_id),
    {
        DBModel {
            epics: self.epics.insert(epic_id, EpicView { status, ..self.epics[epic_id] }),
            ..self
        }
    }

    pub open spec fn with_story_status(self, story_id: u32, status: RecordStatus) -> DBModel
        recommends
            self.stories.contains_key(story_id),
    {
        DBModel {
            stories: self.stories.insert(story_id, StoryView { status, ..self.stories[story_id] }),
            ..self
        }
    }
}

/// A failure of the persistence port.
#[derive(Debug, Clone, PartialEq, Eq)]
pub enum StoreError {
    /// The backing storage could not be read or written.
    Io(String),
    /// The stored content is not a valid serialized state.
    Decode(String),
    /// The state could not be serialized.
    Encode(String),
}

/// Every failure the record database and the pages report.
#[derive(Debug, Clone, PartialEq, Eq)]
pub enum JiraError {
    Store(StoreError),
    EpicNotFound(u32),
    StoryNotFound(u32),
    /// Every ID that fits in 32 bits has been handed out.
    IdsExhausted,
}

} // verus!
