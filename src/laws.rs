use vstd::prelude::*;
use crate::db::{delete_story_outcome, story_status_outcome};
use crate::models::{DBModel, EpicView, JiraError, RecordStatus, StoryView};

verus! {

/// `after` is `before` with one new record stored under `id`, as a successful
/// `create_epic` or `create_story` leaves it.
pub open spec fn creation_step(before: DBModel, after: DBModel, id: u32) -> bool {
    &&& id == before.next_id()
    &&& {
        ||| exists|e: EpicView| after == #[trigger] before.with_new_epic(e)
        ||| exists|s: StoryView, epic_id: u32|
            before.epics.contains_key(epic_id) && after == #[trigger] before.with_new_story(
                s,
                epic_id,
            )
    }
}

proof fn lemma_creation_keeps_wf(before: DBModel, after: DBModel, id: u32)
    requires
        before.wf(),
        creation_step(before, after, id),
    ensures
        after.wf(),
        after.last_item_id == id,
        !before.epics.contains_key(id),
        !before.stories.contains_key(id),
{
}

/// Over any run of creations that starts from a well-formed state, the IDs
/// handed out climb strictly, none of them was in use before, and the last
/// one handed out is the final `last_item_id`.
pub proof fn law_creation_ids_increase(states: Seq<DBModel>, ids: Seq<u32>)
    requires
        states.len() == ids.len() + 1,
        states[0].wf(),
        forall|i: int| 0 <= i < ids.len() ==> creation_step(states[i], states[i + 1], #[trigger] ids[i]),
    ensures
        forall|i: int, j: int| 0 <= i < j < ids.len() ==> ids[i] < ids[j],
        forall|i: int, j: int|
            0 <= i <= j < ids.len() ==> !(#[trigger] states[i]).epics.contains_key(#[trigger] ids[j])
                && !states[i].stories.contains_key(ids[j]),
        ids.len() > 0 ==> states.last().last_item_id == ids.last(),
    decreases ids.len(),
{
    if ids.len() > 0 {
        let n = ids.len() - 1;
        law_creation_ids_increase(states.drop_last(), ids.drop_last());
        assert forall|i: int| 0 <= i <= n implies (#[trigger] states[i]).wf() && states[i].last_item_id
            == states[0].last_item_id + i && ids[i] == states[0].last_item_id + i + 1 by {
            lemma_states_climb(states, ids, i);
        }
        assert forall|i: int, j: int| 0 <= i <= j < ids.len() implies !(
        #[trigger] states[i]).epics.contains_key(#[trigger] ids[j]) && !states[i].stories.contains_key(
            ids[j],
        ) by {
            lemma_states_climb(states, ids, i);
            lemma_states_climb(states, ids, j);
        }
        lemma_states_climb(states, ids, n);
        lemma_creation_keeps_wf(states[n], states[n + 1], ids[n]);
    }
}

proof fn lemma_states_climb(states: Seq<DBModel>, ids: Seq<u32>, k: int)
    requires
        states.len() == ids.len() + 1,
        states[0].wf(),
        forall|i: int| 0 <= i < ids.len() ==> creation_step(states[i], states[i + 1], #[trigger] ids[i]),
        0 <= k < ids.len(),
    ensures
        states[k].wf(),
        states[k].last_item_id == states[0].last_item_id + k,
        ids[k] == states[0].last_item_id + k + 1,
    decreases k,
{
    if k > 0 {
        lemma_states_climb(states, ids, k - 1);
        lemma_creation_keeps_wf(states[k - 1], states[k], ids[k - 1]);
    }
}

/// Deleting an epic removes every story that its list names, so a later delete
/// or status update of one of those stories fails with `StoryNotFound`.
pub proof fn law_delete_epic_removes_its_stories(
    m: DBModel,
    epic_id: u32,
    story_id: u32,
    other_epic: u32,
    status: RecordStatus,
)
    requires
        m.epics.contains_key(epic_id),
        m.epics[epic_id].stories.contains(story_id),
    ensures
        !m.without_epic(epic_id).stories.contains_key(story_id),
        !m.without_epic(epic_id).epics.contains_key(epic_id),
        m.without_epic(epic_id).last_item_id == m.last_item_id,
        delete_story_outcome(m.without_epic(epic_id), other_epic, story_id).0 == Err::<
            (),
            JiraError,
        >(JiraError::StoryNotFound(story_id)),
        story_status_outcome(m.without_epic(epic_id), story_id, status).0 == Err::<(), JiraError>(
            JiraError::StoryNotFound(story_id),
        ),
{
}

/// Every change that the record database makes keeps each stored ID at or
/// below `last_item_id`.
pub proof fn law_changes_keep_wf(m: DBModel, epic_id: u32, story_id: u32, status: RecordStatus)
    requires
        m.wf(),
    ensures
        m.epics.contains_key(epic_id) ==> m.without_epic(epic_id).wf(),
        m.epics.contains_key(epic_id) && m.stories.contains_key(story_id) ==> m.without_story(
            epic_id,
            story_id,
        ).wf(),
        m.epics.contains_key(epic_id) ==> m.with_epic_status(epic_id, status).wf(),
        m.stories.contains_key(story_id) ==> m.with_story_status(story_id, status).wf(),
{
}

} // verus!
