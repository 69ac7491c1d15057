use vstd::prelude::*;
use vstd::std_specs::iter::IteratorSpec;
use std::collections::HashMap;
use crate::db::{empty_state, is_store_error, store_failed, Database, JiraDatabase};
use crate::models::{Action, DBModel, DBState, Epic, EpicView, JiraError, StoryView};
use crate::page_helpers::{ascending, column, decimal, get_column_string, integer_text, sorted_ids};

verus! {

broadcast use vstd::std_specs::hash::group_hash_axioms;

pub open spec fn is_digit(c: char) -> bool {
    '0' <= c <= '9'
}

pub open spec fn digit_value(c: char) -> nat {
    (c as u32 - '0' as u32) as nat
}

/// The number that a string of decimal digits stands for.
pub open spec fn digits_value(s: Seq<char>) -> nat
    decreases s.len(),
{
    if s.len() == 0 {
        0
    } else {
        digits_value(s.drop_last()) * 10 + digit_value(s.last())
    }
}

pub open spec fn all_digits(s: Seq<char>) -> bool {
    forall|i: int| 0 <= i < s.len() ==> is_digit(#[trigger] s[i])
}

/// The text after an optional leading '+'.
pub open spec fn unsigned_part(s: Seq<char>) -> Seq<char> {
    if s.len() > 0 && s[0] == '+' {
        s.drop_first()
    } else {
        s
    }
}

/// The ID that `s` spells: an optional '+', then one or more decimal digits
/// whose value fits in 32 bits.
pub open spec fn parsed_id(s: Seq<char>) -> Option<u32> {
    let d = unsigned_part(s);
    if d.len() > 0 && all_digits(d) && digits_value(d) <= u32::MAX {
        Some(digits_value(d) as u32)
    } else {
        None
    }
}

proof fn lemma_digits_value_grows(s: Seq<char>, k: int)
    requires
        0 <= k <= s.len(),
        all_digits(s),
    ensures
        digits_value(s.take(k)) <= digits_value(s),
    decreases s.len() - k,
{
    if k < s.len() {
        lemma_digits_value_grows(s, k + 1);
        assert(s.take(k + 1).drop_last() =~= s.take(k));
    } else {
        assert(s.take(k) =~= s);
    }
}

/// Reads `input` as an ID, the way an unsigned 32-bit integer is parsed.
pub fn parse_id(input: &str) -> (r: Option<u32>)
    ensures
        r == parsed_id(input@),
{
    let n = input.unicode_len();
    let mut start: usize = 0;
    if n > 0 && input.get_char(0) == '+' {
        start = 1;
    }
    let ghost d = unsigned_part(input@);
    assert(d =~= input@.subrange(start as int, n as int));
    if start >= n {
        return None;
    }
    let mut v: u64 = 0;
    let mut i: usize = start;
    while i < n
        invariant
            start <= i <= n,
            n == input@.len(),
            d == input@.subrange(start as int, n as int),
            d == unsigned_part(input@),
            v == digits_value(d.take(i - start)),
            v <= u32::MAX,
            all_digits(d.take(i - start)),
        decreases n - i,
    {
        let c = input.get_char(i);
        assert(d[i - start] == c);
        if !('0' <= c && c <= '9') {
            assert(!all_digits(d));
            return None;
        }
        assert(d.take(i - start + 1).drop_last() =~= d.take(i - start));
        v = v * 10 + (c as u32 - '0' as u32) as u64;
        i = i + 1;
        assert(all_digits(d.take(i - start))) by {
            assert forall|j: int| 0 <= j < i - start implies is_digit(#[trigger] d.take(i - start)[j]) by {
                if j < i - start - 1 {
                    assert(d.take(i - start)[j] == d.take(i - start - 1)[j]);
                }
            }
        }
        if v > u32::MAX as u64 {
            proof {
                if all_digits(d) {
                    lemma_digits_value_grows(d, i - start);
                }
            }
            return None;
        }
    }
    assert(d.take(i - start) =~= d);
    Some(v as u32)
}

/// `input` is exactly the one character `c`.
fn is_key(input: &str, c: char) -> (r: bool)
    ensures
        r == (input@ == seq![c]),
{
    let n = input.unicode_len();
    if n != 1 {
        return false;
    }
    let first = input.get_char(0);
    assert(first == c ==> input@ =~= seq![c]);
    first == c
}

pub open spec fn lines_view(lines: Seq<String>) -> Seq<Seq<char>> {
    lines.map_values(|s: String| s@)
}

/// `ids` lists the set `keys` in ascending order.
pub open spec fn lists_in_order(ids: Seq<u32>, keys: Set<u32>) -> bool {
    &&& ascending(ids)
    &&& ids.to_set() == keys
    &&& ids.len() == keys.len()
}

pub open spec fn joined(a: Seq<char>, b: Seq<char>, sep: Seq<char>) -> Seq<char> {
    a + sep + b
}

/// A row of the list of epics, or of the stories of an epic.
pub open spec fn list_row(id: u32, name: Seq<char>, status_label: Seq<char>) -> Seq<char> {
    joined(
        joined(column(decimal(id as nat), 11), column(name, 32), " | "@),
        column(status_label, 17),
        " | "@,
    )
}

pub open spec fn home_lines(m: DBModel, ids: Seq<u32>) -> Seq<Seq<char>> {
    seq![
        "----------------------------- EPICS -----------------------------"@,
        "     id     |               name               |      status      "@,
    ] + ids.map_values(|id: u32| list_row(id, m.epics[id].name, m.epics[id].status.label_view()))
        + seq![""@, ""@, "[q] quit | [c] create epic | [:id:] navigate to epic"@]
}

pub open spec fn epic_row(epic_id: u32, e: EpicView) -> Seq<char> {
    joined(
        joined(
            joined(column(decimal(epic_id as nat), 5), column(e.name, 12), " | "@),
            column(e.description, 27),
            " | "@,
        ),
        column(e.status.label_view(), 13),
        " | "@,
    )
}

pub open spec fn epic_lines(m: DBModel, epic_id: u32, ids: Seq<u32>) -> Seq<Seq<char>> {
    seq![
        "------------------------------ EPIC ------------------------------"@,
        "  id  |     name     |         description         |    status    "@,
        epic_row(epic_id, m.epics[epic_id]),
        ""@,
        "---------------------------- STORIES ----------------------------"@,
        "     id     |               name               |      status      "@,
    ] + ids.map_values(
        |id: u32| list_row(id, m.stories[id].name, m.stories[id].status.label_view()),
    ) + seq![
        ""@,
        ""@,
        "[p] previous | [u] update epic | [d] delete epic | [c] create story | [:id:] navigate to story"@,
    ]
}

pub open spec fn story_row(story_id: u32, s: StoryView) -> Seq<char> {
    joined(
        joined(
            joined(column(decimal(story_id as nat), 6), column(s.name, 14), "|"@),
            column(s.description, 29),
            "|"@,
        ),
        column(s.status.label_view(), 14),
        "|"@,
    )
}

pub open spec fn story_lines(m: DBModel, story_id: u32) -> Seq<Seq<char>> {
    seq![
        "------------------------------ STORY ------------------------------"@,
        "  id  |     name     |         description         |    status    "@,
        story_row(story_id, m.stories[story_id]),
        ""@,
        "[p] previous | [u] update story | [d] delete story"@,
    ]
}

/// Every story that epic `epic_id` lists is stored.
pub open spec fn stories_present(m: DBModel, epic_id: u32) -> bool {
    forall|i: int|
        0 <= i < m.epics[epic_id].stories.len() ==> m.stories.contains_key(
            #[trigger] m.epics[epic_id].stories[i],
        )
}

pub open spec fn home_action(m: DBModel, input: Seq<char>) -> Option<Action> {
    if input == seq!['q'] {
        Some(Action::Exit)
    } else if input == seq!['c'] {
        Some(Action::CreateEpic)
    } else {
        match parsed_id(input) {
            Some(id) => if m.epics.contains_key(id) {
                Some(Action::NavigateToEpicDetail { epic_id: id })
            } else {
                None
            },
            None => None,
        }
    }
}

pub open spec fn epic_action(m: DBModel, epic_id: u32, input: Seq<char>) -> Option<Action> {
    if input == seq!['p'] {
        Some(Action::NavigateToPreviousPage)
    } else if input == seq!['u'] {
        Some(Action::UpdateEpicStatus { epic_id })
    } else if input == seq!['d'] {
        Some(Action::DeleteEpic { epic_id })
    } else if input == seq!['c'] {
        Some(Action::CreateStory { epic_id })
    } else {
        match parsed_id(input) {
            Some(id) => if m.stories.contains_key(id) {
                Some(Action::NavigateToStoryDetail { epic_id, story_id: id })
            } else {
                None
            },
            None => None,
        }
    }
}

pub open spec fn story_action(epic_id: u32, story_id: u32, input: Seq<char>) -> Option<Action> {
    if input == seq!['p'] {
        Some(Action::NavigateToPreviousPage)
    } else if input == seq!['u'] {
        Some(Action::UpdateStoryStatus { story_id })
    } else if input == seq!['d'] {
        Some(Action::DeleteStory { epic_id, story_id })
    } else {
        None
    }
}

/// `a`, then `sep`, then `b`.
fn join(a: String, sep: &str, b: &String) -> (r: String)
    ensures
        r@ == joined(a@, b@, sep@),
{
    let mut r = a;
    r.append(sep);
    r.append(b.as_str());
    r
}

fn id_column(id: u32, width: usize) -> (r: String)
    ensures
        r@ == column(decimal(id as nat), width),
{
    let text = integer_text(id as i64);
    get_column_string(text.as_str(), width)
}

fn list_row_text(id: u32, name: &String, status_label: &str) -> (r: String)
    ensures
        r@ == list_row(id, name@, status_label@),
{
    let a = join(id_column(id, 11), " | ", &get_column_string(name.as_str(), 32));
    join(a, " | ", &get_column_string(status_label, 17))
}

/// The IDs of the epics, in no particular order.
fn epic_ids(epics: &HashMap<u32, Epic>) -> (r: Vec<u32>)
    ensures
        r@.to_set() == epics@.dom(),
        r@.len() == epics@.dom().len(),
{
    let mut r: Vec<u32> = Vec::new();
    let keys = epics.keys();
    let ghost all: Seq<u32> = keys.remaining().map_values(|x: &u32| *x);
    proof {
        assert(all =~= keys.remaining().unref());
    }
    for k in it: keys
        invariant
            it.seq().map_values(|x: &u32| *x) == all,
            r@ == all.take(it.index()),
    {
        r.push(*k);
        assert(r@ =~= all.take(it.index() + 1));
    }
    assert(r@ =~= all);
    r
}


/// What drawing the list of epics yields on state `m`.
pub open spec fn home_drawn(m: DBModel, r: Result<Vec<String>, JiraError>) -> bool {
    match r {
        Ok(lines) => exists|ids: Seq<u32>|
            lists_in_order(ids, m.epics.dom()) && lines_view(lines@) == #[trigger] home_lines(m, ids),
        Err(e) => is_store_error(e),
    }
}

/// What drawing epic `epic_id` yields on state `m`. A story ID in the epic's list
/// that is missing from the stories table is reported.
pub open spec fn epic_drawn(m: DBModel, epic_id: u32, r: Result<Vec<String>, JiraError>) -> bool {
    match r {
        Ok(lines) => {
            &&& m.epics.contains_key(epic_id)
            &&& stories_present(m, epic_id)
            &&& exists|ids: Seq<u32>|
                ascending(ids) && ids.to_multiset() == m.epics[epic_id].stories.to_multiset()
                    && lines_view(lines@) == #[trigger] epic_lines(m, epic_id, ids)
        },
        Err(e) => {
            ||| is_store_error(e)
            ||| e == JiraError::EpicNotFound(epic_id) && !m.epics.contains_key(epic_id)
            ||| match e {
                JiraError::StoryNotFound(id) => {
                    &&& m.epics.contains_key(epic_id)
                    &&& m.epics[epic_id].stories.contains(id)
                    &&& !m.stories.contains_key(id)
                },
                _ => false,
            }
        },
    }
}

/// What drawing story `story_id` yields on state `m`.
pub open spec fn story_drawn(m: DBModel, story_id: u32, r: Result<Vec<String>, JiraError>) -> bool {
    match r {
        Ok(lines) => m.stories.contains_key(story_id) && lines_view(lines@) == story_lines(
            m,
            story_id,
        ),
        Err(e) => is_store_error(e) || (e == JiraError::StoryNotFound(story_id)
            && !m.stories.contains_key(story_id)),
    }
}

/// The lines of the list of epics on state `s`: every epic, by ascending ID.
pub fn home_page_lines(s: &DBState) -> (r: Vec<String>)
    ensures
        exists|ids: Seq<u32>|
            lists_in_order(ids, s@.epics.dom()) && lines_view(r@) == #[trigger] home_lines(s@, ids),
{
    broadcast use vstd::seq_lib::group_to_multiset_ensures;

    let ghost m = s@;
    let keys = epic_ids(&s.epics);
    let ghost listed = keys@;
    let ids = sorted_ids(keys);
    proof {
        assert forall|x: u32| #[trigger] ids@.contains(x) <==> listed.contains(x) by {
            assert(ids@.to_multiset().count(x) == listed.to_multiset().count(x));
        }
        assert(ids@.to_set() =~= listed.to_set());
        assert(ids@.len() == listed.len()) by {
            assert(ids@.to_multiset().len() == listed.to_multiset().len());
        }
    }
    let ghost expected = home_lines(m, ids@);
    let mut lines: Vec<String> = Vec::new();
    lines.push(String::from_str("----------------------------- EPICS -----------------------------"));
    lines.push(String::from_str("     id     |               name               |      status      "));
    let mut i: usize = 0;
    while i < ids.len()
        invariant
            i <= ids.len(),
            m == s@,
            expected == home_lines(m, ids@),
            ids@.to_set() == m.epics.dom(),
            lines.len() == 2 + i,
            forall|k: int| 0 <= k < lines.len() ==> (#[trigger] lines@[k])@ == expected[k],
        decreases ids.len() - i,
    {
        let id = ids[i];
        assert(ids@.to_set().contains(id));
        let epic = match s.epics.get(&id) {
            Some(e) => e,
            None => return lines,
        };
        lines.push(list_row_text(id, &epic.name, epic.status.label()));
        i = i + 1;
    }
    lines.push(String::from_str(""));
    lines.push(String::from_str(""));
    lines.push(String::from_str("[q] quit | [c] create epic | [:id:] navigate to epic"));
    assert(lines_view(lines@) =~= expected);
    lines
}

/// The lines of the page of epic `epic_id` on state `s`: the epic, then its
/// stories by ascending ID.
pub fn epic_page_lines(s: &DBState, epic_id: u32) -> (r: Result<Vec<String>, JiraError>)
    ensures
        epic_drawn(s@, epic_id, r),
        r is Ok <==> (s@.epics.contains_key(epic_id) && stories_present(s@, epic_id)),
        !store_failed(r),
{
    broadcast use vstd::seq_lib::group_to_multiset_ensures;

    let ghost m = s@;
    let epic = match s.epics.get(&epic_id) {
        Some(e) => e,
        None => return Err(JiraError::EpicNotFound(epic_id)),
    };
    let ids = sorted_ids(epic.stories.clone());
    let ghost expected = epic_lines(m, epic_id, ids@);
    let mut lines: Vec<String> = Vec::new();
    lines.push(String::from_str("------------------------------ EPIC ------------------------------"));
    lines.push(String::from_str("  id  |     name     |         description         |    status    "));
    let a = join(id_column(epic_id, 5), " | ", &get_column_string(epic.name.as_str(), 12));
    let b = join(a, " | ", &get_column_string(epic.description.as_str(), 27));
    lines.push(join(b, " | ", &get_column_string(epic.status.label(), 13)));
    lines.push(String::from_str(""));
    lines.push(String::from_str("---------------------------- STORIES ----------------------------"));
    lines.push(String::from_str("     id     |               name               |      status      "));
    let mut i: usize = 0;
    while i < ids.len()
        invariant
            i <= ids.len(),
            m == s@,
            m.epics.contains_key(epic_id),
            expected == epic_lines(m, epic_id, ids@),
            ids@.to_multiset() == m.epics[epic_id].stories.to_multiset(),
            lines.len() == 6 + i,
            forall|k: int| 0 <= k < lines.len() ==> (#[trigger] lines@[k])@ == expected[k],
            forall|k: int| 0 <= k < i ==> m.stories.contains_key(#[trigger] ids@[k]),
        decreases ids.len() - i,
    {
        let id = ids[i];
        assert(ids@.contains(id));
        let story = match s.stories.get(&id) {
            Some(st) => st,
            None => {
                proof {
                    ids@.to_multiset_ensures();
                    m.epics[epic_id].stories.to_multiset_ensures();
                }
                assert(ids@.to_multiset().count(id) > 0);
                assert(m.epics[epic_id].stories.to_multiset().count(id) > 0);
                assert(m.epics[epic_id].stories.contains(id));
                assert(!m.stories.contains_key(id));
                return Err(JiraError::StoryNotFound(id));
            },
        };
        lines.push(list_row_text(id, &story.name, story.status.label()));
        i = i + 1;
    }
    lines.push(String::from_str(""));
    lines.push(String::from_str(""));
    lines.push(
        String::from_str(
            "[p] previous | [u] update epic | [d] delete epic | [c] create story | [:id:] navigate to story",
        ),
    );
    assert(lines_view(lines@) =~= expected);
    assert(stories_present(m, epic_id)) by {
        assert forall|k: int| 0 <= k < m.epics[epic_id].stories.len() implies m.stories.contains_key(
            #[trigger] m.epics[epic_id].stories[k],
        ) by {
            let x = m.epics[epic_id].stories[k];
            assert(m.epics[epic_id].stories.contains(x));
            assert(m.epics[epic_id].stories.to_multiset().count(x) > 0);
            assert(ids@.to_multiset().count(x) > 0);
            assert(ids@.contains(x));
        }
    }
    Ok(lines)
}

/// The lines of the page of story `story_id` on state `s`.
pub fn story_page_lines(s: &DBState, story_id: u32) -> (r: Result<Vec<String>, JiraError>)
    ensures
        story_drawn(s@, story_id, r),
        r is Ok <==> s@.stories.contains_key(story_id),
        !store_failed(r),
{
    let story = match s.stories.get(&story_id) {
        Some(st) => st,
        None => return Err(JiraError::StoryNotFound(story_id)),
    };
    let mut lines: Vec<String> = Vec::new();
    lines.push(String::from_str("------------------------------ STORY ------------------------------"));
    lines.push(String::from_str("  id  |     name     |         description         |    status    "));
    let a = join(id_column(story_id, 6), "|", &get_column_string(story.name.as_str(), 14));
    let b = join(a, "|", &get_column_string(story.description.as_str(), 29));
    lines.push(join(b, "|", &get_column_string(story.status.label(), 14)));
    lines.push(String::from_str(""));
    lines.push(String::from_str("[p] previous | [u] update story | [d] delete story"));
    assert(lines_view(lines@) =~= story_lines(s@, story_id));
    Ok(lines)
}

/// The action that `input` asks for on the list of epics, on state `s`.
pub fn home_action_of(s: &DBState, input: &str) -> (r: Option<Action>)
    ensures
        r == home_action(s@, input@),
{
    if is_key(input, 'q') {
        return Some(Action::Exit);
    }
    if is_key(input, 'c') {
        return Some(Action::CreateEpic);
    }
    let epic_id = match parse_id(input) {
        Some(v) => v,
        None => return None,
    };
    if !s.epics.contains_key(&epic_id) {
        return None;
    }
    Some(Action::NavigateToEpicDetail { epic_id })
}

/// The action that `input` asks for on the page of epic `epic_id`, on state `s`.
pub fn epic_action_of(s: &DBState, epic_id: u32, input: &str) -> (r: Option<Action>)
    ensures
        r == epic_action(s@, epic_id, input@),
{
    if is_key(input, 'p') {
        return Some(Action::NavigateToPreviousPage);
    }
    if is_key(input, 'u') {
        return Some(Action::UpdateEpicStatus { epic_id });
    }
    if is_key(input, 'd') {
        return Some(Action::DeleteEpic { epic_id });
    }
    if is_key(input, 'c') {
        return Some(Action::CreateStory { epic_id });
    }
    let story_id = match parse_id(input) {
        Some(v) => v,
        None => return None,
    };
    if !s.stories.contains_key(&story_id) {
        return None;
    }
    Some(Action::NavigateToStoryDetail { epic_id, story_id })
}

/// The screen listing every epic.
#[derive(Debug, PartialEq, Eq, Structural, Clone, Copy)]
pub struct HomePage {}

impl HomePage {
    /// The lines of the screen: every epic, by ascending ID.
    pub fn draw_page<D: Database>(&self, db: &JiraDatabase<D>) -> (r: Result<Vec<String>, JiraError>)
        ensures
            db.faithful() ==> home_drawn(db.state(), r),
            r is Err ==> is_store_error(r->Err_0),
            db.infallible() ==> r is Ok,
    {
        let s = db.read_db()?;
        Ok(home_page_lines(&s))
    }

    /// `q` quits, `c` creates an epic, and the ID of a stored epic opens it.
    pub fn handle_input<D: Database>(&self, db: &JiraDatabase<D>, input: &str) -> (r: Result<
        Option<Action>,
        JiraError,
    >)
        ensures
            db.faithful() && r is Ok ==> r->Ok_0 == home_action(db.state(), input@),
            r is Err ==> is_store_error(r->Err_0) && parsed_id(input@) is Some,
            db.infallible() ==> r is Ok,
    {
        if is_key(input, 'q') || is_key(input, 'c') || parse_id(input).is_none() {
            let s = empty_state();
            proof {
                assert(home_action(s@, input@) == home_action(db.state(), input@));
            }
            return Ok(home_action_of(&s, input));
        }
        let s = db.read_db()?;
        Ok(home_action_of(&s, input))
    }
}

/// The screen showing one epic and its stories.
#[derive(Debug, PartialEq, Eq, Structural, Clone, Copy)]
pub struct EpicDetail {
    pub epic_id: u32,
}

impl EpicDetail {
    /// The lines of the screen: the epic, then its stories by ascending ID.
    pub fn draw_page<D: Database>(&self, db: &JiraDatabase<D>) -> (r: Result<Vec<String>, JiraError>)
        ensures
            db.faithful() ==> epic_drawn(db.state(), self.epic_id, r),
            db.faithful() && db.infallible() ==> (r is Ok <==> (db.state().epics.contains_key(
                self.epic_id,
            ) && stories_present(db.state(), self.epic_id))),
            db.infallible() ==> !store_failed(r),
    {
        let s = db.read_db()?;
        epic_page_lines(&s, self.epic_id)
    }

    /// `p` goes back, `u` updates the epic's status, `d` deletes it, `c` creates a
    /// story in it, and the ID of a stored story opens that story.
    pub fn handle_input<D: Database>(&self, db: &JiraDatabase<D>, input: &str) -> (r: Result<
        Option<Action>,
        JiraError,
    >)
        ensures
            db.faithful() && r is Ok ==> r->Ok_0 == epic_action(db.state(), self.epic_id, input@),
            r is Err ==> is_store_error(r->Err_0) && parsed_id(input@) is Some,
            db.infallible() ==> r is Ok,
    {
        if is_key(input, 'p') || is_key(input, 'u') || is_key(input, 'd') || is_key(input, 'c')
            || parse_id(input).is_none() {
            let s = empty_state();
            proof {
                assert(epic_action(s@, self.epic_id, input@) == epic_action(
                    db.state(),
                    self.epic_id,
                    input@,
                ));
            }
            return Ok(epic_action_of(&s, self.epic_id, input));
        }
        let s = db.read_db()?;
        Ok(epic_action_of(&s, self.epic_id, input))
    }
}

/// The screen showing one story.
#[derive(Debug, PartialEq, Eq, Structural, Clone, Copy)]
pub struct StoryDetail {
    pub epic_id: u32,
    pub story_id: u32,
}

impl StoryDetail {
    /// The lines of the screen: the story's fields.
    pub fn draw_page<D: Database>(&self, db: &JiraDatabase<D>) -> (r: Result<Vec<String>, JiraError>)
        ensures
            db.faithful() ==> story_drawn(db.state(), self.story_id, r),
            db.faithful() && db.infallible() ==> (r is Ok <==> db.state().stories.contains_key(
                self.story_id,
            )),
            db.infallible() ==> !store_failed(r),
    {
        let s = db.read_db()?;
        story_page_lines(&s, self.story_id)
    }

    /// `p` goes back, `u` updates the story's status and `d` deletes it.
    pub fn handle_input(&self, input: &str) -> (r: Option<Action>)
        ensures
            r == story_action(self.epic_id, self.story_id, input@),
    {
        let epic_id = self.epic_id;
        let story_id = self.story_id;
        if is_key(input, 'p') {
            Some(Action::NavigateToPreviousPage)
        } else if is_key(input, 'u') {
            Some(Action::UpdateStoryStatus { story_id })
        } else if is_key(input, 'd') {
            Some(Action::DeleteStory { epic_id, story_id })
        } else {
            None
        }
    }
}

/// One screen of the interactive loop.
#[derive(Debug, PartialEq, Eq, Structural, Clone, Copy)]
pub enum Page {
    Home(HomePage),
    EpicDetail(EpicDetail),
    StoryDetail(StoryDetail),
}

/// The action that `input` asks for on `page` when the state is `m`.
pub open spec fn page_action(page: Page, m: DBModel, input: Seq<char>) -> Option<Action> {
    match page {
        Page::Home(_) => home_action(m, input),
        Page::EpicDetail(p) => epic_action(m, p.epic_id, input),
        Page::StoryDetail(p) => story_action(p.epic_id, p.story_id, input),
    }
}

/// What drawing `page` yields on state `m`.
pub open spec fn page_drawn(page: Page, m: DBModel, r: Result<Vec<String>, JiraError>) -> bool {
    match page {
        Page::Home(_) => home_drawn(m, r),
        Page::EpicDetail(p) => epic_drawn(m, p.epic_id, r),
        Page::StoryDetail(p) => story_drawn(m, p.story_id, r),
    }
}

impl Page {
    /// The lines of this screen.
    pub fn draw_page<D: Database>(&self, db: &JiraDatabase<D>) -> (r: Result<Vec<String>, JiraError>)
        ensures
            db.faithful() ==> page_drawn(*self, db.state(), r),
            db.infallible() ==> !store_failed(r),
    {
        match self {
            Page::Home(p) => p.draw_page(db),
            Page::EpicDetail(p) => p.draw_page(db),
            Page::StoryDetail(p) => p.draw_page(db),
        }
    }

    /// The action that `input` asks for on this screen, if any.
    pub fn handle_input<D: Database>(&self, db: &JiraDatabase<D>, input: &str) -> (r: Result<
        Option<Action>,
        JiraError,
    >)
        ensures
            db.faithful() && r is Ok ==> r->Ok_0 == page_action(*self, db.state(), input@),
            r is Err ==> is_store_error(r->Err_0) && parsed_id(input@) is Some,
            db.infallible() ==> r is Ok,
    {
        match self {
            Page::Home(p) => p.handle_input(db, input),
            Page::EpicDetail(p) => p.handle_input(db, input),
            Page::StoryDetail(p) => Ok(p.handle_input(input)),
        }
    }
}

} // verus!
