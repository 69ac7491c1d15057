use vstd::prelude::*;
use crate::models::{Epic, RecordStatus, Story};

verus! {

/// The five interactive questions the navigator asks. An interactive build
/// reads the answers from the terminal; a test supplies them directly.
pub trait Prompts {
    /// A new epic, from a name and a description.
    fn create_epic(&mut self) -> Epic;

    /// A new story, from a name and a description.
    fn create_story(&mut self) -> Story;

    /// Whether the user confirms deleting an epic.
    fn delete_epic(&mut self) -> bool;

    /// Whether the user confirms deleting a story.
    fn delete_story(&mut self) -> bool;

    /// The status the user picked, if the answer names one.
    fn update_status(&mut self) -> Option<RecordStatus>;
}

pub open spec fn confirms(response: Seq<char>) -> bool {
    response.len() == 0 || response == seq!['y'] || response == seq!['Y']
}

/// A confirmation answer: empty, `y` or `Y` confirms; anything else declines.
pub fn is_confirmation(response: &str) -> (r: bool)
    ensures
        r == confirms(response@),
{
    let n = response.unicode_len();
    if n == 0 {
        return true;
    }
    if n != 1 {
        return false;
    }
    let c = response.get_char(0);
    assert((c == 'y' || c == 'Y') ==> response@ =~= seq![c]);
    c == 'y' || c == 'Y'
}

pub open spec fn status_named(response: Seq<char>) -> Option<RecordStatus> {
    if response == seq!['1'] {
        Some(RecordStatus::Open)
    } else if response == seq!['2'] {
        Some(RecordStatus::InProgress)
    } else if response == seq!['3'] {
        Some(RecordStatus::Resolved)
    } else if response == seq!['4'] {
        Some(RecordStatus::Closed)
    } else {
        None
    }
}

/// A status answer: `1` to `4` pick Open, In progress, Resolved and Closed.
pub fn status_choice(response: &str) -> (r: Option<RecordStatus>)
    ensures
        r == status_named(response@),
{
    if response.unicode_len() != 1 {
        return None;
    }
    let c = response.get_char(0);
    assert(response@ =~= seq![c]);
    if c == '1' {
        Some(RecordStatus::Open)
    } else if c == '2' {
        Some(RecordStatus::InProgress)
    } else if c == '3' {
        Some(RecordStatus::Resolved)
    } else if c == '4' {
        Some(RecordStatus::Closed)
    } else {
        None
    }
}

} // verus!
