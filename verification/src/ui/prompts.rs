//! What the tracker asks the user, and how it reads the answers.
use crate::io_utils::{DFT, RED};
use crate::models::{Epic, Status, Story};
use crate::ui::pages::page_helpers::{fill, repeated};
use vstd::prelude::*;
use vstd::string::{StrSliceExecFns, StringExecFns};

verus! {

/// The width of the line that stands above each question.
pub const SEPARATOR_LINE_WIDTH: usize = 100;

/// The question for the name of a new epic.
pub const EPIC_NAME_QUESTION: &'static str = "Epic Name       :";

/// The question for the description of a new epic.
pub const EPIC_DESCRIPTION_QUESTION: &'static str = "Epic Description:";

/// The question for the name of a new story.
pub const STORY_NAME_QUESTION: &'static str = "Story Name       :";

/// The question for the description of a new story.
pub const STORY_DESCRIPTION_QUESTION: &'static str = "Story Description:";

/// The question before an epic is deleted.
pub const DELETE_EPIC_QUESTION: &'static str =
    "Are you sure you want to delete this epic? All stories in this epic will also be deleted [Y/n]:";

/// The question before a story is deleted.
pub const DELETE_STORY_QUESTION: &'static str =
    "Are you sure you want to delete this story? [Y/n]:";

/// The question for a new status.
pub const STATUS_QUESTION: &'static str =
    "New Status ([1] - OPEN, [2] - IN-PROGRESS, [3] - RESOLVED, [4] - CLOSED):";

/// The line that stands above each question: dashes in the colour of the
/// keys.
pub open spec fn separator_line() -> Seq<char> {
    RED@ + repeated('-', SEPARATOR_LINE_WIDTH as nat) + DFT@
}

/// Returns the line that stands above each question.
pub fn separator() -> (line: String)
    ensures
        line@ == separator_line(),
{
    proof {
        reveal_strlit("-");
    }
    let mut line = RED.to_owned();
    fill(&mut line, "-", SEPARATOR_LINE_WIDTH);
    line.append(DFT);
    line
}

/// The questions that the tracker puts to the user. Each call asks once and
/// returns what the user answered; nothing is known of an answer beforehand.
pub trait Prompts {
    /// Asks for the name and the description of a new epic.
    fn create_epic(&self) -> Epic;

    /// Asks for the name and the description of a new story.
    fn create_story(&self) -> Story;

    /// Asks whether an epic and its stories are to be deleted.
    fn delete_epic(&self) -> bool;

    /// Asks whether a story is to be deleted.
    fn delete_story(&self) -> bool;

    /// Asks for a new status. `None` stands for an answer that names none.
    fn update_status(&self) -> Option<Status>;
}

/// The status that an answer to the question for a new status names.
pub open spec fn status_choice(answer: Seq<char>) -> Option<Status> {
    if answer == seq!['1'] {
        Some(Status::Open)
    } else if answer == seq!['2'] {
        Some(Status::InProgress)
    } else if answer == seq!['3'] {
        Some(Status::Resolved)
    } else if answer == seq!['4'] {
        Some(Status::Closed)
    } else {
        None
    }
}

/// Returns the status that a trimmed answer names: `1` for open, `2` for in
/// progress, `3` for resolved and `4` for closed.
pub fn read_status(answer: &str) -> (status: Option<Status>)
    ensures
        status == status_choice(answer@),
{
    if answer.unicode_len() != 1 {
        proof {
            assert(seq!['1'].len() == 1 && seq!['2'].len() == 1 && seq!['3'].len() == 1 && seq![
                '4',
            ].len() == 1);
        }
        return None;
    }
    let c = answer.get_char(0);
    proof {
        assert(answer@ =~= seq![c]);
        assert(seq!['1'][0] == '1' && seq!['2'][0] == '2' && seq!['3'][0] == '3' && seq!['4'][0]
            == '4');
    }
    if c == '1' {
        Some(Status::Open)
    } else if c == '2' {
        Some(Status::InProgress)
    } else if c == '3' {
        Some(Status::Resolved)
    } else if c == '4' {
        Some(Status::Closed)
    } else {
        None
    }
}

/// Returns whether a trimmed answer to a question for confirmation says yes:
/// only a capital `Y` does.
pub fn read_confirmation(answer: &str) -> (yes: bool)
    ensures
        yes == (answer@ == seq!['Y']),
{
    if answer.unicode_len() != 1 {
        proof {
            assert(seq!['Y'].len() == 1);
        }
        return false;
    }
    let c = answer.get_char(0);
    proof {
        assert(answer@ =~= seq![c]);
        assert(seq!['Y'][0] == 'Y');
    }
    c == 'Y'
}

} // verus!
