//! The lines that the pages show: headings, rows of columns and keys.
use crate::io_utils::{DFT, GREEN};
use crate::models::Status;
use crate::ui::pages::page_helpers::{
    align_left, center, centered, column, decimal, decimal_text, get_column_string, left_aligned,
};
use vstd::prelude::*;
use vstd::string::StringExecFns;

verus! {

/// The width of a page.
pub const TERMINAL_WIDTH: usize = 100;

/// The width of the column of ids.
pub const ID_WIDTH: usize = 8;

/// The width of the column of names on a page that shows one item.
pub const NAME_WIDTH: usize = 20;

/// The width of the column of statuses.
pub const STATUS_WIDTH: usize = 12;

/// The width of the column of names in a list.
pub const LIST_NAME_WIDTH: usize = TERMINAL_WIDTH - ID_WIDTH - STATUS_WIDTH - 3;

/// The width of the column of descriptions.
pub const DESCRIPTION_WIDTH: usize = TERMINAL_WIDTH - ID_WIDTH - STATUS_WIDTH - NAME_WIDTH - 4;

/// The texts of some lines.
pub open spec fn texts(lines: Seq<String>) -> Seq<Seq<char>> {
    lines.map_values(|line: String| line@)
}

/// Adding a line adds its text.
pub proof fn lemma_texts_push(lines: Seq<String>, line: String)
    ensures
        texts(lines.push(line)) == texts(lines).push(line@),
{
    assert(texts(lines.push(line)) =~= texts(lines).push(line@));
}

/// The bar between two columns of a row.
pub open spec fn bar() -> Seq<char> {
    GREEN@ + "|"@ + DFT@
}

/// The line that opens a part of a page: its title in the middle of a line
/// of dashes.
pub open spec fn banner(title: Seq<char>) -> Seq<char> {
    GREEN@ + centered(title, TERMINAL_WIDTH as nat, '-')
}

/// The heading of the list of epics.
pub open spec fn epics_heading() -> Seq<char> {
    centered("id"@, ID_WIDTH as nat, ' ') + "|"@ + centered("name"@, LIST_NAME_WIDTH as nat, ' ')
        + "| "@ + centered("status"@, STATUS_WIDTH as nat, ' ') + DFT@
}

/// The heading of the list of stories.
pub open spec fn stories_heading() -> Seq<char> {
    centered("id"@, ID_WIDTH as nat, ' ') + "|"@ + centered("name"@, LIST_NAME_WIDTH as nat, ' ')
        + "|"@ + centered("status"@, STATUS_WIDTH as nat, ' ') + " "@ + DFT@
}

/// The heading above the one item that a page shows.
pub open spec fn detail_heading() -> Seq<char> {
    centered("id"@, ID_WIDTH as nat, ' ') + "|"@ + centered("name"@, NAME_WIDTH as nat, ' ')
        + "|"@ + centered("description"@, DESCRIPTION_WIDTH as nat, ' ') + "| "@ + centered(
        "status"@,
        STATUS_WIDTH as nat,
        ' ',
    ) + DFT@
}

/// The row of an item in a list.
pub open spec fn list_row(id: u32, name: Seq<char>, status: Status) -> Seq<char> {
    left_aligned(decimal_text(id as nat), ID_WIDTH as nat) + bar() + column(
        name,
        LIST_NAME_WIDTH as nat,
    ) + bar() + " "@ + column(status.label(), STATUS_WIDTH as nat)
}

/// The row of the one item that a page shows.
pub open spec fn detail_row(
    id: u32,
    name: Seq<char>,
    description: Seq<char>,
    status: Status,
) -> Seq<char> {
    left_aligned(decimal_text(id as nat), ID_WIDTH as nat) + bar() + column(
        name,
        NAME_WIDTH as nat,
    ) + bar() + column(description, DESCRIPTION_WIDTH as nat) + bar() + " "@ + column(
        status.label(),
        STATUS_WIDTH as nat,
    )
}

/// Appends the bar between two columns.
fn append_bar(line: &mut String)
    ensures
        final(line)@ == old(line)@ + bar(),
{
    line.append(GREEN);
    line.append("|");
    line.append(DFT);
    proof {
        assert(old(line)@ + GREEN@ + "|"@ + DFT@ =~= old(line)@ + bar());
    }
}

/// Returns the line that opens a part of a page.
pub fn make_banner(title: &str) -> (line: String)
    ensures
        line@ == banner(title@),
{
    proof {
        reveal_strlit("-");
    }
    let mut line = GREEN.to_owned();
    let middle = center(title, TERMINAL_WIDTH, "-");
    line.append(middle.as_str());
    line
}

/// Returns the heading of the list of epics.
pub fn make_epics_heading() -> (line: String)
    ensures
        line@ == epics_heading(),
{
    proof {
        reveal_strlit(" ");
    }
    let mut line = center("id", ID_WIDTH, " ");
    line.append("|");
    line.append(center("name", LIST_NAME_WIDTH, " ").as_str());
    line.append("| ");
    line.append(center("status", STATUS_WIDTH, " ").as_str());
    line.append(DFT);
    line
}

/// Returns the heading of the list of stories.
pub fn make_stories_heading() -> (line: String)
    ensures
        line@ == stories_heading(),
{
    proof {
        reveal_strlit(" ");
    }
    let mut line = center("id", ID_WIDTH, " ");
    line.append("|");
    line.append(center("name", LIST_NAME_WIDTH, " ").as_str());
    line.append("|");
    line.append(center("status", STATUS_WIDTH, " ").as_str());
    line.append(" ");
    line.append(DFT);
    line
}

/// Returns the heading above the one item that a page shows.
pub fn make_detail_heading() -> (line: String)
    ensures
        line@ == detail_heading(),
{
    proof {
        reveal_strlit(" ");
    }
    let mut line = center("id", ID_WIDTH, " ");
    line.append("|");
    line.append(center("name", NAME_WIDTH, " ").as_str());
    line.append("|");
    line.append(center("description", DESCRIPTION_WIDTH, " ").as_str());
    line.append("| ");
    line.append(center("status", STATUS_WIDTH, " ").as_str());
    line.append(DFT);
    line
}

/// Returns the row of an item in a list.
pub fn make_list_row(id: u32, name: &str, status: Status) -> (line: String)
    ensures
        line@ == list_row(id, name@, status),
{
    let mut line = align_left(decimal(id).as_str(), ID_WIDTH);
    append_bar(&mut line);
    line.append(get_column_string(name, LIST_NAME_WIDTH).as_str());
    append_bar(&mut line);
    line.append(" ");
    line.append(get_column_string(status.to_string().as_str(), STATUS_WIDTH).as_str());
    line
}

/// Returns the row of the one item that a page shows.
pub fn make_detail_row(id: u32, name: &str, description: &str, status: Status) -> (line: String)
    ensures
        line@ == detail_row(id, name@, description@, status),
{
    let mut line = align_left(decimal(id).as_str(), ID_WIDTH);
    append_bar(&mut line);
    line.append(get_column_string(name, NAME_WIDTH).as_str());
    append_bar(&mut line);
    line.append(get_column_string(description, DESCRIPTION_WIDTH).as_str());
    append_bar(&mut line);
    line.append(" ");
    line.append(get_column_string(status.to_string().as_str(), STATUS_WIDTH).as_str());
    line
}

} // verus!
