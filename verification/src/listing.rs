//! Formatting of one directory listing: a header, a separator, and one
//! line per entry with the name, a size column (byte count for a file,
//! a `<DIR>` marker for a directory) and the entry's age in seconds.

use vstd::prelude::*;
use vstd::string::*;
use crate::text::{decimal_digits, pad_right, pad_to_width, u64_to_decimal};

verus! {

/// What a listing needs to know of one directory entry, as the shell
/// reads it from the filesystem: the name, whether it is a directory,
/// its byte length, and its modification time in whole seconds since
/// the epoch — `None` when that time cannot be read or lies before the
/// epoch.
pub struct EntryInfo {
    pub name: String,
    pub is_dir: bool,
    pub size: u64,
    pub modified: Option<u64>,
}

/// The mathematical image of an [`EntryInfo`].
pub struct EntryModel {
    pub name: Seq<char>,
    pub is_dir: bool,
    pub size: u64,
    pub modified: Option<u64>,
}

impl View for EntryInfo {
    type V = EntryModel;

    open spec fn view(&self) -> EntryModel {
        EntryModel { name: self.name@, is_dir: self.is_dir, size: self.size, modified: self.modified }
    }
}

/// The size column: the exact byte count of a file, the literal marker
/// for a directory.
pub open spec fn size_column_chars(e: EntryModel) -> Seq<char> {
    if e.is_dir {
        "<DIR>"@
    } else {
        decimal_digits(e.size as nat)
    }
}

/// The whole seconds between the entry's modification time and `now`,
/// floored at zero: a modification time in the future, or one that
/// could not be read, counts as zero seconds ago.
pub open spec fn elapsed_seconds(now: u64, e: EntryModel) -> nat {
    match e.modified {
        Option::Some(m) => if now >= m { (now - m) as nat } else { 0 },
        Option::None => 0,
    }
}

/// One listing line: the name left-justified to 25 columns, the size
/// column left-justified to 15, then the age in seconds.
pub open spec fn entry_line_chars(now: u64, e: EntryModel) -> Seq<char> {
    pad_right(e.name, 25) + seq![' '] + pad_right(size_column_chars(e), 15) + seq![' ']
        + decimal_digits(elapsed_seconds(now, e)) + " seconds ago"@
}

/// The listing's column headings, in the same three columns.
pub open spec fn header_line_chars() -> Seq<char> {
    pad_right("File/Directory"@, 25) + seq![' '] + pad_right("Size (bytes)"@, 15) + seq![' ']
        + "Last Modified"@
}

/// The ruled line under the headings.
pub open spec fn separator_chars() -> Seq<char> {
    "------------------------------------------------------------"@
}

pub fn format_size_column(e: &EntryInfo) -> (r: String)
    ensures
        r@ == size_column_chars(e@),
{
    if e.is_dir {
        String::from_str("<DIR>")
    } else {
        u64_to_decimal(e.size)
    }
}

pub fn elapsed_seconds_since(now: u64, e: &EntryInfo) -> (r: u64)
    ensures
        r as nat == elapsed_seconds(now, e@),
{
    match e.modified {
        Option::Some(m) => if now >= m { now - m } else { 0 },
        Option::None => 0,
    }
}

pub fn format_entry_line(now: u64, e: &EntryInfo) -> (r: String)
    ensures
        r@ == entry_line_chars(now, e@),
{
    proof {
        reveal_strlit(" ");
        assert(" "@ =~= seq![' ']);
    }
    let mut line = pad_to_width(e.name.clone(), 25);
    line.append(" ");
    line.append(pad_to_width(format_size_column(e), 15).as_str());
    line.append(" ");
    line.append(u64_to_decimal(elapsed_seconds_since(now, e)).as_str());
    line.append(" seconds ago");
    line
}

pub fn format_header_line() -> (r: String)
    ensures
        r@ == header_line_chars(),
{
    proof {
        reveal_strlit(" ");
        assert(" "@ =~= seq![' ']);
    }
    let mut line = pad_to_width(String::from_str("File/Directory"), 25);
    line.append(" ");
    line.append(pad_to_width(String::from_str("Size (bytes)"), 15).as_str());
    line.append(" ");
    line.append("Last Modified");
    line
}

/// The full text of one listing of `entries`, taken at wall-clock time
/// `now` (whole seconds since the epoch): the headings, the ruled line,
/// then one line per entry, in the very order the entries were handed
/// in — no more, no fewer, and no reordering.
#[verifier::loop_isolation(false)]
pub fn listing_lines(now: u64, entries: &Vec<EntryInfo>) -> (r: Vec<String>)
    ensures
        r@.len() == entries@.len() + 2,
        r@[0]@ == header_line_chars(),
        r@[1]@ == separator_chars(),
        forall|i: int| 0 <= i < entries@.len() ==> r@[i + 2]@ == entry_line_chars(
            now,
            entries@[i]@,
        ),
{
    let mut lines: Vec<String> = Vec::new();
    lines.push(format_header_line());
    lines.push(String::from_str("------------------------------------------------------------"));
    let mut i: usize = 0;
    while i < entries.len()
        invariant
            i <= entries@.len(),
            lines@.len() == i + 2,
            lines@[0]@ == header_line_chars(),
            lines@[1]@ == separator_chars(),
            forall|j: int| 0 <= j < i ==> lines@[j + 2]@ == entry_line_chars(now, entries@[j]@),
        decreases entries@.len() - i,
    {
        lines.push(format_entry_line(now, &entries[i]));
        i = i + 1;
    }
    lines
}

impl crate::explorer::FileExplorer {
    /// The listing the browser prints for its current directory, given
    /// the entries the shell read there and the wall-clock time of the
    /// reading.
    pub fn list_directory_with_properties(&self, now: u64, entries: &Vec<EntryInfo>) -> (r: Vec<
        String,
    >)
        ensures
            r@.len() == entries@.len() + 2,
            r@[0]@ == header_line_chars(),
            r@[1]@ == separator_chars(),
            forall|i: int| 0 <= i < entries@.len() ==> r@[i + 2]@ == entry_line_chars(
                now,
                entries@[i]@,
            ),
    {
        listing_lines(now, entries)
    }
}

} // verus!
