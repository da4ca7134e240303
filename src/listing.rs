//! The table model of a directory listing: the cells of each row and the headers.
use vstd::prelude::*;
use crate::text::decimal_text;

verus! {

/// What `humansize::format_size` gives for a byte count with the binary options.
pub uninterp spec fn binary_size_text(n: u64) -> Seq<char>;

/// Relies on `humansize::format_size` with `BINARY`: the size in IEC units; a count
/// under 1024 is shown as the count followed by " B".
#[verifier::external_body]
fn format_binary_size(n: u64) -> (r: String)
    ensures
        r@ == binary_size_text(n),
        n < 1024 ==> r@ == decimal_text(n as nat) + " B"@,
{
    humansize::format_size(n, humansize::BINARY)
}

/// One entry of a directory listing.
#[derive(Clone, Debug, PartialEq, Eq)]
pub struct FileRow {
    pub name: String,
    pub is_dir: bool,
    pub size: u64,
    /// The entry's type, as text.
    pub file_type: String,
}

/// What a cell is asked for.
#[derive(Clone, Debug, PartialEq, Eq)]
pub enum ItemRole {
    Display,
    Icon,
    Sort,
    Other,
}

#[derive(Clone, Debug, PartialEq, Eq)]
pub enum Orientation {
    Horizontal,
    Vertical,
}

/// The content of a cell.
#[derive(Clone, Debug, PartialEq, Eq)]
pub enum CellData {
    Empty,
    Text(String),
    Int(i64),
}

/// The number of columns: name, size, type and date.
pub const COLUMN_COUNT: usize = 4;

/// The content of a cell, by row, column and role. Out of range, or for a role or
/// column without content, the cell is empty.
pub fn cell_data(rows: &Vec<FileRow>, row: usize, col: usize, role: ItemRole) -> (r: CellData)
    ensures
        row >= rows@.len() ==> r is Empty,
        row < rows@.len() ==> {
            let e = rows@[row as int];
            match role {
                ItemRole::Display => match r {
                    CellData::Text(t) => (col == 0 && t@ == e.name@) || (col == 1 && e.is_dir && t@
                        == "Directory"@) || (col == 1 && !e.is_dir && t@ == binary_size_text(e.size)) || (
                    col == 2 && t@ == e.file_type@) || (col == 3 && t@ == "Unknown"@),
                    CellData::Empty => col > 3,
                    CellData::Int(_) => false,
                },
                ItemRole::Sort => match r {
                    CellData::Text(t) => col == 0 && t@ == e.name@,
                    CellData::Int(v) => col == 1 && v == e.size as i64,
                    CellData::Empty => col > 1,
                },
                _ => r is Empty,
            }
        },
{
    if row >= rows.len() {
        return CellData::Empty;
    }
    let e = &rows[row];
    match role {
        ItemRole::Display => {
            if col == 0 {
                CellData::Text(e.name.clone())
            } else if col == 1 {
                if e.is_dir {
                    CellData::Text(String::from_str("Directory"))
                } else {
                    CellData::Text(format_binary_size(e.size))
                }
            } else if col == 2 {
                CellData::Text(e.file_type.clone())
            } else if col == 3 {
                CellData::Text(String::from_str("Unknown"))
            } else {
                CellData::Empty
            }
        },
        ItemRole::Sort => {
            if col == 0 {
                CellData::Text(e.name.clone())
            } else if col == 1 {
                CellData::Int(#[verifier::truncate] (e.size as i64))
            } else {
                CellData::Empty
            }
        },
        _ => CellData::Empty,
    }
}

/// The header of a column: titles for the horizontal display role, else empty.
pub fn header_data(section: usize, orientation: Orientation, role: ItemRole) -> (r: CellData)
    ensures
        match (orientation, role) {
            (Orientation::Horizontal, ItemRole::Display) => match r {
                CellData::Text(t) => (section == 0 && t@ == "Name"@) || (section == 1 && t@ == "Size"@) || (
                section == 2 && t@ == "Type"@) || (section == 3 && t@ == "Date Modified"@),
                CellData::Empty => section > 3,
                CellData::Int(_) => false,
            },
            _ => r is Empty,
        },
{
    match (orientation, role) {
        (Orientation::Horizontal, ItemRole::Display) => {
            if section == 0 {
                CellData::Text(String::from_str("Name"))
            } else if section == 1 {
                CellData::Text(String::from_str("Size"))
            } else if section == 2 {
                CellData::Text(String::from_str("Type"))
            } else if section == 3 {
                CellData::Text(String::from_str("Date Modified"))
            } else {
                CellData::Empty
            }
        },
        _ => CellData::Empty,
    }
}

} // verus!
