//! The extent of the table that a spreadsheet export lays out.

use vstd::prelude::*;

verus! {

/// The last row and the last column of a table of `rows` rows and `columns`
/// columns whose first cell is the first cell of the sheet.
///
/// `None` for a table without rows or without columns, and for one that has
/// more rows than 32 bits or more columns than 16 bits count.
pub open spec fn extent_of(rows: usize, columns: usize) -> Option<(u32, u16)> {
    if 1 <= rows <= u32::MAX && 1 <= columns <= u16::MAX {
        Some(((rows - 1) as u32, (columns - 1) as u16))
    } else {
        None
    }
}

/// The last row and the last column of a table of `rows` rows and `columns`
/// columns, where the table has a cell and the sheet can address it.
pub fn table_extent(rows: usize, columns: usize) -> (extent: Option<(u32, u16)>)
    ensures
        extent == extent_of(rows, columns),
{
    if rows == 0 || columns == 0 || rows > 4294967295 || columns > 65535 {
        None
    } else {
        Some(((rows - 1) as u32, (columns - 1) as u16))
    }
}

} // verus!
