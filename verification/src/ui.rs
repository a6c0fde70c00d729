use vstd::prelude::*;
use vstd::string::StrSliceExecFns;

use crate::util::grid;

verus! {

/// The largest number of characters among a header cell and the cells that
/// the rows hold in the given column.
pub open spec fn column_chars(header: Seq<char>, rows: Seq<Seq<Seq<char>>>, column: int) -> nat
    decreases rows.len(),
{
    if rows.len() == 0 {
        header.len()
    } else {
        let above = column_chars(header, rows.drop_last(), column);
        let cell = rows.last()[column];
        if cell.len() > above {
            cell.len()
        } else {
            above
        }
    }
}

/// Calculate the widths of the table columns based on the longest string in each column.
///
/// Each width is the largest number of characters in that column, header
/// included, cut down to sixteen bits.
pub fn calculate_table_widths(header: &Vec<String>, rows: &Vec<Vec<String>>) -> (widths: Vec<u16>)
    requires
        forall|r: int| 0 <= r < rows.len() ==> (#[trigger] rows@[r]).len() >= header.len(),
    ensures
        widths.len() == header.len(),
        forall|c: int|
            0 <= c < header.len() ==> widths@[c] == (#[trigger] column_chars(
                header@[c]@,
                grid(rows@),
                c,
            )) as usize as u16,
{
    let ghost cells = grid(rows@);
    let mut widths: Vec<u16> = Vec::new();
    let mut i: usize = 0;
    while i < header.len()
        invariant
            i <= header.len(),
            cells == grid(rows@),
            widths.len() == i,
            forall|r: int| 0 <= r < rows.len() ==> (#[trigger] rows@[r]).len() >= header.len(),
            forall|c: int|
                0 <= c < i ==> widths@[c] == (#[trigger] column_chars(header@[c]@, cells, c)) as usize as u16,
        decreases header.len() - i,
    {
        let mut max = header[i].as_str().unicode_len();
        let mut r: usize = 0;
        proof {
            assert(cells.take(0) =~= Seq::<Seq<Seq<char>>>::empty());
        }
        while r < rows.len()
            invariant
                r <= rows.len(),
                i < header.len(),
                cells == grid(rows@),
                forall|k: int| 0 <= k < rows.len() ==> (#[trigger] rows@[k]).len() >= header.len(),
                max == column_chars(header@[i as int]@, cells.take(r as int), i as int),
            decreases rows.len() - r,
        {
            proof {
                assert(rows@[r as int].len() >= header.len());
                assert(cells.take(r + 1).drop_last() =~= cells.take(r as int));
                assert(cells.take(r + 1).last()[i as int] == rows@[r as int]@[i as int]@);
            }
            let len = rows[r][i].as_str().unicode_len();
            if len > max {
                max = len;
            }
            r += 1;
        }
        proof {
            assert(cells.take(rows.len() as int) =~= cells);
        }
        widths.push(max as u16);
        i += 1;
    }
    widths
}

} // verus!
