use vstd::prelude::*;
use vstd::string::StringExecFns;

use crate::text::{join, joined, push_repeated, repeated, Label};

verus! {

/// Whether the character has the Unicode property `Uppercase`, as
/// `char::is_uppercase` of the standard library decides it. Nothing is said
/// here of which characters have it.
pub uninterp spec fn is_uppercase(c: char) -> bool;

/// Taken on trust of `char::is_uppercase`: its answer depends on the
/// character alone, so that it can be given the name `is_uppercase`.
pub assume_specification[ char::is_uppercase ](c: char) -> (upper: bool)
    ensures
        upper == is_uppercase(c),
;

/// The text with a space before each marked character but the first
/// character: the character at position `i` is marked where `marked[i]` is
/// there and set.
pub open spec fn spaced(text: Seq<char>, marked: Seq<bool>) -> Seq<char>
    decreases text.len(),
{
    if text.len() == 0 {
        Seq::empty()
    } else if 0 < text.len() - 1 < marked.len() && marked[text.len() - 1] {
        spaced(text.drop_last(), marked) + seq![' ', text.last()]
    } else {
        spaced(text.drop_last(), marked).push(text.last())
    }
}

/// For each character of the text, whether it is uppercase.
pub open spec fn capitals(text: Seq<char>) -> Seq<bool> {
    Seq::new(text.len(), |i: int| is_uppercase(text[i]))
}

/// The text with a space before each uppercase character but the first
/// character.
pub open spec fn camel_case_separated(text: Seq<char>) -> Seq<char> {
    spaced(text, capitals(text))
}

/// Inserts a space before each marked character except the first.
pub fn insert_spaces(string: &str, marked: &Vec<bool>) -> (separated: String)
    ensures
        separated@ == spaced(string@, marked@),
{
    broadcast use vstd::string::group_string_axioms;

    let mut separated = String::new();
    let mut i: usize = 0;
    proof {
        assert(string@.take(0) =~= Seq::<char>::empty());
    }
    for c in iter: string.chars()
        invariant
            iter.seq() == string@,
            i <= marked.len(),
            i == iter.index() || (i == marked.len() && i < iter.index()),
            separated@ == spaced(string@.take(iter.index()), marked@),
    {
        proof {
            let seen = string@.take(iter.index() + 1);
            assert(seen.drop_last() =~= string@.take(iter.index()));
            assert(seen.last() == c);
        }
        if i > 0 && i < marked.len() && marked[i] {
            separated.push(' ');
            separated.push(c);
            proof {
                assert(separated@ =~= spaced(string@.take(iter.index()), marked@) + seq![' ', c]);
            }
        } else {
            separated.push(c);
        }
        if i < marked.len() {
            i += 1;
        }
    }
    proof {
        assert(string@.take(string@.len() as int) =~= string@);
    }
    separated
}

/// Marks the uppercase characters of the text.
pub fn capital_letters(string: &str) -> (marked: Vec<bool>)
    ensures
        marked@ == capitals(string@),
{
    broadcast use vstd::string::group_string_axioms;

    let mut marked: Vec<bool> = Vec::new();
    for c in iter: string.chars()
        invariant
            iter.seq() == string@,
            marked@ == capitals(string@.take(iter.index())),
    {
        marked.push(c.is_uppercase());
        proof {
            assert(marked@ =~= capitals(string@.take(iter.index() + 1)));
        }
    }
    proof {
        assert(string@.take(string@.len() as int) =~= string@);
    }
    marked
}

/// Inserts a space before each capital letter except the first
pub fn separate_camel_case(string: &str) -> (separated: String)
    ensures
        separated@ == camel_case_separated(string@),
{
    let marked = capital_letters(string);
    insert_spaces(string, &marked)
}

/// The length of the text in bytes, UTF-8 encoded.
pub open spec fn byte_len(cell: Seq<char>) -> usize {
    vstd::utf8::encode_utf8(cell).len() as usize
}

/// The texts of the cells of a table, row by row.
pub open spec fn grid(data: Seq<Vec<String>>) -> Seq<Seq<Seq<char>>> {
    data.map_values(|row: Vec<String>| row@.map_values(|cell: String| cell@))
}

/// The width of a column: the largest length in bytes among the cells that
/// the rows have in that column.
pub open spec fn column_width(rows: Seq<Seq<Seq<char>>>, column: int) -> usize
    decreases rows.len(),
{
    if rows.len() == 0 {
        0
    } else {
        let above = column_width(rows.drop_last(), column);
        let row = rows.last();
        if 0 <= column < row.len() && byte_len(row[column]) > above {
            byte_len(row[column])
        } else {
            above
        }
    }
}

/// A cell as the table shows it: filled up with spaces on the right to
/// `width` characters where it has fewer, and followed by the column
/// separator.
pub open spec fn padded(cell: Seq<char>, width: nat) -> Seq<char> {
    cell + repeated(
        ' ',
        if width > cell.len() {
            (width - cell.len()) as nat
        } else {
            0
        },
    ) + " | "@
}

/// The first `cells` cells of a row of the table `rows`, as shown.
pub open spec fn row_text(row: Seq<Seq<char>>, rows: Seq<Seq<Seq<char>>>, cells: nat) -> Seq<char>
    decreases cells,
{
    if cells == 0 {
        Seq::empty()
    } else {
        row_text(row, rows, (cells - 1) as nat) + padded(
            row[cells - 1],
            column_width(rows, cells - 1) as nat,
        )
    }
}

/// The first `count` rows of the table, as shown: each row ends its line.
pub open spec fn rows_text(rows: Seq<Seq<Seq<char>>>, count: nat) -> Seq<char>
    decreases count,
{
    if count == 0 {
        Seq::empty()
    } else {
        rows_text(rows, (count - 1) as nat) + row_text(
            rows[count - 1],
            rows,
            rows[count - 1].len(),
        ) + seq!['\n']
    }
}

/// The table as text.
pub open spec fn table_text(rows: Seq<Seq<Seq<char>>>) -> Seq<char> {
    rows_text(rows, rows.len())
}

/// The width of each column of the table, for as many columns as the first
/// row has.
pub fn column_widths(data: &Vec<Vec<String>>) -> (widths: Vec<usize>)
    requires
        data.len() > 0,
        forall|r: int| 0 <= r < data.len() ==> (#[trigger] data@[r]).len() <= data@[0].len(),
    ensures
        widths.len() == data@[0].len(),
        forall|c: int|
            0 <= c < widths.len() ==> widths@[c] == #[trigger] column_width(grid(data@), c),
{
    let ghost rows = grid(data@);
    let columns = data[0].len();
    let mut widths: Vec<usize> = Vec::new();
    while widths.len() < columns
        invariant
            widths.len() <= columns,
            forall|c: int| 0 <= c < widths.len() ==> widths@[c] == 0,
        decreases columns - widths.len(),
    {
        widths.push(0);
    }
    let mut r: usize = 0;
    proof {
        assert(rows.take(0) =~= Seq::<Seq<Seq<char>>>::empty());
    }
    while r < data.len()
        invariant
            r <= data.len(),
            rows == grid(data@),
            columns == data@[0].len(),
            widths.len() == columns,
            forall|k: int| 0 <= k < data.len() ==> (#[trigger] data@[k]).len() <= columns,
            forall|c: int|
                0 <= c < columns ==> widths@[c] == #[trigger] column_width(rows.take(r as int), c),
        decreases data.len() - r,
    {
        let row = &data[r];
        let mut i: usize = 0;
        proof {
            assert(rows.take(r + 1).drop_last() =~= rows.take(r as int));
            assert(rows.take(r + 1).last() == rows[r as int]);
            assert(rows[r as int].len() == row.len());
        }
        while i < row.len()
            invariant
                i <= row.len() <= columns,
                r < data.len(),
                rows == grid(data@),
                row == data@[r as int],
                widths.len() == columns,
                rows.take(r + 1).drop_last() == rows.take(r as int),
                rows.take(r + 1).last() == rows[r as int],
                forall|c: int|
                    0 <= c < i ==> widths@[c] == #[trigger] column_width(rows.take(r + 1), c),
                forall|c: int|
                    i <= c < columns ==> widths@[c] == #[trigger] column_width(
                        rows.take(r as int),
                        c,
                    ),
            decreases row.len() - i,
        {
            let len = row[i].as_str().len();
            proof {
                assert(rows[r as int][i as int] == row@[i as int]@);
                assert(len == byte_len(row@[i as int]@));
            }
            let ghost above = widths@[i as int];
            if len > widths[i] {
                widths.set(i, len);
            }
            proof {
                assert(above == column_width(rows.take(r as int), i as int));
                assert(rows[r as int].len() == row.len());
                assert(widths@[i as int] == column_width(rows.take(r + 1), i as int));
            }
            i += 1;
        }
        proof {
            assert forall|c: int| 0 <= c < columns implies widths@[c] == #[trigger] column_width(
                rows.take(r + 1),
                c,
            ) by {
                if c >= i {
                    assert(widths@[c] == column_width(rows.take(r as int), c));
                }
            }
        }
        r += 1;
    }
    proof {
        assert(rows.take(data.len() as int) =~= rows);
    }
    widths
}

/// Appends the cell as the table shows it in a column of the given width.
pub fn push_padded(text: &mut String, cell: &str, width: usize)
    ensures
        final(text)@ == old(text)@ + padded(cell@, width as nat),
{
    text.append(cell);
    let shown = cell.unicode_len();
    if width > shown {
        push_repeated(text, ' ', width - shown);
    } else {
        proof {
            assert(text@ =~= text@ + repeated(' ', 0));
        }
    }
    text.append(" | ");
    proof {
        assert(text@ =~= old(text)@ + padded(cell@, width as nat));
    }
}

/// Returns a pretty-printed horizontally aligned string table of the given data
pub fn table(data: Vec<Vec<String>>) -> (text: String)
    requires
        data.len() > 0,
        forall|r: int| 0 <= r < data.len() ==> (#[trigger] data@[r]).len() <= data@[0].len(),
    ensures
        text@ == table_text(grid(data@)),
{
    let ghost rows = grid(data@);
    let max_widths = column_widths(&data);
    let mut text = String::new();
    let mut r: usize = 0;
    while r < data.len()
        invariant
            r <= data.len(),
            rows == grid(data@),
            max_widths.len() == data@[0].len(),
            forall|k: int| 0 <= k < data.len() ==> (#[trigger] data@[k]).len() <= data@[0].len(),
            forall|c: int|
                0 <= c < max_widths.len() ==> max_widths@[c] == #[trigger] column_width(rows, c),
            text@ == rows_text(rows, r as nat),
        decreases data.len() - r,
    {
        let row = &data[r];
        let ghost line_start = text@;
        let mut i: usize = 0;
        proof {
            assert(rows[r as int].len() == row.len());
            assert(text@ =~= line_start + row_text(rows[r as int], rows, 0));
        }
        while i < row.len()
            invariant
                i <= row.len() <= max_widths.len(),
                r < data.len(),
                rows == grid(data@),
                row == data@[r as int],
                forall|c: int|
                    0 <= c < max_widths.len() ==> max_widths@[c] == #[trigger] column_width(rows, c),
                text@ == line_start + row_text(rows[r as int], rows, i as nat),
            decreases row.len() - i,
        {
            proof {
                assert(rows[r as int][i as int] == row@[i as int]@);
                assert(max_widths@[i as int] == column_width(rows, i as int));
            }
            push_padded(&mut text, row[i].as_str(), max_widths[i]);
            i += 1;
            proof {
                assert(text@ =~= line_start + row_text(rows[r as int], rows, i as nat));
            }
        }
        text.push('\n');
        r += 1;
        proof {
            assert(text@ =~= rows_text(rows, r as nat));
        }
    }
    text
}

/// The labels of the values, separated by a comma and a space.
pub fn comma_separated_string<T: Label>(input: &Vec<T>) -> (text: String)
    ensures
        text@ == joined(input@.map_values(|value: T| value.label()), ", "@),
{
    let mut labels: Vec<String> = Vec::new();
    let mut i: usize = 0;
    while i < input.len()
        invariant
            i <= input.len(),
            labels@.map_values(|label: String| label@) == input@.take(i as int).map_values(
                |value: T| value.label(),
            ),
        decreases input.len() - i,
    {
        let ghost before = labels@.map_values(|label: String| label@);
        labels.push(input[i].to_label());
        proof {
            assert(labels@.map_values(|label: String| label@) =~= before.push(
                input@[i as int].label(),
            ));
            assert(input@.take(i + 1).map_values(|value: T| value.label()) =~= before.push(
                input@[i as int].label(),
            ));
        }
        i += 1;
    }
    proof {
        assert(input@.take(input.len() as int) =~= input@);
    }
    join(&labels, ", ")
}

} // verus!
