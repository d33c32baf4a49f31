//! Plain-text tables: columns padded to the widest cell.
use vstd::prelude::*;

use crate::builder::texts_of;

verus! {

/// The narrowest a column may be.
pub const MIN_WIDTH: usize = 2;

/// The line shown in place of data rows when there are none.
pub const NO_ROWS: &'static str = "无供应商信息。";

/// The cells of each row, as character sequences.
pub open spec fn cells_of(rows: Seq<Vec<String>>) -> Seq<Seq<Seq<char>>> {
    rows.map_values(|r: Vec<String>| texts_of(r@))
}

/// The width of column `i` over the first `n` rows: the most characters in
/// one of its cells, and at least `MIN_WIDTH`.
pub open spec fn column_width(rows: Seq<Seq<Seq<char>>>, i: int, n: int) -> nat
    decreases n,
{
    if n <= 0 {
        MIN_WIDTH as nat
    } else {
        let w = column_width(rows, i, n - 1);
        let l = rows[n - 1][i].len();
        if l > w {
            l
        } else {
            w
        }
    }
}

/// The widths of the first `ncols` columns over all rows.
pub open spec fn table_widths(rows: Seq<Seq<Seq<char>>>, ncols: nat) -> Seq<nat> {
    Seq::new(ncols, |i: int| column_width(rows, i, rows.len() as int))
}

/// `k` copies of `c`.
pub open spec fn repeated(c: char, k: nat) -> Seq<char> {
    Seq::new(k, |j: int| c)
}

/// `s` followed by spaces up to `w` characters; `s` alone if it is as wide.
pub open spec fn padded(s: Seq<char>, w: nat) -> Seq<char> {
    if s.len() < w {
        s + repeated(' ', (w - s.len()) as nat)
    } else {
        s
    }
}

/// The first `n` cells, each padded to its column's width and followed by a
/// space.
pub open spec fn row_text(cells: Seq<Seq<char>>, widths: Seq<nat>, n: int) -> Seq<char>
    decreases n,
{
    if n <= 0 {
        Seq::empty()
    } else {
        row_text(cells, widths, n - 1) + padded(cells[n - 1], widths[n - 1]) + " "@
    }
}

/// For each of the first `n` columns, as many dashes as it is wide, and one
/// more.
pub open spec fn rule_text(widths: Seq<nat>, n: int) -> Seq<char>
    decreases n,
{
    if n <= 0 {
        Seq::empty()
    } else {
        rule_text(widths, n - 1) + repeated('-', widths[n - 1]) + "-"@
    }
}

/// The lines of a table: the header, a rule, one line per row, and
/// `NO_ROWS` when there are no rows.
pub open spec fn table_text(headers: Seq<Seq<char>>, rows: Seq<Seq<Seq<char>>>) -> Seq<Seq<char>> {
    let widths = table_widths(rows, headers.len());
    let n = headers.len() as int;
    seq![row_text(headers, widths, n), rule_text(widths, n)] + Seq::new(
        rows.len(),
        |r: int| row_text(rows[r], widths, n),
    ) + if rows.len() == 0 {
        seq![NO_ROWS@]
    } else {
        Seq::empty()
    }
}

/// Appends `k` copies of the one-character string `unit`.
fn append_repeated(s: &mut String, unit: &str, k: usize)
    requires
        unit@.len() == 1,
    ensures
        final(s)@ == old(s)@ + repeated(unit@[0], k as nat),
{
    let ghost start = s@;
    let mut j: usize = 0;
    while j < k
        invariant
            unit@.len() == 1,
            j <= k,
            s@ == start + repeated(unit@[0], j as nat),
        decreases k - j,
    {
        s.append(unit);
        j = j + 1;
        assert(s@ =~= start + repeated(unit@[0], j as nat));
    }
}

/// The width of each of the first `ncols` columns.
pub fn column_widths(ncols: usize, rows: &Vec<Vec<String>>) -> (r: Vec<usize>)
    requires
        forall|k: int| 0 <= k < rows@.len() ==> (#[trigger] rows@[k])@.len() == ncols,
    ensures
        r@.len() == ncols,
        forall|i: int| 0 <= i < ncols ==> r@[i] == column_width(cells_of(rows@), i, rows@.len() as int),
{
    let ghost cells = cells_of(rows@);
    let mut widths: Vec<usize> = Vec::new();
    let mut i: usize = 0;
    while i < ncols
        invariant
            i <= ncols,
            widths@.len() == i,
            forall|c: int| 0 <= c < i ==> widths@[c] == MIN_WIDTH,
        decreases ncols - i,
    {
        widths.push(MIN_WIDTH);
        i = i + 1;
    }
    let mut r: usize = 0;
    while r < rows.len()
        invariant
            cells == cells_of(rows@),
            forall|k: int| 0 <= k < rows@.len() ==> (#[trigger] rows@[k])@.len() == ncols,
            r <= rows@.len(),
            widths@.len() == ncols,
            forall|c: int| 0 <= c < ncols ==> widths@[c] == column_width(cells, c, r as int),
        decreases rows@.len() - r,
    {
        let row = &rows[r];
        let mut c: usize = 0;
        while c < ncols
            invariant
                cells == cells_of(rows@),
                r < rows@.len(),
                *row == rows@[r as int],
                row@.len() == ncols,
                c <= ncols,
                widths@.len() == ncols,
                forall|d: int| 0 <= d < c ==> widths@[d] == column_width(cells, d, r + 1),
                forall|d: int| c <= d < ncols ==> widths@[d] == column_width(cells, d, r as int),
            decreases ncols - c,
        {
            let l = row[c].as_str().unicode_len();
            assert(cells[r as int][c as int] == row@[c as int]@);
            if l > widths[c] {
                widths.set(c, l);
            }
            c = c + 1;
        }
        r = r + 1;
    }
    widths
}

/// Appends `cell` padded to `width` characters.
fn append_padded(s: &mut String, cell: &str, width: usize)
    ensures
        final(s)@ == old(s)@ + padded(cell@, width as nat),
{
    let l = cell.unicode_len();
    s.append(cell);
    if l < width {
        proof {
            reveal_strlit(" ");
        }
        append_repeated(s, " ", width - l);
    }
}

/// One line of the table: each cell padded to its column's width and
/// followed by a space.
pub fn format_row(cells: &Vec<String>, widths: &Vec<usize>) -> (r: String)
    requires
        cells@.len() == widths@.len(),
    ensures
        r@ == row_text(
            texts_of(cells@),
            widths@.map_values(|w: usize| w as nat),
            cells@.len() as int,
        ),
{
    let ghost ws = widths@.map_values(|w: usize| w as nat);
    let mut s = String::new();
    let mut i: usize = 0;
    while i < cells.len()
        invariant
            cells@.len() == widths@.len(),
            ws == widths@.map_values(|w: usize| w as nat),
            i <= cells@.len(),
            s@ == row_text(texts_of(cells@), ws, i as int),
        decreases cells@.len() - i,
    {
        append_padded(&mut s, cells[i].as_str(), widths[i]);
        s.append(" ");
        i = i + 1;
    }
    s
}

/// The rule under the header: for each column as many dashes as it is wide,
/// and one more.
pub fn format_rule(widths: &Vec<usize>) -> (r: String)
    ensures
        r@ == rule_text(widths@.map_values(|w: usize| w as nat), widths@.len() as int),
{
    let ghost ws = widths@.map_values(|w: usize| w as nat);
    let mut s = String::new();
    let mut i: usize = 0;
    while i < widths.len()
        invariant
            ws == widths@.map_values(|w: usize| w as nat),
            i <= widths@.len(),
            s@ == rule_text(ws, i as int),
        decreases widths@.len() - i,
    {
        proof {
            reveal_strlit("-");
        }
        append_repeated(&mut s, "-", widths[i]);
        s.append("-");
        i = i + 1;
    }
    s
}

/// The lines of a table of `rows` under `headers`, each row holding one cell
/// per header.
pub fn render_table(headers: &Vec<String>, rows: &Vec<Vec<String>>) -> (r: Vec<String>)
    requires
        forall|k: int| 0 <= k < rows@.len() ==> (#[trigger] rows@[k])@.len() == headers@.len(),
    ensures
        texts_of(r@) == table_text(texts_of(headers@), cells_of(rows@)),
{
    let ghost cells = cells_of(rows@);
    let ghost spec_widths = table_widths(cells, headers@.len());
    let n = headers.len();
    let widths = column_widths(n, rows);
    assert(widths@.map_values(|w: usize| w as nat) =~= spec_widths);
    let mut lines: Vec<String> = Vec::new();
    lines.push(format_row(headers, &widths));
    lines.push(format_rule(&widths));
    let mut r: usize = 0;
    while r < rows.len()
        invariant
            cells == cells_of(rows@),
            spec_widths == table_widths(cells, headers@.len()),
            widths@.map_values(|w: usize| w as nat) == spec_widths,
            widths@.len() == n,
            n == headers@.len(),
            forall|k: int| 0 <= k < rows@.len() ==> (#[trigger] rows@[k])@.len() == headers@.len(),
            r <= rows@.len(),
            texts_of(lines@) == seq![
                row_text(texts_of(headers@), spec_widths, n as int),
                rule_text(spec_widths, n as int),
            ] + Seq::new(r as nat, |k: int| row_text(cells[k], spec_widths, n as int)),
        decreases rows@.len() - r,
    {
        let line = format_row(&rows[r], &widths);
        assert(cells[r as int] == texts_of(rows@[r as int]@));
        assert(line@ == row_text(cells[r as int], spec_widths, n as int));
        let ghost before = texts_of(lines@);
        lines.push(line);
        assert(texts_of(lines@) =~= before.push(line@));
        r = r + 1;
        assert(texts_of(lines@) =~= seq![
            row_text(texts_of(headers@), spec_widths, n as int),
            rule_text(spec_widths, n as int),
        ] + Seq::new(r as nat, |k: int| row_text(cells[k], spec_widths, n as int)));
    }
    if rows.len() == 0 {
        lines.push(String::from_str(NO_ROWS));
    }
    assert(texts_of(lines@) =~= table_text(texts_of(headers@), cells));
    lines
}

} // verus!
