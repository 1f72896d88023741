use vstd::prelude::*;

use crate::text::{align_right, decimal, decimal_text, right_aligned};

verus! {

/// A grid of cell codes, row by row.
pub type Board = Vec<Vec<String>>;

/// Width of a field in a rendered board.
pub const CELL_WIDTH: usize = 3;

/// All rows have the length of the first.
pub open spec fn rectangular(b: Seq<Seq<Seq<char>>>) -> bool {
    forall|i: int| 0 <= i < b.len() ==> (#[trigger] b[i]).len() == b[0].len()
}

/// Width of a board: the length of its first row, or 0 without rows.
pub open spec fn board_width(b: Seq<Seq<Seq<char>>>) -> nat {
    if b.len() == 0 {
        0
    } else {
        b[0].len()
    }
}

/// Height of a board: its number of rows.
pub open spec fn board_height(b: Seq<Seq<Seq<char>>>) -> nat {
    b.len()
}

/// `(x, y)` names a cell of the board.
pub open spec fn in_bounds(b: Seq<Seq<Seq<char>>>, x: int, y: int) -> bool {
    b.len() > 0 && 0 <= x < board_width(b) && 0 <= y < board_height(b)
}

/// Glyph of a cell code: the blank marker shows as `#`, `0` as a blank, others as themselves.
pub open spec fn decode(cell: Seq<char>) -> Seq<char> {
    if cell == seq![' '] {
        seq!['#']
    } else if cell == seq!['0'] {
        seq![' ']
    } else {
        cell
    }
}

/// Glyph shown for a cell code.
pub fn display_cell(cell: &str) -> (r: &str)
    ensures
        r@ == decode(cell@),
{
    proof {
        reveal_strlit("#");
        reveal_strlit(" ");
    }
    if cell.unicode_len() == 1 {
        let c = cell.get_char(0);
        if c == ' ' {
            assert(cell@ =~= seq![' ']);
            assert("#"@ =~= seq!['#']);
            return "#";
        } else if c == '0' {
            assert(cell@ =~= seq!['0']);
            assert(" "@ =~= seq![' ']);
            return " ";
        }
    }
    cell
}

/// `(width, height)` of a board.
pub fn dimensions(board: &Board) -> (r: (usize, usize))
    ensures
        r.0 == board_width(board.deep_view()),
        r.1 == board_height(board.deep_view()),
{
    let height = board.len();
    if height == 0 {
        (0, 0)
    } else {
        (board[0].len(), height)
    }
}

/// For a rectangular board every row is as long as the width, and a board without
/// rows measures zero by zero.
pub proof fn dimensions_of_rectangular(b: Seq<Seq<Seq<char>>>)
    requires
        rectangular(b),
    ensures
        forall|i: int| 0 <= i < b.len() ==> (#[trigger] b[i]).len() == board_width(b),
        board_height(b) == b.len(),
        b.len() == 0 ==> board_width(b) == 0 && board_height(b) == 0,
{
}

/// The column indices, each right-aligned in its field.
pub open spec fn header_cells(n: nat) -> Seq<char>
    decreases n,
{
    if n == 0 {
        seq![]
    } else {
        header_cells((n - 1) as nat) + right_aligned(decimal((n - 1) as nat), 3)
    }
}

/// The glyphs of a row, each right-aligned in its field.
pub open spec fn row_cells(row: Seq<Seq<char>>) -> Seq<char>
    decreases row.len(),
{
    if row.len() == 0 {
        seq![]
    } else {
        row_cells(row.drop_last()) + right_aligned(decode(row.last()), 3)
    }
}

/// Line of row `y`: its index, a space, then its glyphs.
pub open spec fn row_line(y: nat, row: Seq<Seq<char>>) -> Seq<char> {
    right_aligned(decimal(y), 3) + seq![' '] + row_cells(row)
}

/// The line shown for a board without rows.
pub open spec fn empty_board_line() -> Seq<char> {
    seq!['(', 'e', 'm', 'p', 't', 'y', ' ', 'b', 'o', 'a', 'r', 'd', ')']
}

/// The lines that show a board: a header of column indices, then one line per row.
pub open spec fn rendered(b: Seq<Seq<Seq<char>>>) -> Seq<Seq<char>> {
    if b.len() == 0 {
        seq![empty_board_line()]
    } else {
        seq![seq![' ', ' ', ' ', ' '] + header_cells(b[0].len())] + Seq::new(
            b.len(),
            |y: int| row_line(y as nat, b[y]),
        )
    }
}

fn header_line(width: usize) -> (r: String)
    ensures
        r@ == seq![' ', ' ', ' ', ' '] + header_cells(width as nat),
{
    let mut r = String::from_str("    ");
    proof {
        reveal_strlit("    ");
        assert(r@ =~= seq![' ', ' ', ' ', ' '] + header_cells(0));
    }
    let mut x: usize = 0;
    while x < width
        invariant
            x <= width,
            r@ == seq![' ', ' ', ' ', ' '] + header_cells(x as nat),
        decreases width - x,
    {
        let index = decimal_text(x as u64);
        let field = align_right(index.as_str(), CELL_WIDTH);
        r.append(field.as_str());
        proof {
            assert(r@ =~= seq![' ', ' ', ' ', ' '] + header_cells(x as nat + 1));
        }
        x = x + 1;
    }
    r
}

fn row_text(y: usize, row: &Vec<String>) -> (r: String)
    ensures
        r@ == row_line(y as nat, row.deep_view()),
{
    let index = decimal_text(y as u64);
    let mut r = align_right(index.as_str(), CELL_WIDTH);
    r.append(" ");
    proof {
        reveal_strlit(" ");
    }
    let ghost prefix = r@;
    let mut k: usize = 0;
    while k < row.len()
        invariant
            k <= row.len(),
            prefix == right_aligned(decimal(y as nat), 3) + seq![' '],
            r@ == prefix + row_cells(row.deep_view().subrange(0, k as int)),
        decreases row.len() - k,
    {
        let glyph = display_cell(row[k].as_str());
        let field = align_right(glyph, CELL_WIDTH);
        r.append(field.as_str());
        proof {
            let s = row.deep_view().subrange(0, k as int + 1);
            assert(s.drop_last() =~= row.deep_view().subrange(0, k as int));
            assert(s.last() == row[k as int]@);
            assert(r@ =~= prefix + row_cells(s));
        }
        k = k + 1;
    }
    proof {
        assert(row.deep_view().subrange(0, row.len() as int) =~= row.deep_view());
    }
    r
}

/// Renders a board as lines of text.
pub fn render_board(board: &Board) -> (r: Vec<String>)
    ensures
        r.deep_view() == rendered(board.deep_view()),
{
    let mut lines: Vec<String> = Vec::new();
    if board.len() == 0 {
        proof {
            reveal_strlit("(empty board)");
        }
        let line = String::from_str("(empty board)");
        assert(line@ =~= empty_board_line());
        lines.push(line);
        assert(lines.deep_view() =~= rendered(board.deep_view()));
        return lines;
    }
    lines.push(header_line(board[0].len()));
    let mut y: usize = 0;
    while y < board.len()
        invariant
            y <= board.len(),
            board.len() > 0,
            lines.deep_view().len() == y + 1,
            lines.deep_view() =~= rendered(board.deep_view()).subrange(0, y as int + 1),
        decreases board.len() - y,
    {
        let line = row_text(y, &board[y]);
        lines.push(line);
        proof {
            assert(lines.deep_view() =~= rendered(board.deep_view()).subrange(0, y as int + 2));
        }
        y = y + 1;
    }
    proof {
        assert(rendered(board.deep_view()).len() == board.len() + 1);
    }
    lines
}

} // verus!
