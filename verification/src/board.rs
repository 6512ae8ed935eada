//! The 3-by-3 board, the marks it holds, and the two pure rules of the game:
//! the win evaluator and the fullness check.

use vstd::prelude::*;

verus! {

/// What one cell of the board holds: nothing yet, or one player's mark.
#[derive(Copy, Clone, PartialEq, Eq, Structural, Debug)]
pub enum Mark {
    Empty,
    PlayerA,
    PlayerB,
}

/// The mark of the opposing player; `Empty` has no opponent and is returned
/// unchanged.
pub open spec fn other_player(m: Mark) -> Mark {
    match m {
        Mark::PlayerA => Mark::PlayerB,
        Mark::PlayerB => Mark::PlayerA,
        Mark::Empty => Mark::Empty,
    }
}

impl Mark {
    /// A mark that stands for a player rather than an empty cell.
    pub open spec fn is_player(self) -> bool {
        self != Mark::Empty
    }

    /// The opposing player's mark.
    pub fn other(self) -> (m: Mark)
        ensures
            m == other_player(self),
    {
        match self {
            Mark::PlayerA => Mark::PlayerB,
            Mark::PlayerB => Mark::PlayerA,
            Mark::Empty => Mark::Empty,
        }
    }
}

/// Index of cell (row, col) in the row-major cell sequence.
pub open spec fn idx(row: int, col: int) -> int {
    3 * row + col
}

/// The cell sequence of a board with all nine cells empty.
pub open spec fn empty_board() -> Seq<Mark> {
    Seq::new(9, |i: int| Mark::Empty)
}

/// The 3-by-3 grid of marks, stored row-major: cell (row, col) is entry
/// `3 * row + col` of the view.
pub struct Board {
    cells: Vec<Mark>,
}

impl View for Board {
    type V = Seq<Mark>;

    closed spec fn view(&self) -> Seq<Mark> {
        self.cells@
    }
}

impl Board {
    /// A board is well formed when it has exactly nine cells.
    pub open spec fn wf(&self) -> bool {
        self@.len() == 9
    }

    /// A fresh board with every cell empty.
    pub fn new() -> (b: Board)
        ensures
            b.wf(),
            b@ == empty_board(),
    {
        let mut cells: Vec<Mark> = Vec::new();
        let mut i: usize = 0;
        while i < 9
            invariant
                i <= 9,
                cells@.len() == i,
                forall|j: int| 0 <= j < i ==> cells@[j] == Mark::Empty,
            decreases 9 - i,
        {
            cells.push(Mark::Empty);
            i = i + 1;
        }
        proof {
            assert(cells@ =~= empty_board());
        }
        Board { cells }
    }

    /// The mark held by cell (row, col).
    pub fn get(&self, row: usize, col: usize) -> (m: Mark)
        requires
            self.wf(),
            row < 3,
            col < 3,
        ensures
            m == self@[idx(row as int, col as int)],
    {
        self.cells[3 * row + col]
    }

    /// Overwrites cell (row, col) with the given mark.
    pub fn set_cell(&mut self, row: usize, col: usize, m: Mark)
        requires
            old(self).wf(),
            row < 3,
            col < 3,
        ensures
            final(self).wf(),
            final(self)@ == old(self)@.update(idx(row as int, col as int), m),
    {
        self.cells[3 * row + col] = m;
    }
}

/// The three cells a, b, c of s hold the same player mark.
pub open spec fn line_won(s: Seq<Mark>, a: int, b: int, c: int) -> bool {
    s[a].is_player() && s[a] == s[b] && s[b] == s[c]
}

/// The three cells a, b, c of s are all held by player m.
pub open spec fn line_is(s: Seq<Mark>, m: Mark, a: int, b: int, c: int) -> bool {
    s[a] == m && s[b] == m && s[c] == m
}

/// Player m holds some complete line of s: a row, a column or a diagonal.
pub open spec fn has_win(s: Seq<Mark>, m: Mark) -> bool {
    m.is_player() && (line_is(s, m, 0, 1, 2) || line_is(s, m, 3, 4, 5) || line_is(s, m, 6, 7, 8)
        || line_is(s, m, 0, 3, 6) || line_is(s, m, 1, 4, 7) || line_is(s, m, 2, 5, 8)
        || line_is(s, m, 0, 4, 8) || line_is(s, m, 2, 4, 6))
}

/// What the win evaluator returns: the eight lines are examined in a fixed
/// order (rows top to bottom, then columns left to right, then the falling
/// and the rising diagonal) and the first line wholly held by one player
/// names the winner; with no such line there is no winner.
pub open spec fn win_eval(s: Seq<Mark>) -> Option<Mark> {
    if line_won(s, 0, 1, 2) {
        Some(s[0])
    } else if line_won(s, 3, 4, 5) {
        Some(s[3])
    } else if line_won(s, 6, 7, 8) {
        Some(s[6])
    } else if line_won(s, 0, 3, 6) {
        Some(s[0])
    } else if line_won(s, 1, 4, 7) {
        Some(s[1])
    } else if line_won(s, 2, 5, 8) {
        Some(s[2])
    } else if line_won(s, 0, 4, 8) {
        Some(s[0])
    } else if line_won(s, 2, 4, 6) {
        Some(s[2])
    } else {
        None
    }
}

/// Every one of the nine cells of s is occupied by a player.
pub open spec fn full(s: Seq<Mark>) -> bool {
    forall|i: int| 0 <= i < 9 ==> s[i] != Mark::Empty
}

/// The win evaluator: returns the mark of the first line (rows, then
/// columns, then diagonals) wholly held by one player, or nothing when no
/// line is.
pub fn check_winner(board: &Board) -> (winner: Option<Mark>)
    requires
        board.wf(),
    ensures
        winner == win_eval(board@),
{
    let mut r: usize = 0;
    while r < 3
        invariant
            board.wf(),
            r <= 3,
            r >= 1 ==> !line_won(board@, 0, 1, 2),
            r >= 2 ==> !line_won(board@, 3, 4, 5),
            r >= 3 ==> !line_won(board@, 6, 7, 8),
        decreases 3 - r,
    {
        let m = board.get(r, 0);
        if m != Mark::Empty && m == board.get(r, 1) && m == board.get(r, 2) {
            return Some(m);
        }
        r = r + 1;
    }
    let mut c: usize = 0;
    while c < 3
        invariant
            board.wf(),
            c <= 3,
            !line_won(board@, 0, 1, 2),
            !line_won(board@, 3, 4, 5),
            !line_won(board@, 6, 7, 8),
            c >= 1 ==> !line_won(board@, 0, 3, 6),
            c >= 2 ==> !line_won(board@, 1, 4, 7),
            c >= 3 ==> !line_won(board@, 2, 5, 8),
        decreases 3 - c,
    {
        let m = board.get(0, c);
        if m != Mark::Empty && m == board.get(1, c) && m == board.get(2, c) {
            return Some(m);
        }
        c = c + 1;
    }
    let m = board.get(0, 0);
    if m != Mark::Empty && m == board.get(1, 1) && m == board.get(2, 2) {
        return Some(m);
    }
    let m = board.get(0, 2);
    if m != Mark::Empty && m == board.get(1, 1) && m == board.get(2, 0) {
        return Some(m);
    }
    None
}

/// The fullness check: true exactly when all nine cells are occupied.
pub fn is_board_full(board: &Board) -> (r: bool)
    requires
        board.wf(),
    ensures
        r == full(board@),
{
    let mut i: usize = 0;
    while i < 9
        invariant
            board.wf(),
            i <= 9,
            forall|j: int| 0 <= j < i ==> board@[j] != Mark::Empty,
        decreases 9 - i,
    {
        if board.cells[i] == Mark::Empty {
            return false;
        }
        i = i + 1;
    }
    true
}

/// Whatever mark the win evaluator returns holds a complete line, and the
/// evaluator returns nothing exactly when no player holds one.
pub proof fn lemma_win_eval_characterises(s: Seq<Mark>)
    requires
        s.len() == 9,
    ensures
        match win_eval(s) {
            Some(m) => has_win(s, m),
            None => forall|m: Mark| !has_win(s, m),
        },
{
}

/// A player who holds a complete line while the opponent holds none is the
/// mark the win evaluator returns.
pub proof fn lemma_win_eval_finds_winner(s: Seq<Mark>, m: Mark)
    requires
        s.len() == 9,
        has_win(s, m),
        !has_win(s, other_player(m)),
    ensures
        win_eval(s) == Some(m),
{
    lemma_win_eval_characterises(s);
}

/// The all-empty board has no winner.
pub proof fn lemma_empty_board_no_winner()
    ensures
        win_eval(empty_board()) == None::<Mark>,
{
    assert(empty_board()[0] == Mark::Empty);
    assert(empty_board()[3] == Mark::Empty);
    assert(empty_board()[6] == Mark::Empty);
    assert(empty_board()[1] == Mark::Empty);
    assert(empty_board()[2] == Mark::Empty);
}

/// The all-empty board is not full.
pub proof fn lemma_empty_board_not_full()
    ensures
        !full(empty_board()),
{
    assert(empty_board()[0] == Mark::Empty);
}

} // verus!
