//! The game state and its transitions: placing a mark on a click, detecting
//! the end of the game, resetting, and the status line.

use vstd::prelude::*;
use crate::board::{Board, Mark, empty_board, full, has_win, idx, other_player, win_eval};
use crate::board::{check_winner, is_board_full};
use crate::board::{lemma_empty_board_not_full, lemma_win_eval_characterises};

verus! {

/// Mathematical model of one game state.
pub ghost struct GameView {
    pub board: Seq<Mark>,
    pub turn: Mark,
    pub game_over: bool,
    pub winner: Option<Mark>,
}

impl GameView {
    /// A well-formed state has nine cells, a real player to move, outcome
    /// flags consistent with the board (the game is over exactly when a
    /// winner is recorded or the board is full), and any recorded winner
    /// does hold a complete line.
    pub open spec fn wf(self) -> bool {
        &&& self.board.len() == 9
        &&& self.turn.is_player()
        &&& (self.game_over <==> (self.winner is Some || full(self.board)))
        &&& match self.winner {
            Some(m) => has_win(self.board, m),
            None => true,
        }
    }
}

/// The state every game starts in and that a reset restores: an empty
/// board, player A to move, game not over, no winner.
pub open spec fn init_view() -> GameView {
    GameView { board: empty_board(), turn: Mark::PlayerA, game_over: false, winner: None }
}

/// A click on cell (row, col) is accepted exactly when the game is still
/// running and the targeted cell is empty.
pub open spec fn move_accepted(v: GameView, row: int, col: int) -> bool {
    !v.game_over && v.board[idx(row, col)] == Mark::Empty
}

/// The state after a click on cell (row, col): a rejected click changes
/// nothing; an accepted click places the current player's mark, then records
/// the winner and ends the game if a line is complete, ends the game with no
/// winner if the board is full, and otherwise passes the turn to the other
/// player.
pub open spec fn step(v: GameView, row: int, col: int) -> GameView {
    if !move_accepted(v, row, col) {
        v
    } else {
        let b = v.board.update(idx(row, col), v.turn);
        let w = win_eval(b);
        let over = w is Some || full(b);
        GameView {
            board: b,
            turn: if over {
                v.turn
            } else {
                other_player(v.turn)
            },
            game_over: over,
            winner: w,
        }
    }
}

/// Width and height of the board in screen units.
pub const BOARD_SPAN: u32 = 300;

/// Width and height of one cell in screen units.
pub const CELL_SPAN: u32 = 100;

/// Where the board's low edge lies on a screen axis of the given length:
/// the board is centred, so half the slack sits before it (floor division,
/// so the edge can be negative on a window narrower than the board).
pub open spec fn board_origin(screen: int) -> int {
    (screen - BOARD_SPAN as int) / 2
}

/// Coordinate p lies over the board along an axis whose low edge is at o.
pub open spec fn within_board(p: int, o: int) -> bool {
    o <= p < o + BOARD_SPAN as int
}

/// The cell row or column hit by coordinate p along an axis whose low edge
/// is at o.
pub open spec fn cell_coord(p: int, o: int) -> int {
    (p - o) / CELL_SPAN as int
}

/// Low edge of the centred board on a screen axis of the given length.
fn board_origin_exec(screen: u32) -> (o: i64)
    ensures
        o == board_origin(screen as int),
{
    if screen >= BOARD_SPAN {
        ((screen - BOARD_SPAN) / 2) as i64
    } else {
        let d: u32 = BOARD_SPAN - screen;
        -(((d + 1) / 2) as i64)
    }
}

/// The complete state of one game instance.
pub struct GameState {
    board: Board,
    current_turn: Mark,
    game_over: bool,
    winner: Option<Mark>,
}

impl View for GameState {
    type V = GameView;

    closed spec fn view(&self) -> GameView {
        GameView {
            board: self.board@,
            turn: self.current_turn,
            game_over: self.game_over,
            winner: self.winner,
        }
    }
}

impl GameState {
    /// Shorthand for well-formedness of the state's model.
    pub open spec fn wf(&self) -> bool {
        self@.wf()
    }

    /// A fresh game in the initial state.
    pub fn new() -> (g: GameState)
        ensures
            g.wf(),
            g@ == init_view(),
    {
        proof {
            lemma_empty_board_not_full();
        }
        GameState {
            board: Board::new(),
            current_turn: Mark::PlayerA,
            game_over: false,
            winner: None,
        }
    }

    /// Applies a click that already hit cell (row, col) of the board: the
    /// move is carried out exactly when the cell is empty and the game is
    /// not over, and a rejected click leaves the state unchanged.
    pub fn apply_move(&mut self, row: usize, col: usize)
        requires
            old(self).wf(),
            row < 3,
            col < 3,
        ensures
            final(self).wf(),
            final(self)@ == step(old(self)@, row as int, col as int),
    {
        if self.game_over {
            return;
        }
        if self.board.get(row, col) != Mark::Empty {
            return;
        }
        let mover = self.current_turn;
        self.board.set_cell(row, col, mover);
        let w = check_winner(&self.board);
        let over = w.is_some() || is_board_full(&self.board);
        self.winner = w;
        self.game_over = over;
        if !over {
            self.current_turn = mover.other();
        }
        proof {
            lemma_win_eval_characterises(self.board@);
        }
    }

    /// Handles a primary-button press at pointer position (x, y) on a window
    /// of the given dimensions: the pointer is mapped onto the centred
    /// board's cell grid, a press outside the board leaves the state
    /// unchanged, and one inside is applied as a move on the cell it hit.
    pub fn handle_click(&mut self, x: i32, y: i32, screen_w: u32, screen_h: u32)
        requires
            old(self).wf(),
        ensures
            final(self).wf(),
            ({
                let ox = board_origin(screen_w as int);
                let oy = board_origin(screen_h as int);
                if within_board(x as int, ox) && within_board(y as int, oy) {
                    final(self)@ == step(
                        old(self)@,
                        cell_coord(y as int, oy),
                        cell_coord(x as int, ox),
                    )
                } else {
                    final(self)@ == old(self)@
                }
            }),
    {
        let ox: i64 = board_origin_exec(screen_w);
        let oy: i64 = board_origin_exec(screen_h);
        let xi: i64 = x as i64;
        let yi: i64 = y as i64;
        if xi >= ox && xi < ox + BOARD_SPAN as i64 && yi >= oy && yi < oy + BOARD_SPAN as i64 {
            let col: usize = (((xi - ox) as u64) / CELL_SPAN as u64) as usize;
            let row: usize = (((yi - oy) as u64) / CELL_SPAN as u64) as usize;
            self.apply_move(row, col);
        }
    }

    /// Restores the exact initial state, whatever came before.
    pub fn reset(&mut self)
        ensures
            final(self).wf(),
            final(self)@ == init_view(),
    {
        proof {
            lemma_empty_board_not_full();
        }
        self.board = Board::new();
        self.current_turn = Mark::PlayerA;
        self.game_over = false;
        self.winner = None;
    }

    /// The status line shown above the board.
    pub fn status_line(&self) -> (s: &'static str)
        ensures
            s@ == status_of(self@),
    {
        if self.game_over {
            match self.winner {
                Some(m) => {
                    if m == Mark::PlayerA {
                        "Player A Wins! Press R to restart"
                    } else {
                        "Player B Wins! Press R to restart"
                    }
                },
                None => "Draw! Press R to restart",
            }
        } else {
            if self.current_turn == Mark::PlayerA {
                "Player A's turn"
            } else {
                "Player B's turn"
            }
        }
    }

    /// The mark held by cell (row, col).
    pub fn cell(&self, row: usize, col: usize) -> (m: Mark)
        requires
            self.wf(),
            row < 3,
            col < 3,
        ensures
            m == self@.board[idx(row as int, col as int)],
    {
        self.board.get(row, col)
    }

    /// The player whose turn it is (meaningless once the game is over).
    pub fn current_turn(&self) -> (m: Mark)
        ensures
            m == self@.turn,
    {
        self.current_turn
    }

    /// Whether the game has ended, by a win or by a full board.
    pub fn is_game_over(&self) -> (over: bool)
        ensures
            over == self@.game_over,
    {
        self.game_over
    }

    /// The winner, if the game ended with one.
    pub fn winner(&self) -> (w: Option<Mark>)
        ensures
            w == self@.winner,
    {
        self.winner
    }
}

/// The status line that belongs to a game state: whose turn it is while the
/// game runs, and who won, or that it was a draw, once it is over.
pub open spec fn status_of(v: GameView) -> Seq<char> {
    if v.game_over {
        match v.winner {
            Some(m) => if m == Mark::PlayerA {
                "Player A Wins! Press R to restart"@
            } else {
                "Player B Wins! Press R to restart"@
            },
            None => "Draw! Press R to restart"@,
        }
    } else {
        if v.turn == Mark::PlayerA {
            "Player A's turn"@
        } else {
            "Player B's turn"@
        }
    }
}

/// A click mutates the state exactly when it is accepted, that is when the
/// game still runs and the targeted cell is empty; an accepted move writes
/// the mover's mark into that cell and passes the turn, unless the move ends
/// the game, in which case the turn stays put.
pub proof fn lemma_move_acceptance(v: GameView, row: int, col: int)
    requires
        v.wf(),
        0 <= row < 3,
        0 <= col < 3,
    ensures
        !move_accepted(v, row, col) ==> step(v, row, col) == v,
        move_accepted(v, row, col) ==> step(v, row, col).board == v.board.update(
            idx(row, col),
            v.turn,
        ),
        move_accepted(v, row, col) ==> step(v, row, col) != v,
        move_accepted(v, row, col) && !step(v, row, col).game_over ==> step(v, row, col).turn
            == other_player(v.turn),
        move_accepted(v, row, col) && step(v, row, col).game_over ==> step(v, row, col).turn
            == v.turn,
{
    if move_accepted(v, row, col) {
        assert(step(v, row, col).board[idx(row, col)] == v.turn);
        assert(v.board[idx(row, col)] == Mark::Empty);
    }
}

/// Once the game is over, a click changes nothing, whatever cell it aims
/// at; only a reset leaves this state.
pub proof fn lemma_no_click_after_game_over(v: GameView, row: int, col: int)
    requires
        v.game_over,
    ensures
        step(v, row, col) == v,
{
}

} // verus!
