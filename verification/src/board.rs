//! The board as seen on screen: ten ranks of nine files, one `char` per point,
//! `' '` where the point is empty.

use vstd::prelude::*;
use vstd::array::spec_array_fill_for_copy_type;

verus! {

broadcast use vstd::array::group_array_axioms;

/// Number of ranks on a xiangqi board.
pub const RANKS: usize = 10;

/// Number of files on a xiangqi board.
pub const FILES: usize = 9;

/// A recognised board: `board[rank][file]` is the piece letter, or `' '`.
pub type Board = [[char; 9]; 10];

/// The side a player plays.
#[derive(Clone, Copy, Debug, PartialEq, Eq, Structural)]
pub enum Camp {
    Red,
    Black,
}

impl Camp {
    /// Whether this is the black side.
    pub fn is_black(&self) -> (r: bool)
        ensures
            r == (*self == Camp::Black),
    {
        match self {
            Camp::Red => false,
            Camp::Black => true,
        }
    }
}

/// How two successive boards differ.
#[derive(Clone, Copy, Debug, PartialEq, Eq, Structural)]
pub enum BoardChangeState {
    /// Exactly one legal-looking move was played.
    Move,
    /// Only one point changed: a half-seen move or a recognition glitch.
    One,
    /// Anything else: the position cannot be explained by one move.
    Unknown,
}

/// The difference between the last board and the one now on screen, as worked out by
/// the chess rules: the move `mv` (if `state` is `Move`), the side that played it and
/// the kind of change.
pub struct BoardDiff<M> {
    pub mv: M,
    pub camp: Camp,
    pub state: BoardChangeState,
}

/// The point at `rank`, `file` of `b`.
pub open spec fn at(b: Board, rank: int, file: int) -> char {
    b[rank][file]
}

/// Every point of `b` is empty.
pub open spec fn is_blank(b: Board) -> bool {
    forall|r: int, f: int| 0 <= r < 10 && 0 <= f < 9 ==> #[trigger] at(b, r, f) == ' '
}

/// Two boards hold the same piece on every point.
pub open spec fn same_board(a: Board, b: Board) -> bool {
    forall|r: int, f: int| 0 <= r < 10 && 0 <= f < 9 ==> #[trigger] at(a, r, f) == at(b, r, f)
}

/// Boards that agree on every point are the same value.
pub proof fn lemma_same_board_eq(a: Board, b: Board)
    ensures
        same_board(a, b) <==> a == b,
{
    if same_board(a, b) {
        assert forall|r: int| 0 <= r < 10 implies a[r] == b[r] by {
            assert forall|f: int| 0 <= f < 9 implies a[r][f] == b[r][f] by {
                assert(at(a, r, f) == at(b, r, f));
            }
            assert(a[r] =~= b[r]);
        }
        assert(a =~= b);
    }
}

/// The blank board: no piece anywhere.
pub open spec fn blank_board() -> Board {
    spec_array_fill_for_copy_type::<[char; 9], 10>(spec_array_fill_for_copy_type::<char, 9>(' '))
}

/// The blank board is blank, and it is the only blank board.
pub proof fn lemma_blank_board()
    ensures
        is_blank(blank_board()),
        forall|b: Board| is_blank(b) ==> b == blank_board(),
{
    let z = blank_board();
    assert forall|r: int, f: int| 0 <= r < 10 && 0 <= f < 9 implies #[trigger] at(z, r, f)
        == ' ' by {
        assert(z[r] == spec_array_fill_for_copy_type::<char, 9>(' '));
    }
    assert forall|b: Board| is_blank(b) implies b == blank_board() by {
        assert forall|r: int, f: int| 0 <= r < 10 && 0 <= f < 9 implies #[trigger] at(b, r, f)
            == at(z, r, f) by {}
        lemma_same_board_eq(b, z);
    }
}

/// A blank board value.
pub fn empty_board() -> (b: Board)
    ensures
        b == blank_board(),
        is_blank(b),
{
    proof {
        lemma_blank_board();
    }
    let row: [char; 9] = [' '; 9];
    [row; 10]
}

/// Whether two boards are the same, point by point.
pub fn boards_equal(a: &Board, b: &Board) -> (eq: bool)
    ensures
        eq == (*a == *b),
{
    let mut r: usize = 0;
    while r < RANKS
        invariant
            0 <= r <= 10,
            forall|i: int, f: int| 0 <= i < r && 0 <= f < 9 ==> #[trigger] at(*a, i, f) == at(*b, i, f),
        decreases 10 - r,
    {
        let mut f: usize = 0;
        while f < FILES
            invariant
                0 <= r < 10,
                0 <= f <= 9,
                forall|i: int, j: int| 0 <= i < r && 0 <= j < 9 ==> #[trigger] at(*a, i, j) == at(*b, i, j),
                forall|j: int| 0 <= j < f ==> #[trigger] at(*a, r as int, j) == at(*b, r as int, j),
            decreases 9 - f,
        {
            if a[r][f] != b[r][f] {
                proof {
                    assert(at(*a, r as int, f as int) != at(*b, r as int, f as int));
                    lemma_same_board_eq(*a, *b);
                }
                return false;
            }
            f = f + 1;
        }
        r = r + 1;
    }
    proof {
        lemma_same_board_eq(*a, *b);
    }
    true
}

} // verus!
