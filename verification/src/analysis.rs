//! Reading the engine's answer: the best line and the few lines after it.
//!
//! The chess rules come in as functions: `move_name` names a move played on a board,
//! `board_move` plays it, and `from_pv` turns it into the move to expect.

use vstd::prelude::*;
use crate::board::Board;

verus! {

/// Most lines read from an answer: the best one and up to three after it.
pub const SHOWN_LINES: usize = 4;

/// What an engine answer tells the watcher: the move to expect and the board it leads
/// to, and the names of the moves of the lines shown to the user.
pub struct AnalysisOutcome<M, N> {
    pub expect_move: M,
    pub expect_board: Board,
    pub moves: Vec<N>,
}

/// The lines after the best one, read on boards that follow one another: `boards[0]`
/// is `start`, and for each later `k`, `names[k]` names `pvs[k]` on `boards[k - 1]`
/// and `boards[k]` is the board once it is played.
pub open spec fn follows_on<P, N, FN, FB>(
    pvs: Seq<P>,
    start: Board,
    names: Seq<N>,
    boards: Seq<Board>,
    move_name: FN,
    board_move: FB,
) -> bool where FN: Fn(Board, &P) -> N, FB: Fn(Board, &P) -> Board {
    &&& boards.len() == names.len()
    &&& boards.len() > 0
    &&& boards[0] == start
    &&& forall|k: int|
        #![trigger names[k]]
        1 <= k < names.len() ==> move_name.ensures((boards[k - 1], &pvs[k]), names[k])
            && board_move.ensures((boards[k - 1], &pvs[k]), boards[k])
}

/// What reading the lines `pvs` on `board` gives, as `o`. With no line: `no_move` is
/// expected, on `board` itself, and no move is named. Otherwise the best line's move,
/// played on `board`, gives the expected move and board; the names are those of the
/// best move on `board`, then of up to three more lines, each on the board the
/// previous one leads to.
pub open spec fn reads_lines<P, M, N, FN, FB, FM>(
    pvs: Seq<P>,
    board: Board,
    no_move: M,
    o: AnalysisOutcome<M, N>,
    move_name: FN,
    board_move: FB,
    from_pv: FM,
) -> bool where FN: Fn(Board, &P) -> N, FB: Fn(Board, &P) -> Board, FM: Fn(&P, Board) -> M {
    if pvs.len() == 0 {
        &&& o.expect_move == no_move
        &&& o.expect_board == board
        &&& o.moves@.len() == 0
    } else {
        &&& from_pv.ensures((&pvs[0], board), o.expect_move)
        &&& board_move.ensures((board, &pvs[0]), o.expect_board)
        &&& o.moves@.len() == if pvs.len() < 4 { pvs.len() } else { 4 }
        &&& move_name.ensures((board, &pvs[0]), o.moves@[0])
        &&& exists|boards: Seq<Board>|
            follows_on(pvs, o.expect_board, o.moves@, boards, move_name, board_move)
    }
}

/// `board_move` gives one board for each board and move.
pub open spec fn plays_one_way<P, FB>(board_move: FB) -> bool where FB: Fn(Board, &P) -> Board {
    forall|b: Board, p: &P, r1: Board, r2: Board|
        board_move.ensures((b, p), r1) && board_move.ensures((b, p), r2) ==> r1 == r2
}

/// `from_pv` gives one move for each line and board.
pub open spec fn reads_one_way<P, M, FM>(from_pv: FM) -> bool where FM: Fn(&P, Board) -> M {
    forall|p: &P, b: Board, r1: M, r2: M|
        from_pv.ensures((p, b), r1) && from_pv.ensures((p, b), r2) ==> r1 == r2
}

/// Reading lines expects `no_move` on the board itself exactly when there is no line;
/// otherwise it names one move per line read, the best line and at most three more.
pub proof fn lemma_lines_read<P, M, N, FN, FB, FM>(
    pvs: Seq<P>,
    board: Board,
    no_move: M,
    o: AnalysisOutcome<M, N>,
    move_name: FN,
    board_move: FB,
    from_pv: FM,
) where FN: Fn(Board, &P) -> N, FB: Fn(Board, &P) -> Board, FM: Fn(&P, Board) -> M
    requires
        reads_lines(pvs, board, no_move, o, move_name, board_move, from_pv),
    ensures
        pvs.len() == 0 ==> o.expect_move == no_move && o.expect_board == board && o.moves@.len()
            == 0,
        o.moves@.len() <= 4,
        o.moves@.len() <= pvs.len(),
        pvs.len() > 0 ==> o.moves@.len() >= 1,
        o.moves@.len() < 4 ==> o.moves@.len() == pvs.len(),
        pvs.len() > 0 ==> board_move.ensures((board, &pvs[0]), o.expect_board)
            && from_pv.ensures((&pvs[0], board), o.expect_move),
{
}

/// The best move is named on the board itself; the next line is named on the
/// expected board, the one the best move leads to; and each later line is named on the
/// board that playing the line before it leads to.
pub proof fn lemma_later_lines_follow<P, M, N, FN, FB, FM>(
    pvs: Seq<P>,
    board: Board,
    no_move: M,
    o: AnalysisOutcome<M, N>,
    move_name: FN,
    board_move: FB,
    from_pv: FM,
) where FN: Fn(Board, &P) -> N, FB: Fn(Board, &P) -> Board, FM: Fn(&P, Board) -> M
    requires
        reads_lines(pvs, board, no_move, o, move_name, board_move, from_pv),
        pvs.len() > 0,
    ensures
        move_name.ensures((board, &pvs[0]), o.moves@[0]),
        exists|boards: Seq<Board>|
            {
                &&& boards.len() == o.moves@.len()
                &&& boards[0] == o.expect_board
                &&& forall|k: int|
                    1 <= k < o.moves@.len() ==> move_name.ensures(
                        (#[trigger] boards[k - 1], &pvs[k]),
                        o.moves@[k],
                    ) && board_move.ensures((boards[k - 1], &pvs[k]), boards[k])
            },
{
    let boards = choose|boards: Seq<Board>|
        follows_on(pvs, o.expect_board, o.moves@, boards, move_name, board_move);
}

/// Only the best line decides what is expected: when the rules give one result for
/// each input, two readings on the same board whose best lines agree (or that both
/// have no line) expect the same move and the same board, whatever the other lines.
pub proof fn lemma_best_line_decides<P, M, N, FN, FB, FM>(
    pvs1: Seq<P>,
    pvs2: Seq<P>,
    board: Board,
    no_move: M,
    o1: AnalysisOutcome<M, N>,
    o2: AnalysisOutcome<M, N>,
    move_name: FN,
    board_move: FB,
    from_pv: FM,
) where FN: Fn(Board, &P) -> N, FB: Fn(Board, &P) -> Board, FM: Fn(&P, Board) -> M
    requires
        plays_one_way::<P, FB>(board_move),
        reads_one_way::<P, M, FM>(from_pv),
        pvs1.len() == 0 <==> pvs2.len() == 0,
        pvs1.len() > 0 ==> pvs1[0] == pvs2[0],
        reads_lines(pvs1, board, no_move, o1, move_name, board_move, from_pv),
        reads_lines(pvs2, board, no_move, o2, move_name, board_move, from_pv),
    ensures
        o1.expect_move == o2.expect_move,
        o1.expect_board == o2.expect_board,
{
    if pvs1.len() > 0 {
        assert(from_pv.ensures((&pvs1[0], board), o2.expect_move));
        assert(board_move.ensures((board, &pvs1[0]), o2.expect_board));
    }
}

/// Reads the engine's lines `pvs` for `board`, as [`reads_lines`] says; with no line,
/// `no_move` is expected on `board` itself.
pub fn analyse<P, M, N, FN, FB, FM>(
    pvs: &Vec<P>,
    board: Board,
    no_move: M,
    move_name: FN,
    board_move: FB,
    from_pv: FM,
) -> (o: AnalysisOutcome<M, N>) where
    FN: Fn(Board, &P) -> N,
    FB: Fn(Board, &P) -> Board,
    FM: Fn(&P, Board) -> M,

    requires
        forall|b: Board, p: &P| #[trigger] move_name.requires((b, p)),
        forall|b: Board, p: &P| #[trigger] board_move.requires((b, p)),
        forall|p: &P, b: Board| #[trigger] from_pv.requires((p, b)),
    ensures
        reads_lines(pvs@, board, no_move, o, move_name, board_move, from_pv),
{
    let n: usize = pvs.len();
    if n == 0 {
        return AnalysisOutcome { expect_move: no_move, expect_board: board, moves: Vec::new() };
    }
    let best = &pvs[0];
    let best_name = move_name(board, best);
    let expect_board = board_move(board, best);
    let expect_move = from_pv(best, board);
    let mut moves: Vec<N> = Vec::new();
    moves.push(best_name);
    let end: usize = if n < SHOWN_LINES { n } else { SHOWN_LINES };
    let mut tmp_board = expect_board;
    let ghost mut boards: Seq<Board> = seq![expect_board];
    let mut i: usize = 1;
    while i < end
        invariant
            1 <= i <= end,
            end == if n < 4 { n } else { 4 },
            n == pvs@.len(),
            moves@.len() == i,
            boards.len() == i,
            boards[0] == expect_board,
            tmp_board == boards.last(),
            move_name.ensures((board, &pvs@[0]), moves@[0]),
            forall|k: int|
                #![trigger moves@[k]]
                1 <= k < i ==> move_name.ensures((boards[k - 1], &pvs@[k]), moves@[k])
                    && board_move.ensures((boards[k - 1], &pvs@[k]), boards[k]),
            forall|b: Board, p: &P| #[trigger] move_name.requires((b, p)),
            forall|b: Board, p: &P| #[trigger] board_move.requires((b, p)),
        decreases end - i,
    {
        let pv = &pvs[i];
        let mv = move_name(tmp_board, pv);
        moves.push(mv);
        let next_board = board_move(tmp_board, pv);
        proof {
            boards = boards.push(next_board);
        }
        tmp_board = next_board;
        i = i + 1;
    }
    assert(follows_on(pvs@, expect_board, moves@, boards, move_name, board_move));
    AnalysisOutcome { expect_move, expect_board, moves }
}

} // verus!
