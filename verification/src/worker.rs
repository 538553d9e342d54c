//! The decisions of the board watcher: what to do with each recognised board.
//!
//! The watcher runs a loop outside this module: it waits, captures the window,
//! recognises the board, asks the chess rules about it, and hands the result to
//! [`AnalysisContext::step`] as an [`Observation`]. The step updates the context and
//! answers with the [`Action`]s to perform, in order. When an action is
//! [`Action::Analyze`], the engine's answer comes back through
//! [`AnalysisContext::record_analysis`].

use vstd::prelude::*;
use crate::board::{blank_board, boards_equal, empty_board, Board, BoardChangeState, BoardDiff, Camp};

verus! {

broadcast use vstd::array::group_array_axioms;

/// Where the watcher believes the game stands.
#[derive(Clone, Copy, Debug, PartialEq, Eq, Structural)]
pub enum ChessboardState {
    /// Nothing analysed yet: the next board seen is taken as the position.
    Initial,
    /// The opening position is on screen.
    StartPos,
    /// It is our move.
    OurTurn,
    /// It is the opponent's move.
    OpponentTurn,
    /// The last change could not be explained; start over on the next board.
    Invalid,
}

/// What the loop must do after a step, in the order given.
pub enum Action<M> {
    /// Show the observed board (and which side we play) to the user.
    UpdateUi,
    /// Ask the engine for our best move on the observed board, then hand its answer
    /// to `record_analysis`.
    Analyze,
    /// Announce this move, just seen on the board.
    EmitMove(M),
    /// Announce the move that was expected (`expect_move`): it has been played.
    EmitExpectedMove,
    /// The new board was not stable: wait for the confirmation interval.
    WaitConfirmInterval,
}

/// One recognised board, with what the chess rules say about it.
pub struct Observation<M> {
    /// The side we play, as recognised on screen.
    pub camp: Camp,
    /// The board on screen.
    pub board: Board,
    /// Whether `board` is the opening position.
    pub startpos: bool,
    /// Whether `board` is a legal-looking position.
    pub valid: bool,
    /// Whether a second capture showed the same board. Only read when
    /// [`AnalysisContext::needs_confirmation`] says so.
    pub confirmed: bool,
    /// How `board` differs from the context's `last_board`.
    pub diff: BoardDiff<M>,
}

/// The watcher's memory between two boards.
pub struct AnalysisContext<M> {
    /// Where the game stands.
    pub state: ChessboardState,
    /// The last board accepted as the position.
    pub last_board: Board,
    /// The move the engine advised us to play.
    pub expect_move: M,
    /// The board once `expect_move` is played; `None` when nothing is expected: before
    /// the first analysis, and once the expectation was met or another move was played.
    pub expect_board: Option<Board>,
    /// How many unexplained one-point changes were seen since the last reset.
    pub invalid_change_count: usize,
}

/// The context after one more unexplained one-point change: up to three are
/// tolerated (the state becomes `Invalid`); the fourth resets the count and the state
/// to `Initial`.
pub open spec fn after_invalid_change<M>(c: AnalysisContext<M>) -> AnalysisContext<M> {
    if c.invalid_change_count < 3 {
        AnalysisContext {
            state: ChessboardState::Invalid,
            invalid_change_count: (c.invalid_change_count + 1) as usize,
            ..c
        }
    } else {
        AnalysisContext { state: ChessboardState::Initial, invalid_change_count: 0, ..c }
    }
}

/// The outcome of a change that the chess rules classified in `obs.diff`.
/// `clear_expect` says whether a played move also drops the expected board.
pub open spec fn after_diff<M>(c: AnalysisContext<M>, obs: Observation<M>, clear_expect: bool) -> (
    AnalysisContext<M>,
    Seq<Action<M>>,
) {
    match obs.diff.state {
        BoardChangeState::Move => {
            let c1 = AnalysisContext {
                last_board: obs.board,
                expect_board: if clear_expect { None } else { c.expect_board },
                ..c
            };
            if obs.camp == obs.diff.camp {
                (
                    AnalysisContext { state: ChessboardState::OpponentTurn, ..c1 },
                    seq![Action::EmitMove(obs.diff.mv)],
                )
            } else {
                (
                    AnalysisContext { state: ChessboardState::OurTurn, ..c1 },
                    seq![Action::EmitMove(obs.diff.mv), Action::Analyze],
                )
            }
        },
        BoardChangeState::One => (after_invalid_change(c), seq![]),
        BoardChangeState::Unknown => (
            AnalysisContext { state: ChessboardState::Initial, last_board: obs.board, ..c },
            seq![Action::UpdateUi],
        ),
    }
}

/// Whether a turn state must see the board twice before accepting it: the board is
/// neither the last one nor the expected one.
pub open spec fn awaits_confirmation<M>(c: AnalysisContext<M>, board: Board) -> bool {
    &&& (c.state == ChessboardState::OurTurn || c.state == ChessboardState::OpponentTurn)
    &&& board != c.last_board
    &&& c.expect_board != Some(board)
}

/// The watcher's transition: the next context and the actions, for a context and a
/// recognised board.
pub open spec fn next<M>(c: AnalysisContext<M>, obs: Observation<M>) -> (
    AnalysisContext<M>,
    Seq<Action<M>>,
) {
    match c.state {
        ChessboardState::Initial => {
            let c1 = AnalysisContext { last_board: obs.board, ..c };
            if obs.startpos && obs.camp != Camp::Red {
                (
                    AnalysisContext { state: ChessboardState::OpponentTurn, ..c1 },
                    seq![Action::UpdateUi],
                )
            } else {
                (
                    AnalysisContext { state: ChessboardState::OurTurn, ..c1 },
                    seq![Action::UpdateUi, Action::Analyze],
                )
            }
        },
        ChessboardState::StartPos => {
            if !obs.startpos {
                if obs.board == c.last_board {
                    (c, seq![])
                } else {
                    after_diff(c, obs, false)
                }
            } else if obs.camp == Camp::Red {
                if obs.board == c.last_board {
                    (c, seq![])
                } else {
                    (
                        AnalysisContext {
                            state: ChessboardState::OurTurn,
                            last_board: obs.board,
                            ..c
                        },
                        seq![Action::UpdateUi, Action::Analyze],
                    )
                }
            } else {
                (
                    AnalysisContext {
                        state: ChessboardState::OpponentTurn,
                        last_board: obs.board,
                        ..c
                    },
                    seq![Action::UpdateUi],
                )
            }
        },
        ChessboardState::OurTurn | ChessboardState::OpponentTurn => {
            if obs.board == c.last_board {
                (c, seq![])
            } else if c.expect_board == Some(obs.board) {
                (
                    AnalysisContext {
                        state: ChessboardState::OpponentTurn,
                        last_board: obs.board,
                        expect_board: None,
                        ..c
                    },
                    seq![Action::EmitExpectedMove],
                )
            } else if !obs.confirmed {
                (c, seq![Action::WaitConfirmInterval])
            } else if !obs.valid {
                (c, seq![])
            } else {
                after_diff(c, obs, true)
            }
        },
        ChessboardState::Invalid => (AnalysisContext { state: ChessboardState::Initial, ..c }, seq![]),
    }
}

/// What holds of every context the watcher reaches from [`AnalysisContext::new`]:
/// the opening-position state is never entered, and at most three unexplained
/// changes are ever counted.
pub open spec fn reachable<M>(c: AnalysisContext<M>) -> bool {
    &&& c.state != ChessboardState::StartPos
    &&& c.invalid_change_count <= 3
}

/// A step keeps the reachable-context invariant: the watcher never moves into the
/// opening-position state, and the count of unexplained changes stays at most three.
pub proof fn lemma_step_keeps_reachable<M>(c: AnalysisContext<M>, obs: Observation<M>)
    requires
        reachable(c),
    ensures
        reachable(next(c, obs).0),
{
}

/// An engine answer changes only what is expected, never the state, the last board
/// or the count.
pub proof fn lemma_analysis_keeps_reachable<M>(c: AnalysisContext<M>, m: M, b: Board)
    requires
        reachable(c),
    ensures
        reachable(AnalysisContext { expect_move: m, expect_board: Some(b), ..c }),
{
}

/// The engine is consulted only when the next move is ours.
pub proof fn lemma_analyze_only_on_our_turn<M>(c: AnalysisContext<M>, obs: Observation<M>, i: int)
    requires
        0 <= i < next(c, obs).1.len(),
        next(c, obs).1[i] is Analyze,
    ensures
        next(c, obs).0.state == ChessboardState::OurTurn,
{
}

/// The accepted position only ever becomes the board just observed.
pub proof fn lemma_last_board_is_observed<M>(c: AnalysisContext<M>, obs: Observation<M>)
    ensures
        next(c, obs).0.last_board == c.last_board || next(c, obs).0.last_board == obs.board,
{
}

/// Only the engine's answer sets the expected move; a step never changes it.
pub proof fn lemma_step_keeps_expected_move<M>(c: AnalysisContext<M>, obs: Observation<M>)
    ensures
        next(c, obs).0.expect_move == c.expect_move,
{
}

/// The user learns of every new position: whenever a step changes the accepted
/// board, its first action shows the board or announces the move that led to it.
pub proof fn lemma_new_position_is_shown<M>(c: AnalysisContext<M>, obs: Observation<M>)
    requires
        next(c, obs).0.last_board != c.last_board,
    ensures
        next(c, obs).1.len() > 0,
        next(c, obs).1[0] is UpdateUi || next(c, obs).1[0] is EmitMove
            || next(c, obs).1[0] is EmitExpectedMove,
{
}

/// While waiting for a move, seeing the accepted position again changes nothing and
/// asks for nothing.
pub proof fn lemma_same_board_is_ignored<M>(c: AnalysisContext<M>, obs: Observation<M>)
    requires
        c.state == ChessboardState::OurTurn || c.state == ChessboardState::OpponentTurn,
        obs.board == c.last_board,
    ensures
        next(c, obs).0 == c,
        next(c, obs).1.len() == 0,
{
}

/// A new board that a second capture did not confirm is not taken: the context is
/// unchanged and the only action is to wait.
pub proof fn lemma_unconfirmed_board_is_rejected<M>(c: AnalysisContext<M>, obs: Observation<M>)
    requires
        awaits_confirmation(c, obs.board),
        !obs.confirmed,
    ensures
        next(c, obs).0 == c,
        next(c, obs).1.len() == 1,
        next(c, obs).1[0] is WaitConfirmInterval,
{
}

/// A new, confirmed board that the rules find invalid is ignored.
pub proof fn lemma_invalid_board_is_ignored<M>(c: AnalysisContext<M>, obs: Observation<M>)
    requires
        awaits_confirmation(c, obs.board),
        obs.confirmed,
        !obs.valid,
    ensures
        next(c, obs).0 == c,
        next(c, obs).1.len() == 0,
{
}

/// Reaching the expected board announces the expected move, hands the turn to the
/// opponent and forgets the expectation.
pub proof fn lemma_expected_board_is_our_move<M>(c: AnalysisContext<M>, obs: Observation<M>)
    requires
        c.state == ChessboardState::OurTurn || c.state == ChessboardState::OpponentTurn,
        obs.board != c.last_board,
        c.expect_board == Some(obs.board),
    ensures
        next(c, obs).0.state == ChessboardState::OpponentTurn,
        next(c, obs).0.last_board == obs.board,
        next(c, obs).0.expect_board is None,
        next(c, obs).0.expect_move == c.expect_move,
        next(c, obs).1.len() == 1,
        next(c, obs).1[0] is EmitExpectedMove,
{
}

/// The expected move is announced only when its board is on screen, and announcing
/// it consumes the expectation.
pub proof fn lemma_expected_move_consumed<M>(c: AnalysisContext<M>, obs: Observation<M>, i: int)
    requires
        0 <= i < next(c, obs).1.len(),
        next(c, obs).1[i] is EmitExpectedMove,
    ensures
        c.expect_board == Some(obs.board),
        next(c, obs).0.expect_board is None,
{
}

/// The context after the watcher has stepped through `obs`, in order, with no engine
/// answer recorded in between.
pub open spec fn run<M>(c: AnalysisContext<M>, obs: Seq<Observation<M>>) -> AnalysisContext<M>
    decreases obs.len(),
{
    if obs.len() == 0 {
        c
    } else {
        next(run(c, obs.drop_last()), obs.last()).0
    }
}

/// Once nothing is expected (for instance right after the expected move was
/// announced), no step announces an expected move again until a new engine answer is
/// recorded, whatever boards are seen.
pub proof fn lemma_no_expectation_no_announcement<M>(
    c: AnalysisContext<M>,
    obs: Seq<Observation<M>>,
    k: int,
    i: int,
)
    requires
        c.expect_board is None,
        0 <= k < obs.len(),
        0 <= i < next(run(c, obs.take(k)), obs[k]).1.len(),
    ensures
        run(c, obs.take(k)).expect_board is None,
        !(next(run(c, obs.take(k)), obs[k]).1[i] is EmitExpectedMove),
{
    lemma_expectation_stays_absent(c, obs, k);
}

proof fn lemma_expectation_stays_absent<M>(c: AnalysisContext<M>, obs: Seq<Observation<M>>, k: int)
    requires
        c.expect_board is None,
        0 <= k <= obs.len(),
    ensures
        run(c, obs.take(k)).expect_board is None,
    decreases k,
{
    if k > 0 {
        assert(obs.take(k).drop_last() =~= obs.take(k - 1));
        assert(obs.take(k).last() == obs[k - 1]);
        lemma_expectation_stays_absent(c, obs, k - 1);
    }
}

/// A confirmed, valid move while waiting is announced and decides whose turn it is:
/// our own move hands the turn to the opponent; the opponent's move gives us the
/// turn and asks the engine. Either way the move's board becomes the position and
/// nothing stays expected.
pub proof fn lemma_move_switches_turn<M>(c: AnalysisContext<M>, obs: Observation<M>)
    requires
        awaits_confirmation(c, obs.board),
        obs.confirmed,
        obs.valid,
        obs.diff.state == BoardChangeState::Move,
    ensures
        next(c, obs).0.last_board == obs.board,
        next(c, obs).0.expect_board is None,
        next(c, obs).1[0] == Action::EmitMove(obs.diff.mv),
        obs.diff.camp == obs.camp ==> next(c, obs).0.state == ChessboardState::OpponentTurn
            && next(c, obs).1.len() == 1,
        obs.diff.camp != obs.camp ==> next(c, obs).0.state == ChessboardState::OurTurn
            && next(c, obs).1 == seq![Action::EmitMove(obs.diff.mv), Action::Analyze],
{
}

/// The first board is always shown and never announced as a move. The engine is
/// asked at once, whatever side we play, unless the board is the opening position
/// and we play Black: then the watcher waits for Red's first move.
pub proof fn lemma_first_board<M>(c: AnalysisContext<M>, obs: Observation<M>)
    requires
        c.state == ChessboardState::Initial,
    ensures
        next(c, obs).0.last_board == obs.board,
        next(c, obs).0.expect_board == c.expect_board,
        next(c, obs).0.invalid_change_count == c.invalid_change_count,
        next(c, obs).1.len() > 0,
        next(c, obs).1[0] is UpdateUi,
        forall|i: int|
            0 <= i < next(c, obs).1.len() ==> !(next(c, obs).1[i] is EmitMove) && !(next(
                c,
                obs,
            ).1[i] is EmitExpectedMove),
        obs.startpos && obs.camp == Camp::Black ==> next(c, obs).0.state
            == ChessboardState::OpponentTurn && next(c, obs).1.len() == 1,
        !(obs.startpos && obs.camp == Camp::Black) ==> next(c, obs).0.state
            == ChessboardState::OurTurn && next(c, obs).1.len() == 2 && next(c, obs).1[1] is Analyze,
{
}

/// While waiting for a move, a board that is neither the accepted one nor the
/// expected one must be seen twice before it is taken, whoever's turn it is.
pub proof fn lemma_new_board_needs_confirmation<M>(c: AnalysisContext<M>, board: Board)
    requires
        c.state == ChessboardState::OurTurn || c.state == ChessboardState::OpponentTurn,
        board != c.last_board,
        c.expect_board != Some(board),
    ensures
        awaits_confirmation(c, board),
{
}

/// A second capture is asked for only while waiting for a move, and only for a board
/// that is neither the accepted one nor the expected one.
pub proof fn lemma_confirmation_only_for_new_boards<M>(c: AnalysisContext<M>, board: Board)
    requires
        awaits_confirmation(c, board),
    ensures
        c.state == ChessboardState::OurTurn || c.state == ChessboardState::OpponentTurn,
        board != c.last_board,
        c.expect_board != Some(board),
{
}

/// When no second capture is asked for, its result does not matter: the step is the
/// same whether the board was confirmed or not.
pub proof fn lemma_confirmation_unused_when_not_asked<M>(
    c: AnalysisContext<M>,
    obs: Observation<M>,
    confirmed: bool,
)
    requires
        !awaits_confirmation(c, obs.board),
    ensures
        next(c, obs) == next(c, Observation { confirmed, ..obs }),
{
}

/// A confirmed, valid board that changed in one point only is not taken: the
/// accepted and expected boards stay, nothing is done, and the change is counted.
/// The first three such changes make the state `Invalid`; the fourth resets the count
/// and starts over.
pub proof fn lemma_one_point_change<M>(c: AnalysisContext<M>, obs: Observation<M>)
    requires
        awaits_confirmation(c, obs.board),
        obs.confirmed,
        obs.valid,
        obs.diff.state == BoardChangeState::One,
    ensures
        next(c, obs).0.last_board == c.last_board,
        next(c, obs).0.expect_board == c.expect_board,
        next(c, obs).1.len() == 0,
        c.invalid_change_count < 3 ==> next(c, obs).0.state == ChessboardState::Invalid
            && next(c, obs).0.invalid_change_count == c.invalid_change_count + 1,
        c.invalid_change_count >= 3 ==> next(c, obs).0.state == ChessboardState::Initial
            && next(c, obs).0.invalid_change_count == 0,
{
}

/// A confirmed, valid board that no single move explains is taken as the new
/// position and shown, and the watcher starts over from it.
pub proof fn lemma_unexplained_board_restarts<M>(c: AnalysisContext<M>, obs: Observation<M>)
    requires
        awaits_confirmation(c, obs.board),
        obs.confirmed,
        obs.valid,
        obs.diff.state == BoardChangeState::Unknown,
    ensures
        next(c, obs).0.state == ChessboardState::Initial,
        next(c, obs).0.last_board == obs.board,
        next(c, obs).0.expect_board == c.expect_board,
        next(c, obs).0.invalid_change_count == c.invalid_change_count,
        next(c, obs).1.len() == 1,
        next(c, obs).1[0] is UpdateUi,
{
}

/// An unexplained one-point change is counted: below three the count goes up by one
/// and the state becomes `Invalid`; at three it goes back to zero and the state to
/// `Initial`. Nothing else changes.
pub proof fn lemma_invalid_change_count<M>(c: AnalysisContext<M>)
    ensures
        after_invalid_change(c).last_board == c.last_board,
        after_invalid_change(c).expect_board == c.expect_board,
        after_invalid_change(c).expect_move == c.expect_move,
        c.invalid_change_count < 3 ==> after_invalid_change(c).state == ChessboardState::Invalid
            && after_invalid_change(c).invalid_change_count == c.invalid_change_count + 1,
        c.invalid_change_count >= 3 ==> after_invalid_change(c).state == ChessboardState::Initial
            && after_invalid_change(c).invalid_change_count == 0,
{
}

/// In the opening-position state: the opening position seen as Black hands the turn
/// to Red; seen as Red it is analysed once (a repeated board changes nothing); a board
/// that left the opening position is judged by the change, keeping what is expected.
pub proof fn lemma_opening_position_state<M>(c: AnalysisContext<M>, obs: Observation<M>)
    requires
        c.state == ChessboardState::StartPos,
    ensures
        obs.startpos && obs.camp == Camp::Black ==> next(c, obs).0.state
            == ChessboardState::OpponentTurn && next(c, obs).0.last_board == obs.board
            && next(c, obs).1.len() == 1 && next(c, obs).1[0] is UpdateUi,
        obs.startpos && obs.camp == Camp::Red && obs.board == c.last_board ==> next(c, obs) == (
        c,
        Seq::<Action<M>>::empty(),
        ),
        obs.startpos && obs.camp == Camp::Red && obs.board != c.last_board ==> next(c, obs).0.state
            == ChessboardState::OurTurn && next(c, obs).0.last_board == obs.board
            && next(c, obs).1.len() == 2 && next(c, obs).1[0] is UpdateUi && next(
            c,
            obs,
        ).1[1] is Analyze,
        !obs.startpos && obs.board == c.last_board ==> next(c, obs) == (
        c,
        Seq::<Action<M>>::empty(),
        ),
        !obs.startpos && obs.board != c.last_board && obs.diff.state == BoardChangeState::Move
            ==> next(c, obs).0.last_board == obs.board && next(c, obs).0.expect_board
            == c.expect_board && next(c, obs).1[0] == Action::EmitMove(obs.diff.mv) && (
        obs.diff.camp == obs.camp <==> next(c, obs).0.state == ChessboardState::OpponentTurn),
        !obs.startpos && obs.board != c.last_board && obs.diff.state == BoardChangeState::One
            ==> next(c, obs).0.last_board == c.last_board && next(c, obs).0.expect_board
            == c.expect_board && next(c, obs).1.len() == 0 && (c.invalid_change_count < 3 ==> next(
            c,
            obs,
        ).0.state == ChessboardState::Invalid && next(c, obs).0.invalid_change_count
            == c.invalid_change_count + 1) && (c.invalid_change_count >= 3 ==> next(c, obs).0.state
            == ChessboardState::Initial && next(c, obs).0.invalid_change_count == 0),
        !obs.startpos && obs.board != c.last_board && obs.diff.state == BoardChangeState::Unknown
            ==> next(c, obs).0.state == ChessboardState::Initial && next(c, obs).0.last_board
            == obs.board && next(c, obs).1.len() == 1 && next(c, obs).1[0] is UpdateUi,
{
}

/// Only an unexplained one-point change touches the count of such changes.
pub proof fn lemma_count_only_on_one_point_change<M>(c: AnalysisContext<M>, obs: Observation<M>)
    requires
        obs.diff.state != BoardChangeState::One,
    ensures
        next(c, obs).0.invalid_change_count == c.invalid_change_count,
{
}

/// The expectation is only ever dropped, never replaced, by a step, and it is dropped
/// only when a move is announced.
pub proof fn lemma_expectation_dropped_only_by_moves<M>(c: AnalysisContext<M>, obs: Observation<M>)
    ensures
        next(c, obs).0.expect_board == c.expect_board || next(c, obs).0.expect_board is None,
        next(c, obs).0.expect_board != c.expect_board ==> next(c, obs).1.len() > 0 && (next(
            c,
            obs,
        ).1[0] is EmitMove || next(c, obs).1[0] is EmitExpectedMove),
{
}

/// After an unexplained state, the next board starts the watcher over.
pub proof fn lemma_invalid_restarts<M>(c: AnalysisContext<M>, obs: Observation<M>)
    requires
        c.state == ChessboardState::Invalid,
    ensures
        next(c, obs).0 == (AnalysisContext { state: ChessboardState::Initial, ..c }),
        next(c, obs).1.len() == 0,
{
}

/// Four unexplained one-point changes in a row, from a clean count, bring the watcher
/// back to `Initial` with the count reset; the first three leave it `Invalid`.
pub proof fn lemma_fourth_glitch_resets<M>(c: AnalysisContext<M>)
    requires
        c.invalid_change_count == 0,
    ensures
        after_invalid_change(c).state == ChessboardState::Invalid,
        after_invalid_change(after_invalid_change(c)).state == ChessboardState::Invalid,
        after_invalid_change(after_invalid_change(after_invalid_change(c))).state
            == ChessboardState::Invalid,
        after_invalid_change(after_invalid_change(after_invalid_change(after_invalid_change(c))))
            == (AnalysisContext { state: ChessboardState::Initial, invalid_change_count: 0, ..c }),
{
}

impl<M> AnalysisContext<M> {
    /// A fresh context: state `Initial`, a blank last board, nothing expected (with
    /// `no_move` as the expected move), no unexplained change counted.
    pub fn new(no_move: M) -> (c: Self)
        ensures
            c.state == ChessboardState::Initial,
            c.last_board == blank_board(),
            c.expect_board is None,
            c.expect_move == no_move,
            c.invalid_change_count == 0,
            reachable(c),
    {
        AnalysisContext {
            state: ChessboardState::Initial,
            last_board: empty_board(),
            expect_move: no_move,
            expect_board: None,
            invalid_change_count: 0,
        }
    }

    /// Counts one unexplained one-point change and says which state follows:
    /// `Invalid` for the first three, then `Initial` with the count reset.
    pub fn handle_invalid_change(&mut self) -> (s: ChessboardState)
        ensures
            s == after_invalid_change(*old(self)).state,
            *final(self) == (AnalysisContext { state: old(self).state, ..after_invalid_change(*old(self)) }),
    {
        if self.invalid_change_count < 3 {
            self.invalid_change_count = self.invalid_change_count + 1;
            ChessboardState::Invalid
        } else {
            self.invalid_change_count = 0;
            ChessboardState::Initial
        }
    }

    /// Whether the loop must capture the window a second time, and report in
    /// `Observation::confirmed` whether it showed `board` again, before `step`.
    pub fn needs_confirmation(&self, board: &Board) -> (r: bool)
        ensures
            r == awaits_confirmation(*self, *board),
    {
        (self.state == ChessboardState::OurTurn || self.state == ChessboardState::OpponentTurn)
            && !boards_equal(board, &self.last_board) && match &self.expect_board {
            Some(e) => !boards_equal(board, e),
            None => true,
        }
    }

    /// Takes the engine's answer after an `Analyze` action: when there is one, its move
    /// and resulting board become what is expected next; otherwise nothing changes.
    pub fn record_analysis(&mut self, result: Option<(M, Board)>)
        ensures
            match result {
                Some((m, b)) => *final(self) == (AnalysisContext {
                    expect_move: m,
                    expect_board: Some(b),
                    ..*old(self)
                }),
                None => *final(self) == *old(self),
            },
    {
        if let Some((m, b)) = result {
            self.expect_move = m;
            self.expect_board = Some(b);
        }
    }

    fn apply_diff(&mut self, obs: Observation<M>, clear_expect: bool) -> (actions: Vec<Action<M>>)
        ensures
            (*final(self), actions@) == after_diff(*old(self), obs, clear_expect),
    {
        match obs.diff.state {
            BoardChangeState::Move => {
                self.last_board = obs.board;
                if clear_expect {
                    self.expect_board = None;
                }
                let mut actions: Vec<Action<M>> = Vec::new();
                let ours = obs.camp == obs.diff.camp;
                actions.push(Action::EmitMove(obs.diff.mv));
                if ours {
                    self.state = ChessboardState::OpponentTurn;
                } else {
                    self.state = ChessboardState::OurTurn;
                    actions.push(Action::Analyze);
                }
                actions
            },
            BoardChangeState::One => {
                let s = self.handle_invalid_change();
                self.state = s;
                let actions: Vec<Action<M>> = Vec::new();
                actions
            },
            BoardChangeState::Unknown => {
                self.last_board = obs.board;
                self.state = ChessboardState::Initial;
                let mut actions: Vec<Action<M>> = Vec::new();
                actions.push(Action::UpdateUi);
                actions
            },
        }
    }

    /// One turn of the watcher on a recognised board: updates the context and returns
    /// the actions to perform, in order, exactly as [`next`] says.
    pub fn step(&mut self, obs: Observation<M>) -> (actions: Vec<Action<M>>)
        ensures
            (*final(self), actions@) == next(*old(self), obs),
    {
        match self.state {
            ChessboardState::Initial => {
                self.last_board = obs.board;
                let mut actions: Vec<Action<M>> = Vec::new();
                actions.push(Action::UpdateUi);
                if obs.startpos && obs.camp != Camp::Red {
                    self.state = ChessboardState::OpponentTurn;
                } else {
                    self.state = ChessboardState::OurTurn;
                    actions.push(Action::Analyze);
                }
                actions
            },
            ChessboardState::StartPos => {
                let same = boards_equal(&obs.board, &self.last_board);
                if !obs.startpos {
                    if same {
                        let actions: Vec<Action<M>> = Vec::new();
                        actions
                    } else {
                        self.apply_diff(obs, false)
                    }
                } else if obs.camp == Camp::Red {
                    let mut actions: Vec<Action<M>> = Vec::new();
                    if !same {
                        self.last_board = obs.board;
                        self.state = ChessboardState::OurTurn;
                        actions.push(Action::UpdateUi);
                        actions.push(Action::Analyze);
                    }
                    actions
                } else {
                    self.last_board = obs.board;
                    self.state = ChessboardState::OpponentTurn;
                    let mut actions: Vec<Action<M>> = Vec::new();
                    actions.push(Action::UpdateUi);
                    actions
                }
            },
            ChessboardState::OurTurn | ChessboardState::OpponentTurn => {
                if boards_equal(&obs.board, &self.last_board) {
                    let actions: Vec<Action<M>> = Vec::new();
                    actions
                } else if match &self.expect_board {
                    Some(e) => boards_equal(&obs.board, e),
                    None => false,
                } {
                    self.last_board = obs.board;
                    self.expect_board = None;
                    self.state = ChessboardState::OpponentTurn;
                    let mut actions: Vec<Action<M>> = Vec::new();
                    actions.push(Action::EmitExpectedMove);
                    actions
                } else if !obs.confirmed {
                    let mut actions: Vec<Action<M>> = Vec::new();
                    actions.push(Action::WaitConfirmInterval);
                    actions
                } else if !obs.valid {
                    let actions: Vec<Action<M>> = Vec::new();
                    actions
                } else {
                    self.apply_diff(obs, true)
                }
            },
            ChessboardState::Invalid => {
                self.state = ChessboardState::Initial;
                let actions: Vec<Action<M>> = Vec::new();
                actions
            },
        }
    }
}

/// Why starting to watch a window failed.
pub enum StartFailure {
    /// A watcher is already running.
    AlreadyListening,
    /// No listed window has the requested id.
    WindowNotFound,
    /// The window could not be captured.
    CaptureFailed,
    /// Recognition on the first frame failed.
    RecognitionFailed,
    /// No board was found on the first frame; the text says why.
    NoBoard(String),
}

impl StartFailure {
    /// The message shown to the user.
    pub fn message(self) -> (s: String)
        ensures
            s@ == match self {
                StartFailure::AlreadyListening => "已经在监听中"@,
                StartFailure::WindowNotFound => "未找到指定窗口"@,
                StartFailure::CaptureFailed => "截取窗口图像失败"@,
                StartFailure::RecognitionFailed => "模型推理识别失败"@,
                StartFailure::NoBoard(e) => e@,
            },
    {
        match self {
            StartFailure::AlreadyListening => String::from_str("已经在监听中"),
            StartFailure::WindowNotFound => String::from_str("未找到指定窗口"),
            StartFailure::CaptureFailed => String::from_str("截取窗口图像失败"),
            StartFailure::RecognitionFailed => String::from_str("模型推理识别失败"),
            StartFailure::NoBoard(e) => e,
        }
    }
}

/// The board rectangle of a window, as (x, y, w, h).
pub type Bound = (u32, u32, u32, u32);

/// How starting to watch a window ends, from what each step of starting gave, in
/// order: whether a watcher already runs, whether the window was found, whether it
/// could be captured, whether recognition worked on the frame, and where the board is
/// on it. A step is read only when every earlier one succeeded; the first that failed
/// gives the failure. When all succeeded, the board's rectangle is the result, or the
/// reason no board was found.
pub open spec fn start_result(
    running: bool,
    found: bool,
    captured: bool,
    recognised: bool,
    bound: Option<Result<Bound, String>>,
) -> Result<Bound, StartFailure> {
    if running {
        Err(StartFailure::AlreadyListening)
    } else if !found {
        Err(StartFailure::WindowNotFound)
    } else if !captured {
        Err(StartFailure::CaptureFailed)
    } else if !recognised {
        Err(StartFailure::RecognitionFailed)
    } else {
        match bound {
            Some(Ok(b)) => Ok(b),
            Some(Err(e)) => Err(StartFailure::NoBoard(e)),
            None => Err(StartFailure::RecognitionFailed),
        }
    }
}

/// Decides how starting to watch a window ends, as [`start_result`] says. The board's
/// rectangle comes from recognition, so when recognition worked but no rectangle
/// search was made (`bound` is `None`), recognition counts as failed.
pub fn start_outcome(
    running: bool,
    found: bool,
    captured: bool,
    recognised: bool,
    bound: Option<Result<Bound, String>>,
) -> (r: Result<Bound, StartFailure>)
    ensures
        r == start_result(running, found, captured, recognised, bound),
{
    if running {
        Err(StartFailure::AlreadyListening)
    } else if !found {
        Err(StartFailure::WindowNotFound)
    } else if !captured {
        Err(StartFailure::CaptureFailed)
    } else if !recognised {
        Err(StartFailure::RecognitionFailed)
    } else {
        match bound {
            Some(Ok(b)) => Ok(b),
            Some(Err(e)) => Err(StartFailure::NoBoard(e)),
            None => Err(StartFailure::RecognitionFailed),
        }
    }
}

/// At most one watcher runs: while one is running, starting another fails with
/// `AlreadyListening`, whatever else holds.
pub proof fn lemma_one_watcher_at_a_time(
    found: bool,
    captured: bool,
    recognised: bool,
    bound: Option<Result<Bound, String>>,
)
    ensures
        start_result(true, found, captured, recognised, bound) == Err::<Bound, StartFailure>(
            StartFailure::AlreadyListening,
        ),
{
}

/// Starting fails at the first step that failed, in the order: a watcher already
/// runs, the window is not found, it cannot be captured, recognition fails, no board
/// is found. When every step succeeded, the rectangle found is kept exactly as found.
pub proof fn lemma_start_order(
    running: bool,
    found: bool,
    captured: bool,
    recognised: bool,
    bound: Option<Result<Bound, String>>,
)
    ensures
        running ==> start_result(running, found, captured, recognised, bound)
            == Err::<Bound, StartFailure>(StartFailure::AlreadyListening),
        !running && !found ==> start_result(running, found, captured, recognised, bound)
            == Err::<Bound, StartFailure>(StartFailure::WindowNotFound),
        !running && found && !captured ==> start_result(running, found, captured, recognised, bound)
            == Err::<Bound, StartFailure>(StartFailure::CaptureFailed),
        !running && found && captured && !recognised ==> start_result(
            running,
            found,
            captured,
            recognised,
            bound,
        ) == Err::<Bound, StartFailure>(StartFailure::RecognitionFailed),
        forall|b: Bound|
            !running && found && captured && recognised && bound == Some(Ok::<Bound, String>(b))
                ==> #[trigger] start_result(running, found, captured, recognised, bound) == Ok::<
                Bound,
                StartFailure,
            >(b),
        forall|e: String|
            !running && found && captured && recognised && bound == Some(Err::<Bound, String>(e))
                ==> #[trigger] start_result(running, found, captured, recognised, bound) == Err::<
                Bound,
                StartFailure,
            >(StartFailure::NoBoard(e)),
        start_result(running, found, captured, recognised, bound) is Ok ==> !running && found
            && captured && recognised && bound == Some(
            Ok::<Bound, String>(start_result(running, found, captured, recognised, bound)->Ok_0),
        ),
{
}

} // verus!
