use chess_listen::board::{boards_equal, empty_board, Board, BoardChangeState, BoardDiff, Camp};
use chess_listen::worker::{start_outcome, Action, AnalysisContext, ChessboardState, Observation, StartFailure};

fn board_with(rank: usize, file: usize, piece: char) -> Board {
    let mut b = empty_board();
    b[rank][file] = piece;
    b
}

fn obs(camp: Camp, board: Board, startpos: bool, change: BoardChangeState, mover: Camp, mv: u32) -> Observation<u32> {
    Observation {
        camp,
        board,
        startpos,
        valid: true,
        confirmed: true,
        diff: BoardDiff { mv, camp: mover, state: change },
    }
}

fn context_in(state: ChessboardState, last: Board) -> AnalysisContext<u32> {
    let mut c = AnalysisContext::new(0u32);
    c.state = state;
    c.last_board = last;
    c
}

#[test]
fn new_context_is_initial_and_blank() {
    let c = AnalysisContext::new(42u32);
    assert_eq!(c.state, ChessboardState::Initial);
    assert!(boards_equal(&c.last_board, &empty_board()));
    assert!(c.expect_board.is_none());
    assert_eq!(c.expect_move, 42);
    assert_eq!(c.invalid_change_count, 0);
}

#[test]
fn initial_start_position_as_red_analyses() {
    let mut c = AnalysisContext::new(0u32);
    let b = board_with(9, 4, 'K');
    let a = c.step(obs(Camp::Red, b, true, BoardChangeState::Unknown, Camp::Red, 0));
    assert_eq!(c.state, ChessboardState::OurTurn);
    assert!(boards_equal(&c.last_board, &b));
    assert_eq!(a.len(), 2);
    assert!(matches!(a[0], Action::UpdateUi));
    assert!(matches!(a[1], Action::Analyze));
}

#[test]
fn initial_start_position_as_black_waits() {
    let mut c = AnalysisContext::new(0u32);
    let b = board_with(0, 4, 'k');
    let a = c.step(obs(Camp::Black, b, true, BoardChangeState::Unknown, Camp::Red, 0));
    assert_eq!(c.state, ChessboardState::OpponentTurn);
    assert!(boards_equal(&c.last_board, &b));
    assert_eq!(a.len(), 1);
    assert!(matches!(a[0], Action::UpdateUi));
}

#[test]
fn initial_middle_game_analyses_for_either_side() {
    let mut c = AnalysisContext::new(0u32);
    let a = c.step(obs(Camp::Black, board_with(5, 5, 'p'), false, BoardChangeState::One, Camp::Red, 0));
    assert_eq!(c.state, ChessboardState::OurTurn);
    assert_eq!(a.len(), 2);
    assert!(matches!(a[1], Action::Analyze));
}

#[test]
fn analysis_sets_the_expectation() {
    let mut c = AnalysisContext::new(0u32);
    c.record_analysis(Some((17, board_with(1, 1, 'c'))));
    assert_eq!(c.expect_move, 17);
    assert!(boards_equal(&c.expect_board.unwrap(), &board_with(1, 1, 'c')));
    c.record_analysis(None);
    assert_eq!(c.expect_move, 17);
    assert_eq!(c.state, ChessboardState::Initial);
}

#[test]
fn same_board_while_waiting_does_nothing() {
    let last = board_with(3, 3, 'R');
    for state in [ChessboardState::OurTurn, ChessboardState::OpponentTurn] {
        let mut c = context_in(state, last);
        assert!(!c.needs_confirmation(&last));
        let a = c.step(obs(Camp::Red, last, false, BoardChangeState::Move, Camp::Red, 5));
        assert!(a.is_empty());
        assert_eq!(c.state, state);
        assert!(boards_equal(&c.last_board, &last));
    }
}

#[test]
fn expected_board_announces_expected_move() {
    let mut c = context_in(ChessboardState::OurTurn, board_with(3, 3, 'R'));
    let expected = board_with(3, 4, 'R');
    c.record_analysis(Some((99, expected)));
    assert!(!c.needs_confirmation(&expected));
    let a = c.step(obs(Camp::Red, expected, false, BoardChangeState::Unknown, Camp::Black, 1));
    assert_eq!(c.state, ChessboardState::OpponentTurn);
    assert!(boards_equal(&c.last_board, &expected));
    assert!(c.expect_board.is_none());
    assert_eq!(c.expect_move, 99);
    assert_eq!(a.len(), 1);
    assert!(matches!(a[0], Action::EmitExpectedMove));
}

#[test]
fn unconfirmed_board_waits() {
    let last = board_with(3, 3, 'R');
    let mut c = context_in(ChessboardState::OpponentTurn, last);
    let seen = board_with(4, 3, 'R');
    assert!(c.needs_confirmation(&seen));
    let mut o = obs(Camp::Red, seen, false, BoardChangeState::Move, Camp::Black, 1);
    o.confirmed = false;
    let a = c.step(o);
    assert_eq!(a.len(), 1);
    assert!(matches!(a[0], Action::WaitConfirmInterval));
    assert_eq!(c.state, ChessboardState::OpponentTurn);
    assert!(boards_equal(&c.last_board, &last));
}

#[test]
fn invalid_board_is_ignored() {
    let last = board_with(3, 3, 'R');
    let mut c = context_in(ChessboardState::OurTurn, last);
    let mut o = obs(Camp::Red, board_with(4, 3, 'R'), false, BoardChangeState::Move, Camp::Red, 1);
    o.valid = false;
    let a = c.step(o);
    assert!(a.is_empty());
    assert_eq!(c.state, ChessboardState::OurTurn);
    assert!(boards_equal(&c.last_board, &last));
}

#[test]
fn opponent_move_gives_us_the_turn() {
    let mut c = context_in(ChessboardState::OpponentTurn, board_with(0, 0, 'r'));
    c.record_analysis(Some((3, board_with(7, 7, 'C'))));
    let seen = board_with(1, 0, 'r');
    let a = c.step(obs(Camp::Red, seen, false, BoardChangeState::Move, Camp::Black, 11));
    assert_eq!(c.state, ChessboardState::OurTurn);
    assert!(boards_equal(&c.last_board, &seen));
    assert!(c.expect_board.is_none());
    assert_eq!(a.len(), 2);
    assert!(matches!(a[0], Action::EmitMove(11)));
    assert!(matches!(a[1], Action::Analyze));
}

#[test]
fn our_own_move_hands_the_turn_over() {
    let mut c = context_in(ChessboardState::OurTurn, board_with(9, 0, 'R'));
    let seen = board_with(8, 0, 'R');
    let a = c.step(obs(Camp::Red, seen, false, BoardChangeState::Move, Camp::Red, 12));
    assert_eq!(c.state, ChessboardState::OpponentTurn);
    assert!(boards_equal(&c.last_board, &seen));
    assert_eq!(a.len(), 1);
    assert!(matches!(a[0], Action::EmitMove(12)));
}

#[test]
fn unknown_change_starts_over() {
    let mut c = context_in(ChessboardState::OurTurn, board_with(9, 0, 'R'));
    let seen = board_with(2, 2, 'N');
    let a = c.step(obs(Camp::Black, seen, false, BoardChangeState::Unknown, Camp::Red, 0));
    assert_eq!(c.state, ChessboardState::Initial);
    assert!(boards_equal(&c.last_board, &seen));
    assert_eq!(a.len(), 1);
    assert!(matches!(a[0], Action::UpdateUi));
}

#[test]
fn one_point_changes_are_tolerated_three_times() {
    let last = board_with(9, 0, 'R');
    let seen = board_with(9, 1, 'R');
    let mut c = context_in(ChessboardState::OurTurn, last);
    for expected_count in 1..=3usize {
        let a = c.step(obs(Camp::Red, seen, false, BoardChangeState::One, Camp::Red, 0));
        assert!(a.is_empty());
        assert_eq!(c.state, ChessboardState::Invalid);
        assert_eq!(c.invalid_change_count, expected_count);
        assert!(boards_equal(&c.last_board, &last));
        // an unexplained state starts over on the next board
        let a = c.step(obs(Camp::Red, seen, false, BoardChangeState::One, Camp::Red, 0));
        assert!(a.is_empty());
        assert_eq!(c.state, ChessboardState::Initial);
        c.state = ChessboardState::OurTurn;
    }
    let a = c.step(obs(Camp::Red, seen, false, BoardChangeState::One, Camp::Red, 0));
    assert!(a.is_empty());
    assert_eq!(c.state, ChessboardState::Initial);
    assert_eq!(c.invalid_change_count, 0);
}

#[test]
fn handle_invalid_change_counts_then_resets() {
    let mut c = AnalysisContext::new(0u32);
    assert_eq!(c.handle_invalid_change(), ChessboardState::Invalid);
    assert_eq!(c.handle_invalid_change(), ChessboardState::Invalid);
    assert_eq!(c.handle_invalid_change(), ChessboardState::Invalid);
    assert_eq!(c.invalid_change_count, 3);
    assert_eq!(c.handle_invalid_change(), ChessboardState::Initial);
    assert_eq!(c.invalid_change_count, 0);
    assert_eq!(c.state, ChessboardState::Initial);
}

#[test]
fn start_position_state_transitions() {
    let start = board_with(0, 4, 'k');
    // still the opening position, same board: nothing
    let mut c = context_in(ChessboardState::StartPos, start);
    assert!(c.step(obs(Camp::Red, start, true, BoardChangeState::Move, Camp::Red, 0)).is_empty());
    assert_eq!(c.state, ChessboardState::StartPos);
    // opening position, new board, we are red: analyse
    let other = board_with(0, 3, 'k');
    let a = c.step(obs(Camp::Red, other, true, BoardChangeState::Move, Camp::Red, 0));
    assert_eq!(c.state, ChessboardState::OurTurn);
    assert!(matches!(a[0], Action::UpdateUi) && matches!(a[1], Action::Analyze));
    // opening position, we are black: wait
    let mut c = context_in(ChessboardState::StartPos, start);
    let a = c.step(obs(Camp::Black, start, true, BoardChangeState::Move, Camp::Red, 0));
    assert_eq!(c.state, ChessboardState::OpponentTurn);
    assert_eq!(a.len(), 1);
    // left the opening position by a move: the expectation is kept
    let mut c = context_in(ChessboardState::StartPos, start);
    c.record_analysis(Some((5, board_with(6, 6, 'P'))));
    let a = c.step(obs(Camp::Black, other, false, BoardChangeState::Move, Camp::Red, 8));
    assert_eq!(c.state, ChessboardState::OurTurn);
    assert!(boards_equal(&c.expect_board.unwrap(), &board_with(6, 6, 'P')));
    assert!(matches!(a[0], Action::EmitMove(8)) && matches!(a[1], Action::Analyze));
}

#[test]
fn invalid_restarts_on_next_board() {
    let mut c = context_in(ChessboardState::Invalid, board_with(1, 1, 'a'));
    let a = c.step(obs(Camp::Red, board_with(2, 2, 'a'), false, BoardChangeState::Move, Camp::Red, 0));
    assert!(a.is_empty());
    assert_eq!(c.state, ChessboardState::Initial);
    assert!(boards_equal(&c.last_board, &board_with(1, 1, 'a')));
}

#[test]
fn start_failure_messages() {
    assert_eq!(StartFailure::AlreadyListening.message(), "已经在监听中");
    assert_eq!(StartFailure::WindowNotFound.message(), "未找到指定窗口");
    assert_eq!(StartFailure::CaptureFailed.message(), "截取窗口图像失败");
    assert_eq!(StartFailure::RecognitionFailed.message(), "模型推理识别失败");
    assert_eq!(StartFailure::NoBoard("未识别到棋盘".to_string()).message(), "未识别到棋盘");
}

#[test]
fn met_expectation_is_not_announced_again() {
    let mut c = context_in(ChessboardState::OurTurn, board_with(3, 3, 'R'));
    let expected = board_with(3, 4, 'R');
    c.record_analysis(Some((99, expected)));
    let a = c.step(obs(Camp::Red, expected, false, BoardChangeState::Unknown, Camp::Black, 1));
    assert!(matches!(a[0], Action::EmitExpectedMove));
    // a blank board on screen is a new board, not the met expectation
    let blank = empty_board();
    assert!(c.needs_confirmation(&blank));
    let a = c.step(obs(Camp::Red, blank, false, BoardChangeState::Unknown, Camp::Black, 1));
    assert!(a.iter().all(|x| !matches!(x, Action::EmitExpectedMove)));
    assert!(matches!(a[0], Action::UpdateUi));
    assert_eq!(c.state, ChessboardState::Initial);
}

#[test]
fn blank_board_with_nothing_expected_is_a_new_board() {
    let mut c = context_in(ChessboardState::OpponentTurn, board_with(3, 3, 'R'));
    let blank = empty_board();
    assert!(c.needs_confirmation(&blank));
    let mut o = obs(Camp::Red, blank, false, BoardChangeState::Unknown, Camp::Black, 1);
    o.confirmed = false;
    let a = c.step(o);
    assert_eq!(a.len(), 1);
    assert!(matches!(a[0], Action::WaitConfirmInterval));
}

#[test]
fn start_outcome_first_failure_wins() {
    let ok: Option<Result<(u32, u32, u32, u32), String>> = Some(Ok((1, 2, 3, 4)));
    assert!(matches!(start_outcome(true, false, false, false, None), Err(StartFailure::AlreadyListening)));
    assert!(matches!(start_outcome(true, true, true, true, ok.clone()), Err(StartFailure::AlreadyListening)));
    assert!(matches!(start_outcome(false, false, true, true, ok.clone()), Err(StartFailure::WindowNotFound)));
    assert!(matches!(start_outcome(false, true, false, true, ok.clone()), Err(StartFailure::CaptureFailed)));
    assert!(matches!(start_outcome(false, true, true, false, ok.clone()), Err(StartFailure::RecognitionFailed)));
    assert!(matches!(start_outcome(false, true, true, true, None), Err(StartFailure::RecognitionFailed)));
    match start_outcome(false, true, true, true, Some(Err("未识别到棋盘".to_string()))) {
        Err(StartFailure::NoBoard(e)) => assert_eq!(e, "未识别到棋盘"),
        _ => panic!("expected NoBoard"),
    }
    assert!(matches!(start_outcome(false, true, true, true, ok), Ok((1, 2, 3, 4))));
}
