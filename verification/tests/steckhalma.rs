use alb1::steckhalma::{Board, Direction, EndGameState, GameState, MoveErr, Pos, Position};

#[test]
fn test_move() {
    let mut board = Board::new();
    let from = Pos::new(3, 1);
    assert_eq!(board.do_move(from, Direction::Down), Ok(()));
    assert_eq!(board.at(from), Position::NoPeg);
    assert_eq!(board.at(from.shift(Direction::Down, 1)), Position::NoPeg);
    assert_eq!(board.at(from.shift(Direction::Down, 2)), Position::Peg);
}

fn count_pegs(board: &Board) -> usize {
    let mut count = 0;
    for y in 0..7 {
        for x in 0..7 {
            if board.at(Pos::new(x, y)) == Position::Peg {
                count += 1;
            }
        }
    }
    count
}

#[test]
fn new_board_has_32_pegs_around_empty_centre() {
    let board = Board::new();
    assert_eq!(count_pegs(&board), 32);
    assert_eq!(board.at(Pos::new(3, 3)), Position::NoPeg);
    assert_eq!(board.at(Pos::new(0, 0)), Position::Invalid);
    assert_eq!(board.at(Pos::new(6, 6)), Position::Invalid);
    assert_eq!(board.at(Pos::new(2, 0)), Position::Peg);
}

#[test]
fn jump_removes_exactly_one_peg() {
    let mut board = Board::new();
    assert_eq!(board.do_move(Pos::new(3, 1), Direction::Down), Ok(()));
    assert_eq!(count_pegs(&board), 31);
    assert_eq!(board.do_move(Pos::new(1, 2), Direction::Right), Ok(()));
    assert_eq!(count_pegs(&board), 30);
}

#[test]
fn refused_moves_report_why_and_leave_board_unchanged() {
    let mut board = Board::new();
    assert_eq!(board.do_move(Pos::new(0, 0), Direction::Right), Err(MoveErr::InvalidFrom));
    assert_eq!(board.do_move(Pos::new(3, 3), Direction::Up), Err(MoveErr::NoPegAtFrom));
    assert_eq!(board.do_move(Pos::new(3, 2), Direction::Down), Err(MoveErr::NotAJump));
    assert_eq!(board.do_move(Pos::new(2, 0), Direction::Up), Err(MoveErr::InvalidTo));
    assert_eq!(board.do_move(Pos::new(2, 0), Direction::Left), Err(MoveErr::InvalidTo));
    assert_eq!(board.do_move(Pos::new(2, 2), Direction::Down), Err(MoveErr::PegAtTo));
    assert_eq!(count_pegs(&board), 32);
}

#[test]
fn game_not_over_at_start() {
    let board = Board::new();
    assert_eq!(board.check_game_over(), None);
}

#[test]
fn game_over_won_with_one_peg_left() {
    let mut board = Board::new();
    // Clear every peg except the one at (3, 3).
    for y in 0..7 {
        for x in 0..7 {
            let p = Pos::new(x, y);
            if board.at(p) == Position::Peg {
                *board.mut_at(p) = Position::NoPeg;
            }
        }
    }
    *board.mut_at(Pos::new(3, 3)) = Position::Peg;
    assert_eq!(board.check_game_over(), Some(EndGameState::PlayerWon));
}

#[test]
fn game_over_lost_with_stranded_pegs() {
    let mut board = Board::new();
    for y in 0..7 {
        for x in 0..7 {
            let p = Pos::new(x, y);
            if board.at(p) == Position::Peg {
                *board.mut_at(p) = Position::NoPeg;
            }
        }
    }
    *board.mut_at(Pos::new(2, 0)) = Position::Peg;
    *board.mut_at(Pos::new(4, 6)) = Position::Peg;
    assert_eq!(board.check_game_over(), Some(EndGameState::PlayerLost));
}

#[test]
fn shift_wraps_and_in_range() {
    let p = Pos::new(0, 0);
    let up = p.shift(Direction::Up, 1);
    assert_eq!(up.y, usize::MAX);
    assert!(!up.in_range());
    assert_eq!(up.shift(Direction::Down, 1), p);
    assert!(Pos::new(6, 6).in_range());
    assert!(!Pos::new(7, 0).in_range());
    assert_eq!(Pos::new(2, 3).shift(Direction::Right, 2), Pos::new(4, 3));
    assert_eq!(Pos::new(2, 3).shift(Direction::Left, 2), Pos::new(0, 3));
}

#[test]
fn space_toggles_between_cursor_and_peg() {
    let mut s = GameState::MovingCursor;
    s.space_pressed();
    assert_eq!(s, GameState::MovingPeg);
    s.space_pressed();
    assert_eq!(s, GameState::MovingCursor);
    let mut over = GameState::GameOver(EndGameState::PlayerWon);
    over.space_pressed();
    assert_eq!(over, GameState::Resetting);
    let mut resetting = GameState::Resetting;
    resetting.space_pressed();
    assert_eq!(resetting, GameState::Resetting);
}
