use tictactoe::board::Board;
use tictactoe::board::InsertError::{AlreadyOccupied, InvalidButton};
use tictactoe::board::Piece::{O, X};

#[test]
fn test_insert() {
    let mut board = Board::new();
    let pos = Board::numpad_to_position(5).unwrap();
    board.place(pos, X);
    assert_eq!(board, Board::from_squares([None, None,    None,
                                           None, Some(X), None,
                                           None, None,    None]));
}

#[test]
fn test_win_conditions() {
    let mut board = Board::new();
    assert!(! board.is_full());
    assert!(! board.game_over());
    assert_eq!(board.winner(), None);
    board.place((0, 0), X);
    board.place((0, 1), X);
    board.place((0, 2), X);
    assert!(board.game_over());
    assert_eq!(board.winner(), Some(X));

    let board = Board::from_squares([Some(O), None, None,
                                     None, Some(O), None,
                                     None, None, Some(O)]);
    assert!(board.game_over());
    assert_eq!(board.winner(), Some(O));
}

#[test]
fn test_numpad_insert() {
    let mut board = Board::new();
    let x_board = Board::from_squares([None, None,    None,
                                       None, Some(X), None,
                                       None, None,    None]);

    let res = board.numpad_insert(5, X);
    assert!(res.is_ok());
    assert_eq!(board, x_board);

    let res = board.numpad_insert(5, O);
    assert_eq!(res, Err(AlreadyOccupied));
    assert_eq!(board, x_board);

    let res = board.numpad_insert(0, O);
    assert_eq!(res, Err(InvalidButton));
    assert_eq!(board, x_board);
}

#[test]
fn numpad_table_is_the_phone_layout() {
    let expected = [
        (1, (2, 0)), (2, (2, 1)), (3, (2, 2)),
        (4, (1, 0)), (5, (1, 1)), (6, (1, 2)),
        (7, (0, 0)), (8, (0, 1)), (9, (0, 2)),
    ];
    for (key, pos) in expected {
        assert_eq!(Board::numpad_to_position(key), Some(pos));
    }
    assert_eq!(Board::numpad_to_position(0), None);
    assert_eq!(Board::numpad_to_position(10), None);
    assert_eq!(Board::numpad_to_position(usize::MAX), None);
}

#[test]
fn keys_outside_the_pad_leave_the_board_alone() {
    let mut board = Board::from_squares([Some(X), None, None,
                                         None, Some(O), None,
                                         None, None, None]);
    let before = board;
    for key in [0, 10, 11, 99, usize::MAX] {
        assert_eq!(board.numpad_insert(key, X), Err(InvalidButton));
        assert_eq!(board, before);
    }
}

#[test]
fn occupied_squares_are_reported() {
    let mut board = Board::from_squares([Some(X), None, None,
                                         None, Some(O), None,
                                         None, None, None]);
    let before = board;
    assert_eq!(board.numpad_insert(7, O), Err(AlreadyOccupied));
    assert_eq!(board.numpad_insert(5, X), Err(AlreadyOccupied));
    assert_eq!(board, before);
}

#[test]
fn empty_board_is_not_over() {
    let board = Board::new();
    assert!(!board.is_full());
    assert!(!board.game_over());
    assert_eq!(board.winner(), None);
}

#[test]
fn full_board_without_line_is_a_draw() {
    let board = Board::from_squares([Some(X), Some(O), Some(X),
                                     Some(X), Some(O), Some(O),
                                     Some(O), Some(X), Some(X)]);
    assert!(board.is_full());
    assert_eq!(board.winner(), None);
    assert!(board.game_over());
}

#[test]
fn columns_and_anti_diagonal_win() {
    let board = Board::from_squares([None, Some(O), Some(X),
                                     None, Some(O), None,
                                     Some(X), Some(O), None]);
    assert_eq!(board.winner(), Some(O));
    let board = Board::from_squares([None, None, Some(X),
                                     None, Some(X), None,
                                     Some(X), Some(O), Some(O)]);
    assert_eq!(board.winner(), Some(X));
}

#[test]
fn rows_are_checked_before_columns() {
    let board = Board::from_squares([Some(O), Some(X), Some(X),
                                     Some(O), Some(X), Some(O),
                                     Some(O), Some(X), Some(O)]);
    // column 0 is O and column 1 is X; no row is complete, columns go left to right
    assert_eq!(board.winner(), Some(O));
    let board = Board::from_squares([Some(X), Some(O), Some(O),
                                     Some(X), Some(O), Some(X),
                                     Some(O), Some(O), Some(O)]);
    // the bottom row and the middle column are O
    assert_eq!(board.winner(), Some(O));
}

#[test]
fn reading_a_square_changes_nothing() {
    let board = Board::from_squares([None, Some(X), None,
                                     None, None, None,
                                     Some(O), None, None]);
    let before = board;
    for _ in 0..3 {
        assert_eq!(board.index((0, 1)), Some(X));
        assert_eq!(board.index((2, 0)), Some(O));
        assert_eq!(board.index((1, 1)), None);
    }
    assert_eq!(board, before);
}

#[test]
fn render_shows_keys_on_empty_squares() {
    let board = Board::new();
    assert_eq!(board.render(),
               " 7 | 8 | 9 \n---+---+---\n 4 | 5 | 6 \n---+---+---\n 1 | 2 | 3 ");
    let board = Board::from_squares([Some(X), None, None,
                                     None, Some(O), None,
                                     None, None, Some(X)]);
    assert_eq!(board.render(),
               " X | 8 | 9 \n---+---+---\n 4 | O | 6 \n---+---+---\n 1 | 2 | X ");
}

#[test]
fn piece_symbols_and_turns() {
    assert_eq!(X.symbol(), "X");
    assert_eq!(O.symbol(), "O");
    assert_eq!(X.other(), O);
    assert_eq!(O.other(), X);
}
