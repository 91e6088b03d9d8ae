use tictactoe::board::Piece::{O, X};
use tictactoe::controller::{LocalController, Phase, Reply, Scores};
use tictactoe::game::GameState;
use tictactoe::input::{choose_mode, eq_ignore_ascii_case, parse_number, read_answer, trim_line, Answer, Mode};

#[test]
fn numbers_are_read_like_usize_from_str() {
    assert_eq!(parse_number("5"), Some(5));
    assert_eq!(parse_number("+7"), Some(7));
    assert_eq!(parse_number("0"), Some(0));
    assert_eq!(parse_number("0042"), Some(42));
    assert_eq!(parse_number(""), None);
    assert_eq!(parse_number("+"), None);
    assert_eq!(parse_number("-1"), None);
    assert_eq!(parse_number("5a"), None);
    assert_eq!(parse_number(" 5"), None);
    let max = usize::MAX.to_string();
    assert_eq!(parse_number(&max), Some(usize::MAX));
    let over = format!("{}0", max);
    assert_eq!(parse_number(&over), None);
    assert_eq!(parse_number(&format!("{}x", over)), None);
}

#[test]
fn answers_ignore_ascii_case_and_default_to_yes() {
    assert_eq!(read_answer(""), Answer::Yes);
    assert_eq!(read_answer("y"), Answer::Yes);
    assert_eq!(read_answer("YeS"), Answer::Yes);
    assert_eq!(read_answer("N"), Answer::No);
    assert_eq!(read_answer("no"), Answer::No);
    assert_eq!(read_answer("nope"), Answer::Unclear);
    assert_eq!(read_answer("q"), Answer::Unclear);
    assert!(eq_ignore_ascii_case("Hello", "hELLO"));
    assert!(!eq_ignore_ascii_case("Hello", "Hell"));
}

#[test]
fn menu_choices() {
    assert_eq!(choose_mode("1\n"), Some(Mode::Local));
    assert_eq!(choose_mode("  LOCAL \n"), Some(Mode::Local));
    assert_eq!(choose_mode("h"), Some(Mode::Host));
    assert_eq!(choose_mode("Host"), Some(Mode::Host));
    assert_eq!(choose_mode("3"), Some(Mode::Join));
    assert_eq!(choose_mode("J\r\n"), Some(Mode::Join));
    assert_eq!(choose_mode("4"), None);
    assert_eq!(choose_mode(""), None);
}

#[test]
fn trimming_takes_off_surrounding_space() {
    assert_eq!(trim_line("  5 \r\n"), "5");
    assert_eq!(trim_line("\tq"), "q");
}

#[test]
fn a_won_match_is_scored_and_replayed() {
    let mut c = LocalController::new();
    assert_eq!(c.handle_line("7\n"), Reply::Moved);
    assert_eq!(c.handle_line("hello\n"), Reply::NotANumber);
    assert_eq!(c.handle_line("0\n"), Reply::NotOnBoard);
    assert_eq!(c.handle_line("7\n"), Reply::Occupied);
    assert_eq!(c.handle_line("1\n"), Reply::Moved);
    assert_eq!(c.handle_line("8\n"), Reply::Moved);
    assert_eq!(c.handle_line("2\n"), Reply::Moved);
    assert_eq!(c.handle_line(" 9 \n"), Reply::Won(X));
    assert_eq!(c.scores(), Scores { x: 1, o: 0, cat: 0 });
    assert_eq!(c.phase(), Phase::ConfirmReplay);
    assert_eq!(c.handle_line("maybe\n"), Reply::AskAgain);
    assert_eq!(c.handle_line("\n"), Reply::NewMatch);
    assert_eq!(c.phase(), Phase::Playing);
    assert_eq!(c.session().state(), GameState::InProgress(X));
    assert!(!c.session().board().is_full());
    assert_eq!(c.handle_line("q\n"), Reply::AskQuit);
    assert_eq!(c.handle_line("n\n"), Reply::Resume);
    assert_eq!(c.handle_line("5\n"), Reply::Moved);
    assert_eq!(c.session().state(), GameState::InProgress(O));
    assert_eq!(c.handle_line("q\n"), Reply::AskQuit);
    assert_eq!(c.handle_line("YES\n"), Reply::Goodbye);
    assert_eq!(c.phase(), Phase::Done);
    assert_eq!(c.scores(), Scores { x: 1, o: 0, cat: 0 });
}

#[test]
fn draws_and_second_player_wins_are_scored() {
    let mut c = LocalController::new();
    for key in ["7", "8", "9", "5", "4", "6", "2", "1"] {
        assert_eq!(c.handle_input(key), Reply::Moved);
    }
    assert_eq!(c.handle_input("3"), Reply::Draw);
    assert_eq!(c.scores(), Scores { x: 0, o: 0, cat: 1 });
    assert_eq!(c.handle_input("y"), Reply::NewMatch);
    for key in ["1", "7", "2", "5"] {
        assert_eq!(c.handle_input(key), Reply::Moved);
    }
    assert_eq!(c.handle_input("9"), Reply::Moved);
    assert_eq!(c.handle_input("3"), Reply::Won(O));
    assert_eq!(c.scores(), Scores { x: 0, o: 1, cat: 1 });
    assert_eq!(c.handle_input("no"), Reply::Goodbye);
    assert_eq!(c.handle_input("5"), Reply::Goodbye);
    assert_eq!(c.scores(), Scores { x: 0, o: 1, cat: 1 });
    assert!(c.can_count());
}
