use minesweeper_client::api::{
    status_result, trim_base_url, ApiError, Credentials, MakeMoveResponse, ServiceConfig,
    UnfinishedGame,
};
use minesweeper_client::board::Board;
use minesweeper_client::prompt::{number_prompt, prompt_with_default, required_answer};
use minesweeper_client::session::{
    account_step, bomb_capacity, bomb_count_ok, default_bomb_count, login_step, menu_choice,
    select_game, summary_line, AccountStep, GameSession, LoginStep, MenuChoice, MoveCommand,
    MoveStatus, SizeError,
};

fn board_of(rows: &[&[&str]]) -> Board {
    rows.iter()
        .map(|row| row.iter().map(|c| c.to_string()).collect())
        .collect()
}

fn two_by_three() -> Board {
    board_of(&[&[" ", " "], &[" ", " "], &[" ", " "]])
}

#[test]
fn account_created_proceeds() {
    let s = account_step(Ok(()));
    assert!(matches!(s, AccountStep::Created));
    assert!(s.proceeds());
}

#[test]
fn account_conflict_proceeds_like_success() {
    let s = account_step(Err(ApiError::UnexpectedStatus(409, "exists".to_string())));
    assert!(matches!(s, AccountStep::AlreadyExists));
    assert!(s.proceeds());
}

#[test]
fn account_other_failure_aborts() {
    let s = account_step(Err(ApiError::UnexpectedStatus(500, "boom".to_string())));
    assert!(matches!(s, AccountStep::Abort(ApiError::UnexpectedStatus(500, _))));
    assert!(!s.proceeds());
    let t = account_step(Err(ApiError::Http("refused".to_string())));
    assert!(!t.proceeds());
}

#[test]
fn login_repeated_unauthorized_asks_again_then_signs_in() {
    for _ in 0..5 {
        let r: Result<(), ApiError> = Err(ApiError::UnexpectedStatus(401, String::new()));
        assert_eq!(login_step(&r), LoginStep::AskPasswordAgain);
    }
    let ok: Result<u8, ApiError> = Ok(1);
    assert_eq!(login_step(&ok), LoginStep::LoggedIn);
}

#[test]
fn login_other_failures_abort() {
    let r: Result<(), ApiError> = Err(ApiError::UnexpectedStatus(404, String::new()));
    assert_eq!(login_step(&r), LoginStep::Abort);
    let m: Result<(), ApiError> = Err(ApiError::MissingCredentials);
    assert_eq!(login_step(&m), LoginStep::Abort);
    let h: Result<(), ApiError> = Err(ApiError::Http("timeout".to_string()));
    assert_eq!(login_step(&h), LoginStep::Abort);
}

#[test]
fn menu_choices() {
    assert_eq!(menu_choice("1"), MenuChoice::NewGame);
    assert_eq!(menu_choice("2"), MenuChoice::Resume);
    assert_eq!(menu_choice("3"), MenuChoice::Stats);
    assert_eq!(menu_choice("q"), MenuChoice::Quit);
    assert_eq!(menu_choice("Q"), MenuChoice::Quit);
    assert_eq!(menu_choice("4"), MenuChoice::Unknown);
    assert_eq!(menu_choice(""), MenuChoice::Unknown);
    assert_eq!(menu_choice("quit"), MenuChoice::Unknown);
}

#[test]
fn default_bombs_for_ten_by_ten() {
    let cap = bomb_capacity(10, 10).unwrap();
    assert_eq!(cap, 100);
    assert_eq!(default_bomb_count(cap), 16);
    assert!(!bomb_count_ok(0, cap));
    assert!(!bomb_count_ok(101, cap));
    assert!(bomb_count_ok(1, cap));
    assert!(bomb_count_ok(100, cap));
}

#[test]
fn default_bombs_at_least_one() {
    assert_eq!(default_bomb_count(1), 1);
    assert_eq!(default_bomb_count(5), 1);
    assert_eq!(default_bomb_count(6), 1);
    assert_eq!(default_bomb_count(12), 2);
}

#[test]
fn board_size_errors() {
    assert_eq!(bomb_capacity(0, 5), Err(SizeError::TooSmall));
    assert_eq!(bomb_capacity(5, -1), Err(SizeError::TooSmall));
    assert_eq!(bomb_capacity(1, 1), Ok(1));
    assert_eq!(bomb_capacity(65536, 65536), Err(SizeError::TooLarge));
    assert_eq!(bomb_capacity(i32::MAX, 1), Ok(i32::MAX));
}

#[test]
fn select_game_out_of_range_rejected() {
    assert_eq!(select_game(3, 0), None);
    assert_eq!(select_game(3, 4), None);
    assert_eq!(select_game(3, -1), None);
    assert_eq!(select_game(3, 1), Some(0));
    assert_eq!(select_game(3, 3), Some(2));
    assert_eq!(select_game(0, 1), None);
}

#[test]
fn summary_line_text() {
    let g = UnfinishedGame {
        id: 7,
        board: two_by_three(),
        moves_count: 4,
        updated_at: "2024-01-01T00:00:00Z".to_string(),
    };
    assert_eq!(
        summary_line(0, &g),
        "1) Game #7 - 2x3 board, moves: 4, updated: 2024-01-01T00:00:00Z"
    );
}

#[test]
fn read_move_quit_and_parse_errors() {
    let s = GameSession::new(1, two_by_three());
    assert_eq!(s.read_move("q"), MoveCommand::Quit);
    assert_eq!(s.read_move("Q"), MoveCommand::Quit);
    assert_eq!(s.read_move(""), MoveCommand::NotTwoWords);
    assert_eq!(s.read_move("1"), MoveCommand::NotTwoWords);
    assert_eq!(s.read_move("1 2 3"), MoveCommand::NotTwoWords);
    assert_eq!(s.read_move("a 1"), MoveCommand::BadX);
    assert_eq!(s.read_move("1 b"), MoveCommand::BadY);
}

#[test]
fn read_move_bounds() {
    let s = GameSession::new(1, two_by_three());
    assert_eq!(s.read_move("0 0"), MoveCommand::Submit(0, 0));
    assert_eq!(s.read_move("1 2"), MoveCommand::Submit(1, 2));
    assert_eq!(s.read_move("2 0"), MoveCommand::OutOfBounds);
    assert_eq!(s.read_move("0 3"), MoveCommand::OutOfBounds);
    assert_eq!(s.read_move("-1 0"), MoveCommand::OutOfBounds);
    assert_eq!(s.read_move("0 -1"), MoveCommand::OutOfBounds);
}

#[test]
fn read_move_on_empty_board() {
    let s = GameSession::new(1, Vec::new());
    assert_eq!(s.read_move("0 0"), MoveCommand::EmptyBoard);
}

#[test]
fn move_result_true_wins() {
    let mut s = GameSession::new(9, two_by_three());
    let b = board_of(&[&["1", "0"]]);
    let st = s.apply_response(Ok(MakeMoveResponse { board: b.clone(), result: Some(true) }));
    assert!(matches!(st, MoveStatus::Won));
    assert!(s.is_over());
    assert_eq!(s.board, b);
    assert_eq!(s.read_move("0 0"), MoveCommand::Finished);
}

#[test]
fn move_result_false_loses() {
    let mut s = GameSession::new(9, two_by_three());
    let st = s.apply_response(Ok(MakeMoveResponse { board: two_by_three(), result: Some(false) }));
    assert!(matches!(st, MoveStatus::Lost));
    assert!(s.is_over());
}

#[test]
fn move_without_result_continues_with_new_board() {
    let mut s = GameSession::new(9, two_by_three());
    let b = board_of(&[&["1", " ", " "]]);
    let st = s.apply_response(Ok(MakeMoveResponse { board: b.clone(), result: None }));
    assert!(matches!(st, MoveStatus::Continue));
    assert!(!s.is_over());
    assert_eq!(s.board, b);
    assert_eq!(s.game_id, 9);
    assert_eq!(s.read_move("2 0"), MoveCommand::Submit(2, 0));
    assert_eq!(s.read_move("0 1"), MoveCommand::OutOfBounds);
}

#[test]
fn failed_move_keeps_board() {
    let mut s = GameSession::new(9, two_by_three());
    let st = s.apply_response(Err(ApiError::Http("reset".to_string())));
    assert!(matches!(st, MoveStatus::Rejected(ApiError::Http(_))));
    assert_eq!(s.board, two_by_three());
    assert!(!s.is_over());
}

#[test]
fn error_messages() {
    assert_eq!(ApiError::Http("x".to_string()).message(), "HTTP error: x");
    assert_eq!(
        ApiError::MissingCredentials.message(),
        "Missing credentials for authenticated request"
    );
    assert_eq!(ApiError::UnexpectedStatus(404, String::new()).message(), "Unexpected status 404");
    assert_eq!(
        ApiError::UnexpectedStatus(500, "oops".to_string()).message(),
        "Unexpected status 500: oops"
    );
}

#[test]
fn status_results() {
    assert!(status_result(200, String::new()).is_ok());
    assert!(status_result(204, String::new()).is_ok());
    assert!(matches!(
        status_result(409, "taken".to_string()),
        Err(ApiError::UnexpectedStatus(409, ref b)) if b == "taken"
    ));
    assert!(status_result(199, String::new()).is_err());
    assert!(status_result(300, String::new()).is_err());
}

#[test]
fn base_url_and_credentials() {
    assert_eq!(trim_base_url("http://localhost:8321//"), "http://localhost:8321");
    assert_eq!(trim_base_url("http://h"), "http://h");
    assert_eq!(trim_base_url("///"), "");
    let c = ServiceConfig::new("http://h/");
    assert_eq!(c.url("/user"), "http://h/user");
    assert!(matches!(c.require_credentials(), Err(ApiError::MissingCredentials)));
    let a = ServiceConfig::with_credentials("http://h", "ann", "pw");
    let creds: &Credentials = a.require_credentials().unwrap();
    assert_eq!(creds.username(), "ann");
    assert_eq!(creds.password(), "pw");
}

#[test]
fn prompts_with_defaults() {
    let p = prompt_with_default("API base URL", "http://localhost:8321");
    assert_eq!(p.label, "API base URL [http://localhost:8321]");
    assert_eq!(p.answer(""), "http://localhost:8321");
    assert_eq!(p.answer("http://x"), "http://x");
    let n = number_prompt("Board width", 10);
    assert_eq!(n.label, "Board width [10]");
    assert_eq!(n.answer(""), "10");
    assert_eq!(required_answer(""), None);
    assert_eq!(required_answer("bob"), Some("bob".to_string()));
}
