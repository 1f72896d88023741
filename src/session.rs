use vstd::prelude::*;

use crate::api::{ApiError, MakeMoveResponse, UnfinishedGame};
use crate::board::{board_height, board_width, in_bounds, Board};
use crate::text::{
    decimal, decimal_text, parse_i32, parse_i32_spec, signed_decimal, signed_decimal_text,
    split_words, words,
};

verus! {

/// An error with status `code`.
pub open spec fn has_status<T>(r: Result<T, ApiError>, code: u16) -> bool {
    r is Err && r->Err_0 is UnexpectedStatus && r->Err_0->UnexpectedStatus_0 == code
}

/// Status of the service for a username that is already taken.
pub const CONFLICT: u16 = 409;

/// Status of the service for a wrong password.
pub const UNAUTHORIZED: u16 = 401;

/// What startup does once the account-creation request has been answered.
#[derive(Debug)]
pub enum AccountStep {
    /// The account was made.
    Created,
    /// The username was taken: go on as if it had been made.
    AlreadyExists,
    /// Any other failure ends startup.
    Abort(ApiError),
}

pub open spec fn account_step_spec(r: Result<(), ApiError>) -> AccountStep {
    if r is Ok {
        AccountStep::Created
    } else if has_status(r, CONFLICT) {
        AccountStep::AlreadyExists
    } else {
        AccountStep::Abort(r->Err_0)
    }
}

/// Startup goes on to sign-in after this step.
pub open spec fn account_proceeds(s: AccountStep) -> bool {
    !(s is Abort)
}

/// Decides on the answer to the account-creation request.
pub fn account_step(r: Result<(), ApiError>) -> (s: AccountStep)
    ensures
        s == account_step_spec(r),
        account_proceeds(s) <==> (r is Ok || has_status(r, CONFLICT)),
{
    match r {
        Ok(()) => AccountStep::Created,
        Err(ApiError::UnexpectedStatus(code, body)) => {
            if code == CONFLICT {
                AccountStep::AlreadyExists
            } else {
                AccountStep::Abort(ApiError::UnexpectedStatus(code, body))
            }
        },
        Err(e) => AccountStep::Abort(e),
    }
}

impl AccountStep {
    /// Startup goes on to sign-in.
    pub fn proceeds(&self) -> (r: bool)
        ensures
            r == account_proceeds(*self),
    {
        !matches!(self, AccountStep::Abort(_))
    }
}

/// Asking for an account whose username is taken lets startup go on exactly as a new
/// account does.
pub proof fn taken_username_proceeds(body: String)
    ensures
        account_proceeds(account_step_spec(Err(ApiError::UnexpectedStatus(CONFLICT, body)))),
        account_proceeds(account_step_spec(Ok(()))),
{
}

/// What sign-in does once the request for the user's stats has been answered.
#[derive(Debug, PartialEq, Eq)]
pub enum LoginStep {
    /// Signed in: the stats can be shown.
    LoggedIn,
    /// Wrong password: ask for it again.
    AskPasswordAgain,
    /// Any other failure ends startup.
    Abort,
}

pub open spec fn login_step_spec<T>(r: Result<T, ApiError>) -> LoginStep {
    if r is Ok {
        LoginStep::LoggedIn
    } else if has_status(r, UNAUTHORIZED) {
        LoginStep::AskPasswordAgain
    } else {
        LoginStep::Abort
    }
}

/// Decides on the answer to a signed-in request for the user's stats.
pub fn login_step<T>(r: &Result<T, ApiError>) -> (s: LoginStep)
    ensures
        s == login_step_spec(*r),
{
    match r {
        Ok(_) => LoginStep::LoggedIn,
        Err(ApiError::UnexpectedStatus(code, _)) => {
            if *code == UNAUTHORIZED {
                LoginStep::AskPasswordAgain
            } else {
                LoginStep::Abort
            }
        },
        Err(_) => LoginStep::Abort,
    }
}

/// Outcome of a series of sign-in attempts: the first that does not ask for the
/// password again decides; none while every attempt asks again.
pub open spec fn login_outcome(attempts: Seq<Result<(), ApiError>>) -> Option<LoginStep>
    decreases attempts.len(),
{
    if attempts.len() == 0 {
        None
    } else if login_step_spec(attempts[0]) == LoginStep::AskPasswordAgain {
        login_outcome(attempts.drop_first())
    } else {
        Some(login_step_spec(attempts[0]))
    }
}

/// However many wrong-password answers come in a row, sign-in keeps asking and never
/// aborts; a success after them signs in.
pub proof fn wrong_passwords_ask_again(attempts: Seq<Result<(), ApiError>>)
    requires
        forall|i: int| 0 <= i < attempts.len() ==> has_status(#[trigger] attempts[i], UNAUTHORIZED),
    ensures
        login_outcome(attempts) is None,
        login_outcome(attempts.push(Ok(()))) == Some(LoginStep::LoggedIn),
    decreases attempts.len(),
{
    if attempts.len() > 0 {
        let rest = attempts.drop_first();
        assert(forall|i: int| 0 <= i < rest.len() ==> rest[i] == attempts[i + 1]);
        wrong_passwords_ask_again(rest);
        assert(attempts.push(Ok(())).drop_first() =~= rest.push(Ok(())));
    }
}

/// An entry of the main menu.
#[derive(Debug, PartialEq, Eq)]
pub enum MenuChoice {
    NewGame,
    Resume,
    Stats,
    Quit,
    Unknown,
}

pub open spec fn menu_choice_spec(s: Seq<char>) -> MenuChoice {
    if s == seq!['1'] {
        MenuChoice::NewGame
    } else if s == seq!['2'] {
        MenuChoice::Resume
    } else if s == seq!['3'] {
        MenuChoice::Stats
    } else if s == seq!['q'] || s == seq!['Q'] {
        MenuChoice::Quit
    } else {
        MenuChoice::Unknown
    }
}

/// Reads a menu entry.
pub fn menu_choice(input: &str) -> (r: MenuChoice)
    ensures
        r == menu_choice_spec(input@),
{
    if input.unicode_len() != 1 {
        return MenuChoice::Unknown;
    }
    let c = input.get_char(0);
    assert(input@ =~= seq![c]);
    if c == '1' {
        MenuChoice::NewGame
    } else if c == '2' {
        MenuChoice::Resume
    } else if c == '3' {
        MenuChoice::Stats
    } else if c == 'q' || c == 'Q' {
        MenuChoice::Quit
    } else {
        MenuChoice::Unknown
    }
}

/// Why a board size cannot be asked for.
#[derive(Debug, PartialEq, Eq)]
pub enum SizeError {
    /// The width or the height is below 1.
    TooSmall,
    /// The number of cells does not fit in an `i32`.
    TooLarge,
}

/// Checks a board size and gives its number of cells, the most bombs it can hold.
pub fn bomb_capacity(width: i32, height: i32) -> (r: Result<i32, SizeError>)
    ensures
        (width < 1 || height < 1) ==> r == Err::<i32, SizeError>(SizeError::TooSmall),
        (width >= 1 && height >= 1 && width * height <= i32::MAX) ==> r == Ok::<i32, SizeError>(
            (width * height) as i32,
        ),
        (width >= 1 && height >= 1 && width * height > i32::MAX) ==> r == Err::<i32, SizeError>(
            SizeError::TooLarge,
        ),
{
    if width < 1 || height < 1 {
        return Err(SizeError::TooSmall);
    }
    proof {
        assert(0 < width as int * height as int <= i32::MAX as int * i32::MAX as int) by (nonlinear_arith)
            requires
                1 <= width <= i32::MAX,
                1 <= height <= i32::MAX,
        ;
    }
    let cells: i64 = width as i64 * height as i64;
    if cells > i32::MAX as i64 {
        Err(SizeError::TooLarge)
    } else {
        Ok(cells as i32)
    }
}

/// The bomb count offered by default on a board of `capacity` cells.
pub open spec fn default_bombs_spec(capacity: int) -> int {
    if capacity / 6 > 1 {
        capacity / 6
    } else {
        1
    }
}

/// Offers a sixth of the cells as bombs, and at least one.
pub fn default_bomb_count(capacity: i32) -> (r: i32)
    requires
        capacity >= 1,
    ensures
        r == default_bombs_spec(capacity as int),
{
    let sixth = capacity / 6;
    if sixth > 1 {
        sixth
    } else {
        1
    }
}

/// A bomb count can be asked for on a board of `capacity` cells.
pub fn bomb_count_ok(bombs: i32, capacity: i32) -> (r: bool)
    ensures
        r == (1 <= bombs && bombs <= capacity),
{
    1 <= bombs && bombs <= capacity
}

/// Index into a list of `count` games for a choice numbered from 1.
pub fn select_game(count: usize, choice: i32) -> (r: Option<usize>)
    ensures
        (1 <= choice && choice <= count) ==> r == Some((choice - 1) as usize),
        !(1 <= choice && choice <= count) ==> r is None,
{
    if choice < 1 || choice as usize > count {
        None
    } else {
        Some((choice - 1) as usize)
    }
}

/// The line that lists a game at `position` (from 0) in the list of unfinished games.
pub open spec fn summary_line_spec(position: nat, game: UnfinishedGame) -> Seq<char> {
    decimal(position + 1) + ") Game #"@ + signed_decimal(game.id as int) + " - "@ + decimal(
        board_width(game.board.deep_view()),
    ) + "x"@ + decimal(board_height(game.board.deep_view())) + " board, moves: "@
        + signed_decimal(game.moves_count as int) + ", updated: "@ + game.updated_at@
}

/// Describes a game in the list of unfinished games.
pub fn summary_line(position: usize, game: &UnfinishedGame) -> (r: String)
    requires
        position < usize::MAX,
    ensures
        r@ == summary_line_spec(position as nat, *game),
{
    let height = game.board.len();
    let width = if height == 0 {
        0
    } else {
        game.board[0].len()
    };
    let mut r = decimal_text((position + 1) as u64);
    r.append(") Game #");
    r.append(signed_decimal_text(game.id as i64).as_str());
    r.append(" - ");
    r.append(decimal_text(width as u64).as_str());
    r.append("x");
    r.append(decimal_text(height as u64).as_str());
    r.append(" board, moves: ");
    r.append(signed_decimal_text(game.moves_count as i64).as_str());
    r.append(", updated: ");
    r.append(game.updated_at.as_str());
    r
}

/// What to do with a line typed during a game.
#[derive(Debug, PartialEq, Eq)]
pub enum MoveCommand {
    /// The game has ended: no more moves.
    Finished,
    /// Back to the menu, leaving the game as it is.
    Quit,
    /// The line is not two words.
    NotTwoWords,
    /// The first word is not an `i32`.
    BadX,
    /// The second word is not an `i32`.
    BadY,
    /// The board has no rows: the game cannot go on.
    EmptyBoard,
    /// The cell is off the board.
    OutOfBounds,
    /// Send this move to the service.
    Submit(i32, i32),
}

/// The line that leaves a game: `q` in either case.
pub open spec fn is_quit(line: Seq<char>) -> bool {
    line == seq!['q'] || line == seq!['Q']
}

pub open spec fn move_command_spec(
    outcome: Option<bool>,
    b: Seq<Seq<Seq<char>>>,
    line: Seq<char>,
) -> MoveCommand {
    let w = words(line);
    if outcome is Some {
        MoveCommand::Finished
    } else if is_quit(line) {
        MoveCommand::Quit
    } else if w.len() != 2 {
        MoveCommand::NotTwoWords
    } else if parse_i32_spec(w[0]) is None {
        MoveCommand::BadX
    } else if parse_i32_spec(w[1]) is None {
        MoveCommand::BadY
    } else if b.len() == 0 {
        MoveCommand::EmptyBoard
    } else {
        let x = parse_i32_spec(w[0])->Some_0;
        let y = parse_i32_spec(w[1])->Some_0;
        if in_bounds(b, x as int, y as int) {
            MoveCommand::Submit(x, y)
        } else {
            MoveCommand::OutOfBounds
        }
    }
}

/// A move is only ever sent while the game is on, for a cell of the board as it is
/// now, and never for a board without rows.
pub proof fn submitted_moves_are_on_board(
    outcome: Option<bool>,
    b: Seq<Seq<Seq<char>>>,
    line: Seq<char>,
)
    ensures
        ({
            let c = move_command_spec(outcome, b, line);
            c is Submit ==> outcome is None && b.len() > 0 && 0 <= c->Submit_0 < board_width(b)
                && 0 <= c->Submit_1 < board_height(b)
        }),
{
}

/// How a move's answer left the game.
#[derive(Debug)]
pub enum MoveStatus {
    /// The move failed: the board is as it was, and the player may try again.
    Rejected(ApiError),
    /// The game goes on.
    Continue,
    /// The game has ended in a win.
    Won,
    /// The game has ended on a bomb.
    Lost,
}

pub open spec fn outcome_status(result: Option<bool>) -> MoveStatus {
    match result {
        Some(true) => MoveStatus::Won,
        Some(false) => MoveStatus::Lost,
        None => MoveStatus::Continue,
    }
}

/// A game being played: its id, the latest board, and its outcome once it has ended.
pub struct GameSession {
    pub game_id: i32,
    pub board: Board,
    pub outcome: Option<bool>,
}

impl GameSession {
    /// A game on, with the board the service last gave.
    pub fn new(game_id: i32, board: Board) -> (r: GameSession)
        ensures
            r.game_id == game_id,
            r.board == board,
            r.outcome is None,
    {
        GameSession { game_id, board, outcome: None }
    }

    /// The game has ended.
    pub fn is_over(&self) -> (r: bool)
        ensures
            r == self.outcome is Some,
    {
        self.outcome.is_some()
    }

    /// Decides what a typed line asks for, against the board as it is now.
    pub fn read_move(&self, line: &str) -> (r: MoveCommand)
        ensures
            r == move_command_spec(self.outcome, self.board.deep_view(), line@),
            r is Submit ==> self.outcome is None && in_bounds(
                self.board.deep_view(),
                r->Submit_0 as int,
                r->Submit_1 as int,
            ),
    {
        if self.outcome.is_some() {
            return MoveCommand::Finished;
        }
        if line.unicode_len() == 1 {
            let c = line.get_char(0);
            if c == 'q' || c == 'Q' {
                assert(line@ =~= seq![c]);
                return MoveCommand::Quit;
            }
        }
        let w = split_words(line);
        if w.len() != 2 {
            return MoveCommand::NotTwoWords;
        }
        assert(w[0]@ == words(line@)[0]);
        assert(w[1]@ == words(line@)[1]);
        let x = match parse_i32(w[0].as_str()) {
            Some(v) => v,
            None => {
                return MoveCommand::BadX;
            },
        };
        let y = match parse_i32(w[1].as_str()) {
            Some(v) => v,
            None => {
                return MoveCommand::BadY;
            },
        };
        let height = self.board.len();
        if height == 0 {
            return MoveCommand::EmptyBoard;
        }
        let width = self.board[0].len();
        if x < 0 || y < 0 || x as usize >= width || y as usize >= height {
            MoveCommand::OutOfBounds
        } else {
            MoveCommand::Submit(x, y)
        }
    }

    /// Takes in the answer to a move: on success the board is replaced by the one
    /// returned, and a result ends the game; on failure nothing changes.
    pub fn apply_response(&mut self, response: Result<MakeMoveResponse, ApiError>) -> (r:
        MoveStatus)
        requires
            old(self).outcome is None,
        ensures
            final(self).game_id == old(self).game_id,
            response is Err ==> r == MoveStatus::Rejected(response->Err_0) && *final(self)
                == *old(self),
            response is Ok ==> final(self).board == response->Ok_0.board && final(self).outcome
                == response->Ok_0.result && r == outcome_status(response->Ok_0.result),
    {
        match response {
            Err(e) => MoveStatus::Rejected(e),
            Ok(m) => {
                self.board = m.board;
                self.outcome = m.result;
                match m.result {
                    Some(true) => MoveStatus::Won,
                    Some(false) => MoveStatus::Lost,
                    None => MoveStatus::Continue,
                }
            },
        }
    }
}

} // verus!
