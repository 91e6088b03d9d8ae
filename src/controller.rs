use vstd::prelude::*;
use crate::board::{InsertError, Piece, numpad_position, square_index};
use crate::game::{GameSession, GameState, state_after};
use crate::input::{Answer, answer_of, parse_number, parsed_number, read_answer, same_text, trim_line, trimmed};

verus! {

/// Running totals over the matches of one sitting.
#[derive(Debug, PartialEq, Eq, Structural, Clone, Copy)]
pub struct Scores {
    /// Matches won by X.
    pub x: u32,
    /// Matches won by O.
    pub o: u32,
    /// Drawn matches.
    pub cat: u32,
}

/// What the controller is waiting for.
#[derive(Debug, PartialEq, Eq, Structural, Clone, Copy)]
pub enum Phase {
    /// A move, or the quit token.
    Playing,
    /// An answer to "Are you sure you want to quit?".
    ConfirmQuit,
    /// An answer to "Play again?".
    ConfirmReplay,
    /// Nothing: the sitting is over.
    Done,
}

/// What the players are to be told after a line of input.
#[derive(Debug, PartialEq, Eq, Structural, Clone, Copy)]
pub enum Reply {
    /// Ask whether they really want to quit.
    AskQuit,
    /// The line was not a number.
    NotANumber,
    /// The number is not a key of the board.
    NotOnBoard,
    /// The key's square is taken.
    Occupied,
    /// The move was made and the other marker is to move.
    Moved,
    /// The move won the match for the marker; ask whether to play again.
    Won(Piece),
    /// The move filled the board with no winner; ask whether to play again.
    Draw,
    /// The quit was called off; the match goes on.
    Resume,
    /// A new match starts on an empty board.
    NewMatch,
    /// The answer was neither yes nor no; ask again.
    AskAgain,
    /// The sitting is over.
    Goodbye,
}

/// The text that asks to quit.
pub open spec fn is_quit(s: Seq<char>) -> bool {
    s == "q"@
}

/// The scores after a match that ended in `state`.
pub open spec fn scores_after(sc: Scores, state: GameState) -> Scores {
    match state {
        GameState::Won(Piece::X) => Scores { x: (sc.x + 1) as u32, ..sc },
        GameState::Won(Piece::O) => Scores { o: (sc.o + 1) as u32, ..sc },
        _ => Scores { cat: (sc.cat + 1) as u32, ..sc },
    }
}

/// The controller as the rules see it: the phase, the squares and state of
/// the current match, and the scores.
pub struct ControllerModel {
    pub phase: Phase,
    pub squares: Seq<Option<Piece>>,
    pub state: GameState,
    pub scores: Scores,
}

/// A model in the given phase, otherwise unchanged.
pub open spec fn with_phase(m: ControllerModel, phase: Phase) -> ControllerModel {
    ControllerModel { phase, ..m }
}

/// The model after the marker to move plays the free square at index `i`.
pub open spec fn after_move(m: ControllerModel, i: int) -> (ControllerModel, Reply) {
    let mover = m.state->InProgress_0;
    let s = m.squares.update(i, Some(mover));
    let state = state_after(s, mover);
    match state {
        GameState::InProgress(_) => (ControllerModel { squares: s, state, ..m }, Reply::Moved),
        GameState::Won(p) => (
            ControllerModel {
                phase: Phase::ConfirmReplay,
                squares: s,
                state,
                scores: scores_after(m.scores, state),
            },
            Reply::Won(p),
        ),
        GameState::Draw => (
            ControllerModel {
                phase: Phase::ConfirmReplay,
                squares: s,
                state,
                scores: scores_after(m.scores, state),
            },
            Reply::Draw,
        ),
    }
}

/// What one line of input (already trimmed) does to the controller, and what
/// the players are told.
pub open spec fn next(m: ControllerModel, input: Seq<char>) -> (ControllerModel, Reply) {
    match m.phase {
        Phase::Playing => if is_quit(input) {
            (with_phase(m, Phase::ConfirmQuit), Reply::AskQuit)
        } else {
            match parsed_number(input) {
                None => (m, Reply::NotANumber),
                Some(key) => match numpad_position(key) {
                    None => (m, Reply::NotOnBoard),
                    Some(pos) => {
                        let i = square_index(pos.0 as int, pos.1 as int);
                        if m.squares[i] is Some {
                            (m, Reply::Occupied)
                        } else {
                            after_move(m, i)
                        }
                    },
                },
            }
        },
        Phase::ConfirmQuit => match answer_of(input) {
            Answer::Yes => (with_phase(m, Phase::Done), Reply::Goodbye),
            Answer::No => (with_phase(m, Phase::Playing), Reply::Resume),
            Answer::Unclear => (m, Reply::AskAgain),
        },
        Phase::ConfirmReplay => match answer_of(input) {
            Answer::Yes => (
                ControllerModel {
                    phase: Phase::Playing,
                    squares: Seq::new(9, |i: int| None::<Piece>),
                    state: GameState::InProgress(Piece::X),
                    scores: m.scores,
                },
                Reply::NewMatch,
            ),
            Answer::No => (with_phase(m, Phase::Done), Reply::Goodbye),
            Answer::Unclear => (m, Reply::AskAgain),
        },
        Phase::Done => (m, Reply::Goodbye),
    }
}

/// Runs consecutive matches from lines of input, keeping the score.
pub struct LocalController {
    session: GameSession,
    phase: Phase,
    scores: Scores,
}

impl View for LocalController {
    type V = ControllerModel;

    closed spec fn view(&self) -> ControllerModel {
        ControllerModel {
            phase: self.phase,
            squares: self.session.squares(),
            state: self.session.state_of(),
            scores: self.scores,
        }
    }
}

impl LocalController {
    /// The session is well formed; it is in progress while a move or a quit
    /// confirmation is awaited, and finished while a replay is asked for.
    pub closed spec fn wf(&self) -> bool {
        &&& self.session.wf()
        &&& (self.phase == Phase::Playing || self.phase == Phase::ConfirmQuit)
            ==> self.session.state_of() is InProgress
        &&& self.phase == Phase::ConfirmReplay ==> self.session.state_of() !is InProgress
    }

    /// The first match, X to move, all scores zero.
    pub fn new() -> (c: LocalController)
        ensures
            c.wf(),
            c@.phase == Phase::Playing,
            c@.squares == Seq::new(9, |i: int| None::<Piece>),
            c@.state == GameState::InProgress(Piece::X),
            c@.scores == (Scores { x: 0, o: 0, cat: 0 }),
    {
        LocalController {
            session: GameSession::new(),
            phase: Phase::Playing,
            scores: Scores { x: 0, o: 0, cat: 0 },
        }
    }

    pub fn phase(&self) -> (r: Phase)
        ensures
            r == self@.phase,
    {
        self.phase
    }

    pub fn scores(&self) -> (r: Scores)
        ensures
            r == self@.scores,
    {
        self.scores
    }

    /// The current match.
    pub fn session(&self) -> (r: &GameSession)
        requires
            self.wf(),
        ensures
            r.squares() == self@.squares,
            r.state_of() == self@.state,
            r.wf(),
    {
        &self.session
    }

    /// Whether every score can take one more match.
    pub fn can_count(&self) -> (r: bool)
        ensures
            r == (self@.scores.x < u32::MAX && self@.scores.o < u32::MAX && self@.scores.cat
                < u32::MAX),
    {
        self.scores.x < u32::MAX && self.scores.o < u32::MAX && self.scores.cat < u32::MAX
    }

    /// Takes one line of input, without its surrounding white space.
    pub fn handle_input(&mut self, input: &str) -> (r: Reply)
        requires
            old(self).wf(),
            old(self)@.scores.x < u32::MAX,
            old(self)@.scores.o < u32::MAX,
            old(self)@.scores.cat < u32::MAX,
        ensures
            final(self).wf(),
            (final(self)@, r) == next(old(self)@, input@),
    {
        match self.phase {
            Phase::Playing => {
                if same_text(input, "q") {
                    self.phase = Phase::ConfirmQuit;
                    return Reply::AskQuit;
                }
                let key = match parse_number(input) {
                    None => {
                        return Reply::NotANumber;
                    },
                    Some(k) => k,
                };
                match self.session.play(key) {
                    Err(InsertError::InvalidButton) => Reply::NotOnBoard,
                    Err(InsertError::AlreadyOccupied) => Reply::Occupied,
                    Ok(GameState::Won(p)) => {
                        match p {
                            Piece::X => self.scores.x = self.scores.x + 1,
                            Piece::O => self.scores.o = self.scores.o + 1,
                        }
                        self.phase = Phase::ConfirmReplay;
                        Reply::Won(p)
                    },
                    Ok(GameState::Draw) => {
                        self.scores.cat = self.scores.cat + 1;
                        self.phase = Phase::ConfirmReplay;
                        Reply::Draw
                    },
                    Ok(GameState::InProgress(_)) => Reply::Moved,
                }
            },
            Phase::ConfirmQuit => match read_answer(input) {
                Answer::Yes => {
                    self.phase = Phase::Done;
                    Reply::Goodbye
                },
                Answer::No => {
                    self.phase = Phase::Playing;
                    Reply::Resume
                },
                Answer::Unclear => Reply::AskAgain,
            },
            Phase::ConfirmReplay => match read_answer(input) {
                Answer::Yes => {
                    self.session = GameSession::new();
                    self.phase = Phase::Playing;
                    Reply::NewMatch
                },
                Answer::No => {
                    self.phase = Phase::Done;
                    Reply::Goodbye
                },
                Answer::Unclear => Reply::AskAgain,
            },
            Phase::Done => Reply::Goodbye,
        }
    }

    /// Takes one line as read from the players.
    pub fn handle_line(&mut self, line: &str) -> (r: Reply)
        requires
            old(self).wf(),
            old(self)@.scores.x < u32::MAX,
            old(self)@.scores.o < u32::MAX,
            old(self)@.scores.cat < u32::MAX,
        ensures
            final(self).wf(),
            (final(self)@, r) == next(old(self)@, trimmed(line@)),
    {
        self.handle_input(trim_line(line))
    }
}

/// The scores change only when a match ends: the line that ends it adds one
/// to the counter of its outcome, and every other line leaves them as they
/// were, so no counter ever goes down.
pub proof fn lemma_scores_count_matches(m: ControllerModel, input: Seq<char>)
    requires
        m.scores.x < u32::MAX,
        m.scores.o < u32::MAX,
        m.scores.cat < u32::MAX,
    ensures
        ({
            let (n, r) = next(m, input);
            match r {
                Reply::Won(Piece::X) => n.scores == Scores { x: (m.scores.x + 1) as u32, ..m.scores },
                Reply::Won(Piece::O) => n.scores == Scores { o: (m.scores.o + 1) as u32, ..m.scores },
                Reply::Draw => n.scores == Scores { cat: (m.scores.cat + 1) as u32, ..m.scores },
                _ => n.scores == m.scores,
            }
        }),
        next(m, input).0.scores.x >= m.scores.x,
        next(m, input).0.scores.o >= m.scores.o,
        next(m, input).0.scores.cat >= m.scores.cat,
{
}

} // verus!
