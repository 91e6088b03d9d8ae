use vstd::prelude::*;
use crate::board::{
    Board,
    InsertError,
    Piece,
    filled_count,
    full,
    lemma_empty_count,
    lemma_fill_one,
    numpad_position,
    other_piece,
    over,
    square_index,
    winner_of,
};

verus! {

/// Where a match stands.
#[derive(Debug, PartialEq, Eq, Structural, Clone, Copy)]
pub enum GameState {
    /// The match goes on; the marker is the one to move.
    InProgress(Piece),
    /// The marker completed a line.
    Won(Piece),
    /// The board filled up with no line complete.
    Draw,
}

/// The marker to move after `moves` successful moves from the empty board.
pub open spec fn turn_after(moves: nat) -> Piece {
    if moves % 2 == 0 {
        Piece::X
    } else {
        Piece::O
    }
}

/// The state after `mover` has played on a board that now reads `s`.
pub open spec fn state_after(s: Seq<Option<Piece>>, mover: Piece) -> GameState {
    match winner_of(s) {
        Some(p) => GameState::Won(p),
        None => if full(s) {
            GameState::Draw
        } else {
            GameState::InProgress(other_piece(mover))
        },
    }
}

/// One match: a board and the state of play on it.
pub struct GameSession {
    board: Board,
    state: GameState,
}

impl GameSession {
    /// The squares of the session's board.
    pub closed spec fn squares(&self) -> Seq<Option<Piece>> {
        self.board@
    }

    pub closed spec fn state_of(&self) -> GameState {
        self.state
    }

    /// The number of successful moves made so far.
    pub open spec fn moves(&self) -> nat {
        filled_count(self.squares())
    }

    /// The state agrees with the board: a match in progress has neither a
    /// winner nor a full board and the turn follows the number of moves; a
    /// finished one records the winner or a draw.
    pub open spec fn wf(&self) -> bool {
        &&& self.squares().len() == 9
        &&& match self.state_of() {
            GameState::InProgress(t) => !over(self.squares()) && t == turn_after(self.moves()),
            GameState::Won(p) => winner_of(self.squares()) == Some(p),
            GameState::Draw => winner_of(self.squares()) is None && full(self.squares()),
        }
    }

    /// A match on the empty board, with X to move.
    pub fn new() -> (g: GameSession)
        ensures
            g.wf(),
            g.squares() == Seq::new(9, |i: int| None::<Piece>),
            g.state_of() == GameState::InProgress(Piece::X),
            g.moves() == 0,
    {
        let board = Board::new();
        let g = GameSession { board, state: GameState::InProgress(Piece::X) };
        proof {
            lemma_empty_count(9);
            assert(!full(g.squares())) by {
                assert(g.squares()[0] is None);
            }
        }
        g
    }

    /// The state of play.
    pub fn state(&self) -> (r: GameState)
        ensures
            r == self.state_of(),
    {
        self.state
    }

    /// The board the match is played on.
    pub fn board(&self) -> (r: &Board)
        ensures
            r@ == self.squares(),
    {
        &self.board
    }

    /// The marker to move plays the numpad key `key`. A key that selects no
    /// square, or an occupied one, changes nothing and is reported. Otherwise
    /// the marker is placed and the match is won, drawn, or passes to the
    /// other marker.
    pub fn play(&mut self, key: usize) -> (r: Result<GameState, InsertError>)
        requires
            old(self).wf(),
            old(self).state_of() is InProgress,
        ensures
            final(self).wf(),
            match numpad_position(key) {
                None => {
                    &&& r == Err::<GameState, InsertError>(InsertError::InvalidButton)
                    &&& final(self).squares() == old(self).squares()
                    &&& final(self).state_of() == old(self).state_of()
                },
                Some(pos) => {
                    let i = square_index(pos.0 as int, pos.1 as int);
                    if old(self).squares()[i] is Some {
                        &&& r == Err::<GameState, InsertError>(InsertError::AlreadyOccupied)
                        &&& final(self).squares() == old(self).squares()
                        &&& final(self).state_of() == old(self).state_of()
                    } else {
                        let mover = old(self).state_of()->InProgress_0;
                        &&& final(self).squares() == old(self).squares().update(i, Some(mover))
                        &&& final(self).state_of() == state_after(final(self).squares(), mover)
                        &&& r == Ok::<GameState, InsertError>(final(self).state_of())
                        &&& final(self).moves() == old(self).moves() + 1
                    }
                },
            },
    {
        let mover = match self.state {
            GameState::InProgress(t) => t,
            _ => Piece::X,
        };
        proof {
            self.board.lemma_len();
        }
        match self.board.numpad_insert(key, mover) {
            Err(e) => Err(e),
            Ok(()) => {
                proof {
                    let pos = numpad_position(key)->Some_0;
                    lemma_fill_one(old(self).squares(), square_index(pos.0 as int, pos.1 as int), mover);
                }
                let next = match self.board.winner() {
                    Some(p) => GameState::Won(p),
                    None => if self.board.is_full() {
                        GameState::Draw
                    } else {
                        GameState::InProgress(mover.other())
                    },
                };
                self.state = next;
                Ok(next)
            },
        }
    }
}

/// Along a match, each successful move hands the turn to the other marker:
/// after an even number of moves X is to move, after an odd number O.
pub proof fn lemma_turn_alternates(g: GameSession)
    requires
        g.wf(),
        g.state_of() is InProgress,
    ensures
        g.moves() % 2 == 0 ==> g.state_of() == GameState::InProgress(Piece::X),
        g.moves() % 2 == 1 ==> g.state_of() == GameState::InProgress(Piece::O),
{
}

} // verus!
