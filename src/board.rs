use vstd::prelude::*;
use vstd::string::*;

verus! {

/// One of the two markers a player puts on the board.
#[derive(Debug, PartialEq, Eq, Structural, Clone, Copy)]
pub enum Piece {
    X,
    O,
}

/// A 3x3 board; the square at (row, col) is stored at index `row * 3 + col`.
#[derive(Debug, PartialEq, Eq, Clone, Copy)]
pub struct Board {
    squares: [Option<Piece>; 9],
}

/// Why a numpad key could not be played.
#[derive(Debug, PartialEq, Eq, Structural, Clone, Copy)]
pub enum InsertError {
    /// The key is not one of the digits 1 to 9.
    InvalidButton,
    /// The square the key selects already holds a marker.
    AlreadyOccupied,
}

/// What a marker looks like on screen.
pub open spec fn symbol_text(p: Piece) -> Seq<char> {
    match p {
        Piece::X => "X"@,
        Piece::O => "O"@,
    }
}

/// The marker that moves after `p`.
pub open spec fn other_piece(p: Piece) -> Piece {
    match p {
        Piece::X => Piece::O,
        Piece::O => Piece::X,
    }
}

impl Piece {
    /// The marker's symbol, "X" or "O".
    pub fn symbol(&self) -> (r: &'static str)
        ensures
            r@ == symbol_text(*self),
    {
        match self {
            Piece::X => "X",
            Piece::O => "O",
        }
    }

    /// The opponent's marker.
    pub fn other(&self) -> (r: Piece)
        ensures
            r == other_piece(*self),
    {
        match self {
            Piece::X => Piece::O,
            Piece::O => Piece::X,
        }
    }
}

/// The numpad layout: 7 8 9 on the top row, 4 5 6 in the middle, 1 2 3 at the bottom.
pub open spec fn numpad_position(key: usize) -> Option<(usize, usize)> {
    match key {
        7 => Some((0usize, 0usize)),
        8 => Some((0usize, 1usize)),
        9 => Some((0usize, 2usize)),
        4 => Some((1usize, 0usize)),
        5 => Some((1usize, 1usize)),
        6 => Some((1usize, 2usize)),
        1 => Some((2usize, 0usize)),
        2 => Some((2usize, 1usize)),
        3 => Some((2usize, 2usize)),
        _ => None,
    }
}

/// Index of (row, col) in the row-major sequence of squares.
pub open spec fn square_index(row: int, col: int) -> int {
    row * 3 + col
}

/// The squares at `a`, `b` and `c` hold the same marker.
pub open spec fn line_complete(s: Seq<Option<Piece>>, a: int, b: int, c: int) -> bool {
    &&& s[a] is Some
    &&& s[a] == s[b]
    &&& s[b] == s[c]
}

pub open spec fn row_complete(s: Seq<Option<Piece>>, row: int) -> bool {
    line_complete(s, row * 3, row * 3 + 1, row * 3 + 2)
}

pub open spec fn col_complete(s: Seq<Option<Piece>>, col: int) -> bool {
    line_complete(s, col, col + 3, col + 6)
}

pub open spec fn diag_complete(s: Seq<Option<Piece>>) -> bool {
    line_complete(s, 0, 4, 8)
}

pub open spec fn anti_diag_complete(s: Seq<Option<Piece>>) -> bool {
    line_complete(s, 2, 4, 6)
}

/// Some row, column or diagonal is filled with one marker.
pub open spec fn any_line_complete(s: Seq<Option<Piece>>) -> bool {
    ||| row_complete(s, 0)
    ||| row_complete(s, 1)
    ||| row_complete(s, 2)
    ||| col_complete(s, 0)
    ||| col_complete(s, 1)
    ||| col_complete(s, 2)
    ||| diag_complete(s)
    ||| anti_diag_complete(s)
}

/// The marker of the first complete line, looking at the rows top to bottom,
/// then the columns left to right, then the diagonal from the top left and
/// last the one from the top right.
pub open spec fn winner_of(s: Seq<Option<Piece>>) -> Option<Piece> {
    if row_complete(s, 0) {
        s[0]
    } else if row_complete(s, 1) {
        s[3]
    } else if row_complete(s, 2) {
        s[6]
    } else if col_complete(s, 0) {
        s[0]
    } else if col_complete(s, 1) {
        s[1]
    } else if col_complete(s, 2) {
        s[2]
    } else if diag_complete(s) {
        s[0]
    } else if anti_diag_complete(s) {
        s[2]
    } else {
        None
    }
}

/// Every square holds a marker.
pub open spec fn full(s: Seq<Option<Piece>>) -> bool {
    forall|i: int| 0 <= i < s.len() ==> (#[trigger] s[i]) is Some
}

pub open spec fn over(s: Seq<Option<Piece>>) -> bool {
    winner_of(s) is Some || full(s)
}

/// The number of squares that hold a marker.
pub open spec fn filled_count(s: Seq<Option<Piece>>) -> nat
    decreases s.len(),
{
    if s.len() == 0 {
        0
    } else {
        filled_count(s.drop_last()) + if s.last() is Some {
            1nat
        } else {
            0nat
        }
    }
}

/// The numpad key that selects the square at index `n`.
pub open spec fn key_for_index(n: int) -> int {
    9 - (n / 3) * 3 - (2 - n % 3)
}

/// What an empty square shows: the key that selects it.
pub open spec fn key_text(key: int) -> Seq<char> {
    if key == 1 {
        " 1 "@
    } else if key == 2 {
        " 2 "@
    } else if key == 3 {
        " 3 "@
    } else if key == 4 {
        " 4 "@
    } else if key == 5 {
        " 5 "@
    } else if key == 6 {
        " 6 "@
    } else if key == 7 {
        " 7 "@
    } else if key == 8 {
        " 8 "@
    } else {
        " 9 "@
    }
}

pub open spec fn square_text(s: Seq<Option<Piece>>, n: int) -> Seq<char> {
    match s[n] {
        Some(Piece::X) => " X "@,
        Some(Piece::O) => " O "@,
        None => key_text(key_for_index(n)),
    }
}

pub open spec fn row_text(s: Seq<Option<Piece>>, row: int) -> Seq<char> {
    square_text(s, row * 3) + "|"@ + square_text(s, row * 3 + 1) + "|"@ + square_text(
        s,
        row * 3 + 2,
    )
}

/// The three rows, separated by a divider line.
pub open spec fn board_text(s: Seq<Option<Piece>>) -> Seq<char> {
    row_text(s, 0) + "\n---+---+---\n"@ + row_text(s, 1) + "\n---+---+---\n"@ + row_text(s, 2)
}

impl View for Board {
    type V = Seq<Option<Piece>>;

    closed spec fn view(&self) -> Seq<Option<Piece>> {
        self.squares@
    }
}

impl Board {
    /// The square at (row, col).
    pub open spec fn cell(&self, row: int, col: int) -> Option<Piece> {
        self@[square_index(row, col)]
    }

    pub proof fn lemma_len(&self)
        ensures
            self@.len() == 9,
    {
    }

    /// The empty board.
    pub fn new() -> (b: Board)
        ensures
            b@ == Seq::new(9, |i: int| None::<Piece>),
    {
        let b = Board { squares: [None; 9] };
        assert(b@ =~= Seq::new(9, |i: int| None::<Piece>));
        b
    }

    /// A board holding the given squares, in row-major order.
    pub fn from_squares(squares: [Option<Piece>; 9]) -> (b: Board)
        ensures
            b@ == squares@,
    {
        Board { squares: squares }
    }

    /// The position a numpad key selects, if the key is one of 1 to 9.
    pub fn numpad_to_position(key: usize) -> (r: Option<(usize, usize)>)
        ensures
            r == numpad_position(key),
    {
        match key {
            7 => Some((0, 0)),
            8 => Some((0, 1)),
            9 => Some((0, 2)),
            4 => Some((1, 0)),
            5 => Some((1, 1)),
            6 => Some((1, 2)),
            1 => Some((2, 0)),
            2 => Some((2, 1)),
            3 => Some((2, 2)),
            _ => None,
        }
    }

    /// The square at `pos`; reading never changes the board.
    pub fn index(&self, pos: (usize, usize)) -> (r: Option<Piece>)
        requires
            pos.0 < 3,
            pos.1 < 3,
        ensures
            r == self.cell(pos.0 as int, pos.1 as int),
    {
        self.squares[pos.0 * 3 + pos.1]
    }

    /// Puts `piece` on the empty square at `pos`.
    pub fn place(&mut self, pos: (usize, usize), piece: Piece)
        requires
            pos.0 < 3,
            pos.1 < 3,
            old(self).cell(pos.0 as int, pos.1 as int) is None,
        ensures
            final(self)@ == old(self)@.update(square_index(pos.0 as int, pos.1 as int), Some(piece)),
    {
        self.squares[pos.0 * 3 + pos.1] = Some(piece);
    }

    /// Puts `val` on the square that `key` selects on the numpad. A key outside
    /// 1 to 9 gives `InvalidButton`, an occupied square `AlreadyOccupied`; in
    /// both cases the board is left as it was.
    pub fn numpad_insert(&mut self, key: usize, val: Piece) -> (r: Result<(), InsertError>)
        ensures
            match numpad_position(key) {
                None => r == Err::<(), InsertError>(InsertError::InvalidButton) && final(self)@
                    == old(self)@,
                Some(pos) => if old(self).cell(pos.0 as int, pos.1 as int) is Some {
                    r == Err::<(), InsertError>(InsertError::AlreadyOccupied) && final(self)@
                        == old(self)@
                } else {
                    r == Ok::<(), InsertError>(()) && final(self)@ == old(self)@.update(
                        square_index(pos.0 as int, pos.1 as int),
                        Some(val),
                    )
                },
            },
    {
        if let Some(pos) = Board::numpad_to_position(key) {
            if self.index(pos).is_none() {
                self.place(pos, val);
                Ok(())
            } else {
                Err(InsertError::AlreadyOccupied)
            }
        } else {
            Err(InsertError::InvalidButton)
        }
    }

    /// Every square holds a marker.
    pub fn is_full(&self) -> (r: bool)
        ensures
            r == full(self@),
    {
        let mut i: usize = 0;
        while i < 9
            invariant
                i <= 9,
                self@.len() == 9,
                forall|j: int| 0 <= j < i ==> (#[trigger] self@[j]) is Some,
            decreases 9 - i,
        {
            if self.squares[i].is_none() {
                return false;
            }
            i += 1;
        }
        true
    }

    /// The game has ended: someone has won or no square is left.
    pub fn game_over(&self) -> (r: bool)
        ensures
            r == over(self@),
    {
        self.winner().is_some() || self.is_full()
    }

    /// Whether the three positions hold one and the same marker.
    fn line_at(&self, a: (usize, usize), b: (usize, usize), c: (usize, usize)) -> (r: bool)
        requires
            a.0 < 3 && a.1 < 3,
            b.0 < 3 && b.1 < 3,
            c.0 < 3 && c.1 < 3,
        ensures
            r == line_complete(
                self@,
                square_index(a.0 as int, a.1 as int),
                square_index(b.0 as int, b.1 as int),
                square_index(c.0 as int, c.1 as int),
            ),
    {
        match (self.index(a), self.index(b), self.index(c)) {
            (Some(x), Some(y), Some(z)) => x == y && y == z,
            _ => false,
        }
    }

    /// The marker of the first complete line in the order rows, columns,
    /// diagonals; `None` when no line is complete.
    pub fn winner(&self) -> (r: Option<Piece>)
        ensures
            r == winner_of(self@),
            r is None <==> !any_line_complete(self@),
    {
        let mut row: usize = 0;
        while row < 3
            invariant
                row <= 3,
                forall|k: int| 0 <= k < row ==> !#[trigger] row_complete(self@, k),
            decreases 3 - row,
        {
            if self.line_at((row, 0), (row, 1), (row, 2)) {
                return self.index((row, 0));
            }
            row += 1;
        }
        let mut col: usize = 0;
        while col < 3
            invariant
                col <= 3,
                forall|k: int| 0 <= k < 3 ==> !#[trigger] row_complete(self@, k),
                forall|k: int| 0 <= k < col ==> !#[trigger] col_complete(self@, k),
            decreases 3 - col,
        {
            if self.line_at((0, col), (1, col), (2, col)) {
                return self.index((0, col));
            }
            col += 1;
        }
        assert(!row_complete(self@, 0) && !row_complete(self@, 1) && !row_complete(self@, 2));
        assert(!col_complete(self@, 0) && !col_complete(self@, 1) && !col_complete(self@, 2));
        if self.line_at((0, 0), (1, 1), (2, 2)) {
            self.index((0, 0))
        } else if self.line_at((0, 2), (1, 1), (2, 0)) {
            self.index((0, 2))
        } else {
            None
        }
    }

    /// The text of the square at index `n`.
    fn square_label(&self, n: usize) -> (r: &'static str)
        requires
            n < 9,
        ensures
            r@ == square_text(self@, n as int),
    {
        match self.squares[n] {
            Some(Piece::X) => " X ",
            Some(Piece::O) => " O ",
            None => key_label(9 - (n / 3) * 3 - (2 - n % 3)),
        }
    }

    /// Appends one row of the board to `out`.
    fn push_row(&self, out: &mut String, row: usize)
        requires
            row < 3,
        ensures
            final(out)@ == old(out)@ + row_text(self@, row as int),
    {
        out.append(self.square_label(row * 3));
        out.append("|");
        out.append(self.square_label(row * 3 + 1));
        out.append("|");
        out.append(self.square_label(row * 3 + 2));
        assert(final(out)@ =~= old(out)@ + row_text(self@, row as int));
    }

    /// The board as three rows of ` X | O | 3 ` cells between `---+---+---`
    /// dividers; an empty square shows the numpad key that selects it.
    pub fn render(&self) -> (r: String)
        ensures
            r@ == board_text(self@),
    {
        let mut out = String::new();
        self.push_row(&mut out, 0);
        out.append("\n---+---+---\n");
        self.push_row(&mut out, 1);
        out.append("\n---+---+---\n");
        self.push_row(&mut out, 2);
        assert(out@ =~= board_text(self@));
        out
    }
}

/// The label of an empty square selected by `key`.
fn key_label(key: usize) -> (r: &'static str)
    requires
        1 <= key <= 9,
    ensures
        r@ == key_text(key as int),
{
    match key {
        1 => " 1 ",
        2 => " 2 ",
        3 => " 3 ",
        4 => " 4 ",
        5 => " 5 ",
        6 => " 6 ",
        7 => " 7 ",
        8 => " 8 ",
        _ => " 9 ",
    }
}

/// The numpad table is a bijection between the keys 1 to 9 and the nine
/// positions, and the key shown on an empty square selects that square.
pub proof fn lemma_numpad_bijection()
    ensures
        forall|k: usize| #[trigger] numpad_position(k) is Some <==> 1 <= k <= 9,
        forall|k1: usize, k2: usize|
            #[trigger] numpad_position(k1) is Some && numpad_position(k1) == #[trigger] numpad_position(
                k2,
            ) ==> k1 == k2,
        forall|n: int|
            0 <= n < 9 ==> numpad_position(#[trigger] key_for_index(n) as usize) == Some(
                ((n / 3) as usize, (n % 3) as usize),
            ),
        forall|row: usize, col: usize|
            row < 3 && col < 3 ==> numpad_position(
                key_for_index(#[trigger] square_index(row as int, col as int)) as usize,
            ) == Some((row, col)),
{
    assert forall|n: int| 0 <= n < 9 implies numpad_position(#[trigger] key_for_index(n) as usize)
        == Some(((n / 3) as usize, (n % 3) as usize)) by {
        assert(n == 0 || n == 1 || n == 2 || n == 3 || n == 4 || n == 5 || n == 6 || n == 7 || n
            == 8);
    }
    assert forall|row: usize, col: usize| row < 3 && col < 3 implies numpad_position(
        key_for_index(#[trigger] square_index(row as int, col as int)) as usize,
    ) == Some((row, col)) by {
        let n = square_index(row as int, col as int);
        assert(n / 3 == row && n % 3 == col);
    }
}

/// A full board on which no line is complete has no winner, and the game on
/// it is over.
pub proof fn lemma_draw(s: Seq<Option<Piece>>)
    requires
        s.len() == 9,
        full(s),
        !any_line_complete(s),
    ensures
        winner_of(s) is None,
        over(s),
{
}

/// Filling one empty square adds one to the number of filled squares.
pub proof fn lemma_fill_one(s: Seq<Option<Piece>>, i: int, p: Piece)
    requires
        0 <= i < s.len(),
        s[i] is None,
    ensures
        filled_count(s.update(i, Some(p))) == filled_count(s) + 1,
    decreases s.len(),
{
    let t = s.update(i, Some(p));
    if i == s.len() - 1 {
        assert(t.drop_last() =~= s.drop_last());
    } else {
        lemma_fill_one(s.drop_last(), i, p);
        assert(t.drop_last() =~= s.drop_last().update(i, Some(p)));
    }
}

/// No square of an empty board is filled.
pub proof fn lemma_empty_count(n: nat)
    ensures
        filled_count(Seq::new(n, |i: int| None::<Piece>)) == 0,
    decreases n,
{
    if n > 0 {
        lemma_empty_count((n - 1) as nat);
        assert(Seq::new(n, |i: int| None::<Piece>).drop_last() =~= Seq::new(
            (n - 1) as nat,
            |i: int| None::<Piece>,
        ));
    }
}

} // verus!
