//! The 3x3 grid: cell states, reads and writes, and the win and draw queries.

use vstd::prelude::*;

verus! {

/// The state of one cell: empty, or claimed by one of the two players.
/// `O` is the first mover; the same three-way value also identifies a player.
#[derive(Clone, Copy, Debug, PartialEq, Eq, Structural)]
pub enum Player {
    Empty,
    O,
    X,
}

/// The errors the board can report: an index outside the grid, or a write
/// aimed at a cell that is already claimed.
#[derive(Clone, Copy, Debug, PartialEq, Eq, Structural)]
pub enum BoardError {
    OutOfRange,
    OccupiedCellWrite,
}

/// The mark of the opposing player; the empty state has no opponent.
pub open spec fn other_of(p: Player) -> Player {
    match p {
        Player::Empty => Player::Empty,
        Player::O => Player::X,
        Player::X => Player::O,
    }
}

/// The mark shown for a cell: a blank for an empty cell, else the player's letter.
pub open spec fn symbol_of(p: Player) -> char {
    match p {
        Player::Empty => ' ',
        Player::O => 'O',
        Player::X => 'X',
    }
}

impl Player {
    /// The character that renders this cell state.
    pub fn symbol(&self) -> (c: char)
        ensures
            c == symbol_of(*self),
    {
        match self {
            Player::Empty => ' ',
            Player::O => 'O',
            Player::X => 'X',
        }
    }
}

/// Player `p` holds all three cells at indices `a`, `b`, `c`.
pub open spec fn owns_triple(s: Seq<Player>, a: int, b: int, c: int, p: Player) -> bool {
    s[a] == p && s[b] == p && s[c] == p
}

/// Player `p` fully owns one of the eight lines: a row, a column, or a diagonal.
pub open spec fn has_line(s: Seq<Player>, p: Player) -> bool {
    ||| owns_triple(s, 0, 1, 2, p)
    ||| owns_triple(s, 3, 4, 5, p)
    ||| owns_triple(s, 6, 7, 8, p)
    ||| owns_triple(s, 0, 3, 6, p)
    ||| owns_triple(s, 1, 4, 7, p)
    ||| owns_triple(s, 2, 5, 8, p)
    ||| owns_triple(s, 0, 4, 8, p)
    ||| owns_triple(s, 2, 4, 6, p)
}

/// The mark that fully owns the triple at indices `a`, `b`, `c`, or `Empty`
/// when the three cells do not all hold the same non-empty mark.
pub open spec fn triple_winner(s: Seq<Player>, a: int, b: int, c: int) -> Player {
    if s[a] != Player::Empty && s[a] == s[b] && s[b] == s[c] {
        s[a]
    } else {
        Player::Empty
    }
}

/// The winning mark found by scanning the three rows, then the three columns,
/// then the two diagonals, taking the first fully owned line; `Empty` when no
/// line is fully owned. The fixed scan order makes the result deterministic;
/// under legal alternating play at most one line can be complete anyway.
pub open spec fn winner_of(s: Seq<Player>) -> Player {
    if triple_winner(s, 0, 1, 2) != Player::Empty {
        triple_winner(s, 0, 1, 2)
    } else if triple_winner(s, 3, 4, 5) != Player::Empty {
        triple_winner(s, 3, 4, 5)
    } else if triple_winner(s, 6, 7, 8) != Player::Empty {
        triple_winner(s, 6, 7, 8)
    } else if triple_winner(s, 0, 3, 6) != Player::Empty {
        triple_winner(s, 0, 3, 6)
    } else if triple_winner(s, 1, 4, 7) != Player::Empty {
        triple_winner(s, 1, 4, 7)
    } else if triple_winner(s, 2, 5, 8) != Player::Empty {
        triple_winner(s, 2, 5, 8)
    } else if triple_winner(s, 0, 4, 8) != Player::Empty {
        triple_winner(s, 0, 4, 8)
    } else if triple_winner(s, 2, 4, 6) != Player::Empty {
        triple_winner(s, 2, 4, 6)
    } else {
        Player::Empty
    }
}

/// The winner as an option: `None` exactly when no line is fully owned.
pub open spec fn winner_opt(s: Seq<Player>) -> Option<Player> {
    if winner_of(s) == Player::Empty {
        None
    } else {
        Some(winner_of(s))
    }
}

/// Every cell of the grid holds a mark.
pub open spec fn full(s: Seq<Player>) -> bool {
    forall|i: int| 0 <= i < 9 ==> s[i] != Player::Empty
}

/// The game is drawn: the grid is full and no line is fully owned.
pub open spec fn draw(s: Seq<Player>) -> bool {
    full(s) && winner_of(s) == Player::Empty
}

/// How many cells of `s` hold the mark `p`.
pub open spec fn count_marks(s: Seq<Player>, p: Player) -> int
    decreases s.len(),
{
    if s.len() == 0 {
        0
    } else {
        count_marks(s.drop_last(), p) + if s.last() == p {
            1int
        } else {
            0int
        }
    }
}

/// The alternation invariant: `O` moves first, so a legally reached board
/// holds exactly as many `O` marks as `X` marks, or one more `O` mark.
pub open spec fn balanced(s: Seq<Player>) -> bool {
    ||| count_marks(s, Player::O) == count_marks(s, Player::X)
    ||| count_marks(s, Player::O) == count_marks(s, Player::X) + 1
}

/// On a balanced board, the player whose turn it is: `O` when the counts are
/// even, else `X`.
pub open spec fn to_move(s: Seq<Player>) -> Player {
    if count_marks(s, Player::O) == count_marks(s, Player::X) {
        Player::O
    } else {
        Player::X
    }
}

/// A mark absent from every cell is counted zero times.
proof fn lemma_count_absent(s: Seq<Player>, p: Player)
    requires
        forall|i: int| 0 <= i < s.len() ==> s[i] != p,
    ensures
        count_marks(s, p) == 0,
    decreases s.len(),
{
    if s.len() > 0 {
        assert(forall|i: int| 0 <= i < s.drop_last().len() ==> s.drop_last()[i] == s[i]);
        lemma_count_absent(s.drop_last(), p);
    }
}

/// Writing `v` over cell `i` raises the count of `v` by one and lowers the
/// count of the mark it replaced by one; every other count is unchanged.
proof fn lemma_count_update(s: Seq<Player>, i: int, v: Player, q: Player)
    requires
        0 <= i < s.len(),
    ensures
        count_marks(s.update(i, v), q) == count_marks(s, q) + (if v == q {
            1int
        } else {
            0int
        }) - (if s[i] == q {
            1int
        } else {
            0int
        }),
    decreases s.len(),
{
    let t = s.update(i, v);
    if i == s.len() - 1 {
        assert(t.drop_last() =~= s.drop_last());
        assert(t.last() == v);
    } else {
        assert(t.drop_last() =~= s.drop_last().update(i, v));
        lemma_count_update(s.drop_last(), i, v, q);
        assert(t.last() == s.last());
    }
}

/// The board invariant survives every legal write: when a balanced board's
/// empty cell receives the mark of the player to move, the new board is
/// balanced again, that player's count has grown by one, and the opponent's
/// count is unchanged.
pub proof fn lemma_set_preserves_invariant(s: Seq<Player>, i: int, p: Player)
    requires
        0 <= i < s.len(),
        s[i] == Player::Empty,
        balanced(s),
        p == to_move(s),
    ensures
        balanced(s.update(i, p)),
        count_marks(s.update(i, p), p) == count_marks(s, p) + 1,
        count_marks(s.update(i, p), Player::O) + count_marks(s.update(i, p), Player::X)
            == count_marks(s, Player::O) + count_marks(s, Player::X) + 1,
{
    lemma_count_update(s, i, p, Player::O);
    lemma_count_update(s, i, p, Player::X);
}

/// No line is fully owned if and only if the winner scan finds nobody.
pub proof fn lemma_winner_none_iff_no_line(s: Seq<Player>)
    requires
        s.len() == 9,
    ensures
        winner_of(s) == Player::Empty <==> (!has_line(s, Player::O) && !has_line(s, Player::X)),
{
}

/// When one player fully owns a line and the opponent owns none, the winner
/// scan names exactly that player.
pub proof fn lemma_sole_line_owner_wins(s: Seq<Player>, p: Player)
    requires
        s.len() == 9,
        p != Player::Empty,
        has_line(s, p),
        !has_line(s, other_of(p)),
    ensures
        winner_of(s) == p,
{
}

/// A board filled without a completed line is exactly a draw: any sequence of
/// alternating valid moves that fills the grid while no player completes a
/// line leaves a full board, on which the winner is nobody and `draw` holds.
pub proof fn lemma_full_without_line_is_draw(s: Seq<Player>)
    requires
        s.len() == 9,
        full(s),
        !has_line(s, Player::O),
        !has_line(s, Player::X),
    ensures
        draw(s),
        winner_of(s) == Player::Empty,
{
    lemma_winner_none_iff_no_line(s);
}

/// The win and draw queries are pure functions of the board state: any two
/// results that satisfy `winner`'s postcondition on one state are equal, and
/// likewise for `is_draw`, so repeated calls on an unmodified board agree.
pub proof fn lemma_queries_deterministic(
    s: Seq<Player>,
    w1: Option<Player>,
    w2: Option<Player>,
    d1: bool,
    d2: bool,
)
    requires
        w1 == winner_opt(s),
        w2 == winner_opt(s),
        d1 == draw(s),
        d2 == draw(s),
    ensures
        w1 == w2,
        d1 == d2,
{
}

/// The grid in row-major order: cell (row, col) sits at index row * 3 + col.
pub struct Board {
    cells: Vec<Player>,
}

impl View for Board {
    type V = Seq<Player>;

    closed spec fn view(&self) -> Seq<Player> {
        self.cells@
    }
}

impl Board {
    /// A board is well formed when it holds exactly the nine cells of the grid.
    pub open spec fn wf(&self) -> bool {
        self@.len() == 9
    }

    /// A fresh board: all nine cells empty.
    pub fn new() -> (b: Board)
        ensures
            b.wf(),
            forall|i: int| 0 <= i < 9 ==> b@[i] == Player::Empty,
            balanced(b@),
            to_move(b@) == Player::O,
    {
        let mut cells: Vec<Player> = Vec::new();
        let mut i: usize = 0;
        while i < 9
            invariant
                i <= 9,
                cells@.len() == i,
                forall|j: int| 0 <= j < i ==> cells@[j] == Player::Empty,
            decreases 9 - i,
        {
            cells.push(Player::Empty);
            i = i + 1;
        }
        proof {
            lemma_count_absent(cells@, Player::O);
            lemma_count_absent(cells@, Player::X);
        }
        Board { cells }
    }

    /// The current occupant of cell (row, col); `OutOfRange` when either
    /// index lies outside {0, 1, 2}.
    pub fn get(&self, row: usize, col: usize) -> (r: Result<Player, BoardError>)
        requires
            self.wf(),
        ensures
            row < 3 && col < 3 ==> r == Ok::<Player, BoardError>(self@[row as int * 3 + col as int]),
            !(row < 3 && col < 3) ==> r == Err::<Player, BoardError>(BoardError::OutOfRange),
    {
        if row < 3 && col < 3 {
            Ok(self.cells[row * 3 + col])
        } else {
            Err(BoardError::OutOfRange)
        }
    }

    /// Writes a player's mark into an empty cell. The caller must have
    /// validated the move: indices in range, the cell still empty, and a
    /// real mark, never `Empty`.
    pub fn set(&mut self, row: usize, col: usize, mark: Player)
        requires
            old(self).wf(),
            row < 3,
            col < 3,
            old(self)@[row as int * 3 + col as int] == Player::Empty,
            mark != Player::Empty,
        ensures
            final(self).wf(),
            final(self)@ == old(self)@.update(row as int * 3 + col as int, mark),
    {
        let i = row * 3 + col;
        self.cells[i] = mark;
    }

    /// The mark that fully owns the triple at indices `a`, `b`, `c`, if any.
    fn triple_mark(&self, a: usize, b: usize, c: usize) -> (r: Player)
        requires
            self.wf(),
            a < 9,
            b < 9,
            c < 9,
        ensures
            r == triple_winner(self@, a as int, b as int, c as int),
    {
        let first = self.cells[a];
        if first != Player::Empty && first == self.cells[b] && self.cells[b] == self.cells[c] {
            first
        } else {
            Player::Empty
        }
    }

    /// The winning player, or `None` when no line is fully owned.
    pub fn winner(&self) -> (r: Option<Player>)
        requires
            self.wf(),
        ensures
            r == winner_opt(self@),
    {
        let w = check_victory(self);
        if w == Player::Empty {
            None
        } else {
            Some(w)
        }
    }

    /// True exactly when every cell holds a mark.
    pub fn is_full(&self) -> (r: bool)
        requires
            self.wf(),
        ensures
            r == full(self@),
    {
        let mut i: usize = 0;
        while i < 9
            invariant
                self.wf(),
                i <= 9,
                forall|j: int| 0 <= j < i ==> self@[j] != Player::Empty,
            decreases 9 - i,
        {
            if self.cells[i] == Player::Empty {
                return false;
            }
            i = i + 1;
        }
        true
    }

    /// True exactly when the grid is full and nobody has a complete line.
    pub fn is_draw(&self) -> (r: bool)
        requires
            self.wf(),
        ensures
            r == draw(self@),
    {
        self.is_full() && self.winner().is_none()
    }
}

/// Scans the three rows, then the three columns, then the two diagonals, and
/// returns the mark of the first fully owned line, or `Empty` when none is.
pub fn check_victory(state: &Board) -> (r: Player)
    requires
        state.wf(),
    ensures
        r == winner_of(state@),
{
    let w = state.triple_mark(0, 1, 2);
    if w != Player::Empty {
        return w;
    }
    let w = state.triple_mark(3, 4, 5);
    if w != Player::Empty {
        return w;
    }
    let w = state.triple_mark(6, 7, 8);
    if w != Player::Empty {
        return w;
    }
    let w = state.triple_mark(0, 3, 6);
    if w != Player::Empty {
        return w;
    }
    let w = state.triple_mark(1, 4, 7);
    if w != Player::Empty {
        return w;
    }
    let w = state.triple_mark(2, 5, 8);
    if w != Player::Empty {
        return w;
    }
    let w = state.triple_mark(0, 4, 8);
    if w != Player::Empty {
        return w;
    }
    let w = state.triple_mark(2, 4, 6);
    if w != Player::Empty {
        return w;
    }
    Player::Empty
}

} // verus!
