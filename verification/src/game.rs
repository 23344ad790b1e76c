//! The board-game engine: a 4x4 grid onto which two kinds of pieces are
//! dropped column-wise with gravity, with win/draw detection over the four
//! rows, four columns and two diagonals, a deterministic seeded random fill,
//! and a fixed-format text rendering.

use vstd::prelude::*;

use rand::Rng;
use rand::SeedableRng;

verus! {

/// The fixed seed every fresh board's generator starts from.
pub const GAME_SEED: u64 = 2024;

/// Error returned by a placement attempt. Both kinds are recoverable: the
/// board is left unchanged.
#[derive(Clone, Copy, Debug, PartialEq, Eq, Structural)]
pub enum GameError {
    ColumnFull,
    GameOver,
}

/// One of the two kinds of pieces dropped onto the board.
#[derive(Clone, Copy, Debug, PartialEq, Eq, Structural)]
pub enum GamePiece {
    Cookie,
    Milk,
}

/// The current outcome of a game: exactly one of these holds at any time.
#[derive(Clone, Copy, Debug, PartialEq, Eq, Structural)]
pub enum GameState {
    Running,
    Winner(GamePiece),
    Draw,
}

/// A line of four cells all holding the same piece yields that piece; an
/// empty line, a line with an empty cell, or a mixed line yields nothing.
/// (On a non-empty line whose cells are all equal, the shared cell is
/// returned as it is, so an all-empty line also yields nothing.)
pub open spec fn all_same_spec(line: Seq<Option<GamePiece>>) -> Option<GamePiece> {
    if line.len() > 0 && (forall|i: int| 0 <= i < line.len() ==> #[trigger] line[i] == line[0]) {
        line[0]
    } else {
        None
    }
}

/// Exec equality of two cells.
fn cells_eq(a: Option<GamePiece>, b: Option<GamePiece>) -> (r: bool)
    ensures
        r == (a == b),
{
    match (a, b) {
        (None, None) => true,
        (Some(x), Some(y)) => x == y,
        _ => false,
    }
}

/// The piece shared by every cell of the line, if the line is non-empty and
/// uniform; nothing otherwise.
pub fn all_same(line: Vec<Option<GamePiece>>) -> (r: Option<GamePiece>)
    ensures
        r == all_same_spec(line@),
{
    if line.len() == 0 {
        return None;
    }
    let first = line[0];
    let mut i: usize = 1;
    while i < line.len()
        invariant
            1 <= i <= line@.len(),
            first == line@[0],
            forall|j: int| 0 <= j < i ==> #[trigger] line@[j] == line@[0],
        decreases line@.len() - i,
    {
        if !cells_eq(line[i], first) {
            assert(line@[i as int] != line@[0]);
            return None;
        }
        i = i + 1;
    }
    first
}

#[verifier::external_type_specification]
#[verifier::external_body]
pub struct ExStdRng(rand::rngs::StdRng);

/// The boolean that a fresh `StdRng` seeded with `seed` yields as its
/// `index`-th draw. In the pinned rand version `StdRng` is ChaCha12, a
/// deterministic function of the seed, so this is well defined.
pub uninterp spec fn std_rng_bool(seed: u64, index: int) -> bool;

/// The board's pseudo-random generator: an `StdRng` together with the seed it
/// was built from and the number of booleans drawn from it so far.
pub struct BoardRng {
    inner: rand::rngs::StdRng,
    seed: u64,
    drawn: u64,
}

impl BoardRng {
    /// The seed the generator was built from.
    pub closed spec fn seed(self) -> u64 {
        self.seed
    }

    /// How many booleans have been drawn since seeding.
    pub closed spec fn drawn(self) -> u64 {
        self.drawn
    }
}

/// Relies on `rand::rngs::StdRng::seed_from_u64` (`SeedableRng`): builds the
/// generator deterministically from the given seed.
#[verifier::external_body]
fn rng_seeded(seed: u64) -> (r: BoardRng)
    ensures
        r.seed() == seed,
        r.drawn() == 0,
{
    BoardRng { inner: rand::rngs::StdRng::seed_from_u64(seed), seed, drawn: 0 }
}

/// Relies on `rand::Rng::gen::<bool>` on `StdRng`: in the pinned rand version
/// `StdRng` is ChaCha12, whose output is a function of the seed alone, so the
/// draw made by a generator seeded with `seed` that has already produced
/// `drawn` booleans is determined by `(seed, drawn)`. The `seed` and `drawn`
/// fields are kept true by `BoardRng::next_bool`, the only caller, and by
/// `rng_seeded`, the only constructor.
#[verifier::external_body]
fn rng_gen_bool(r: &mut BoardRng) -> (b: bool)
    ensures
        final(r).seed() == old(r).seed(),
        final(r).drawn() == old(r).drawn(),
        b == std_rng_bool(old(r).seed(), old(r).drawn() as int),
{
    r.inner.gen()
}

impl BoardRng {
    /// Draw the next boolean and account for it.
    fn next_bool(&mut self) -> (b: bool)
        requires
            old(self).drawn() < u64::MAX,
        ensures
            final(self).seed() == old(self).seed(),
            final(self).drawn() == old(self).drawn() + 1,
            b == std_rng_bool(old(self).seed(), old(self).drawn() as int),
    {
        let b = rng_gen_bool(self);
        self.drawn = self.drawn + 1;
        b
    }
}

/// The abstract state of a board: the 16 cells in row-major order, the
/// current outcome, and the generator's seed and position. Every operation's
/// contract pins the new abstract state as a function of the old one and the
/// arguments alone.
pub ghost struct BoardModel {
    pub cells: Seq<Option<GamePiece>>,
    pub state: GameState,
    pub seed: u64,
    pub drawn: u64,
}

/// The 4x4 board: 16 cells in row-major order (row 0 is the top), the current
/// outcome, and the seeded pseudo-random generator.
pub struct GameBoard {
    rng: BoardRng,
    board: Vec<Option<GamePiece>>,
    pub state: GameState,
}

impl GameBoard {
    /// The 16 cells, row-major: row `r`, column `c` is index `4*r + c`.
    pub closed spec fn cells(self) -> Seq<Option<GamePiece>> {
        self.board@
    }

    /// The generator's seed.
    pub closed spec fn seed(self) -> u64 {
        self.rng.seed()
    }

    /// How many booleans the generator has produced so far.
    pub closed spec fn drawn(self) -> u64 {
        self.rng.drawn()
    }

    /// The current outcome, as seen by specifications.
    pub closed spec fn spec_state(self) -> GameState {
        self.state
    }

    /// Well-formedness: the grid always holds exactly 16 cells.
    pub open spec fn wf(self) -> bool {
        self.cells().len() == 16
    }

    /// The board's abstract state.
    pub open spec fn model(self) -> BoardModel {
        BoardModel {
            cells: self.cells(),
            state: self.spec_state(),
            seed: self.seed(),
            drawn: self.drawn(),
        }
    }

    /// The abstract state of a freshly created (or freshly reset) board:
    /// all cells empty, outcome `Running`, generator at the start of the
    /// fixed-seed sequence.
    pub open spec fn fresh_model() -> BoardModel {
        BoardModel {
            cells: Seq::new(16, |i: int| None::<GamePiece>),
            state: GameState::Running,
            seed: GAME_SEED,
            drawn: 0,
        }
    }
}

impl Default for GameBoard {
    /// A fresh board: empty grid, outcome `Running`, generator seeded with
    /// the fixed constant.
    fn default() -> (r: GameBoard)
        ensures
            r.wf(),
            r.model() == GameBoard::fresh_model(),
    {
        let mut board: Vec<Option<GamePiece>> = Vec::new();
        let mut i: usize = 0;
        while i < 16
            invariant
                i <= 16,
                board@.len() == i,
                forall|j: int| 0 <= j < i ==> board@[j] is None,
            decreases 16 - i,
        {
            board.push(None);
            i = i + 1;
        }
        let r = GameBoard { rng: rng_seeded(GAME_SEED), board, state: GameState::Running };
        proof {
            assert(r.cells() =~= GameBoard::fresh_model().cells);
        }
        r
    }
}

impl GameBoard {
    /// How many booleans the generator has produced so far, for callers that
    /// must keep its position clear of the counter's end before a randomize.
    pub fn draws(&self) -> (r: u64)
        ensures
            r == self.drawn(),
    {
        self.rng.drawn
    }

    /// Replace the board with a brand-new empty one using the same fixed
    /// seed, so the generator's sequence restarts as at process start.
    pub fn reset(&mut self)
        ensures
            final(self).wf(),
            final(self).model() == GameBoard::fresh_model(),
    {
        *self = GameBoard::default();
    }

    /// Overwrite one cell directly. This is the constructor for arbitrary
    /// positions (boards not reachable through `place` alone); it leaves the
    /// outcome and the generator untouched.
    pub fn set_cell(&mut self, row: usize, column: usize, cell: Option<GamePiece>)
        requires
            old(self).wf(),
            row < 4,
            column < 4,
        ensures
            final(self).wf(),
            final(self).cells() == old(self).cells().update(4 * row + column, cell),
            final(self).spec_state() == old(self).spec_state(),
            final(self).seed() == old(self).seed(),
            final(self).drawn() == old(self).drawn(),
    {
        self.board[4 * row + column] = cell;
    }
}

/// The flat index of the `j`-th cell of line `k`, for the ten lines checked
/// for a win, in their fixed enumeration order: rows 0 to 3, then columns 0
/// to 3, then the main diagonal (cells `(j, j)`), then the anti-diagonal
/// (cells `(j, 3 - j)`).
pub open spec fn line_index(k: int, j: int) -> int {
    if k < 4 {
        4 * k + j
    } else if k < 8 {
        4 * j + (k - 4)
    } else if k == 8 {
        4 * j + j
    } else {
        4 * j + (3 - j)
    }
}

/// The four cells of line `k`, in order.
pub open spec fn line_seq(cells: Seq<Option<GamePiece>>, k: int) -> Seq<Option<GamePiece>> {
    Seq::new(4, |j: int| cells[line_index(k, j)])
}

/// The winner of line `k`, if all four of its cells hold the same piece.
pub open spec fn line_winner(cells: Seq<Option<GamePiece>>, k: int) -> Option<GamePiece> {
    all_same_spec(line_seq(cells, k))
}

/// The winner of the first winning line at or after `k`, in the fixed
/// enumeration order.
pub open spec fn first_winner_from(cells: Seq<Option<GamePiece>>, k: int) -> Option<GamePiece>
    decreases 10 - k,
{
    if k < 0 || k >= 10 {
        None
    } else if line_winner(cells, k) is Some {
        line_winner(cells, k)
    } else {
        first_winner_from(cells, k + 1)
    }
}

/// Every cell is occupied.
pub open spec fn board_full(cells: Seq<Option<GamePiece>>) -> bool {
    forall|i: int| 0 <= i < 16 ==> #[trigger] cells[i] is Some
}

/// The outcome a grid evaluates to: the first winning line's piece if one
/// exists, `Draw` on a full grid without one, `Running` otherwise.
pub open spec fn evaluate(cells: Seq<Option<GamePiece>>) -> GameState {
    match first_winner_from(cells, 0) {
        Some(w) => GameState::Winner(w),
        None => if board_full(cells) {
            GameState::Draw
        } else {
            GameState::Running
        },
    }
}

/// The outcome after recomputation: a terminal outcome is kept as it is, a
/// running game is re-evaluated from the grid.
pub open spec fn next_state_spec(state: GameState, cells: Seq<Option<GamePiece>>) -> GameState {
    if state is Running {
        evaluate(cells)
    } else {
        state
    }
}

/// The row a piece dropped into `column` lands in: the lowest empty row of
/// the column (row 3 is the bottom), or nothing if the column is full.
pub open spec fn landing_row(cells: Seq<Option<GamePiece>>, column: int) -> Option<int> {
    if cells[12 + column] is None {
        Some(3)
    } else if cells[8 + column] is None {
        Some(2)
    } else if cells[4 + column] is None {
        Some(1)
    } else if cells[column] is None {
        Some(0)
    } else {
        None
    }
}

impl GameBoard {
    /// Row `row` of the grid, left to right.
    pub fn get_row(&self, row: usize) -> (r: Vec<Option<GamePiece>>)
        requires
            self.wf(),
            row < 4,
        ensures
            r@ == line_seq(self.cells(), row as int),
    {
        let mut r: Vec<Option<GamePiece>> = Vec::new();
        r.push(self.board[4 * row]);
        r.push(self.board[4 * row + 1]);
        r.push(self.board[4 * row + 2]);
        r.push(self.board[4 * row + 3]);
        proof {
            assert(r@ =~= line_seq(self.cells(), row as int));
        }
        r
    }

    /// Column `column` of the grid, top to bottom.
    pub fn get_column(&self, column: usize) -> (r: Vec<Option<GamePiece>>)
        requires
            self.wf(),
            column < 4,
        ensures
            r@ == line_seq(self.cells(), column as int + 4),
    {
        let mut r: Vec<Option<GamePiece>> = Vec::new();
        r.push(self.board[column]);
        r.push(self.board[4 + column]);
        r.push(self.board[8 + column]);
        r.push(self.board[12 + column]);
        proof {
            assert(r@ =~= line_seq(self.cells(), column as int + 4));
        }
        r
    }

    /// The two diagonals: first the main diagonal (cells `(j, j)`), then the
    /// anti-diagonal (cells `(j, 3 - j)`).
    pub fn get_diagonals(&self) -> (r: Vec<Vec<Option<GamePiece>>>)
        requires
            self.wf(),
        ensures
            r@.len() == 2,
            r@[0]@ == line_seq(self.cells(), 8),
            r@[1]@ == line_seq(self.cells(), 9),
    {
        let mut main: Vec<Option<GamePiece>> = Vec::new();
        main.push(self.board[0]);
        main.push(self.board[5]);
        main.push(self.board[10]);
        main.push(self.board[15]);
        let mut anti: Vec<Option<GamePiece>> = Vec::new();
        anti.push(self.board[3]);
        anti.push(self.board[6]);
        anti.push(self.board[9]);
        anti.push(self.board[12]);
        proof {
            assert(main@ =~= line_seq(self.cells(), 8));
            assert(anti@ =~= line_seq(self.cells(), 9));
        }
        let mut r: Vec<Vec<Option<GamePiece>>> = Vec::new();
        r.push(main);
        r.push(anti);
        r
    }

    /// All ten lines checked for a win, in their fixed enumeration order:
    /// rows, then columns, then the two diagonals.
    pub fn get_combinations(&self) -> (r: Vec<Vec<Option<GamePiece>>>)
        requires
            self.wf(),
        ensures
            r@.len() == 10,
            forall|k: int| 0 <= k < 10 ==> #[trigger] r@[k]@ == line_seq(self.cells(), k),
    {
        let mut r: Vec<Vec<Option<GamePiece>>> = Vec::new();
        r.push(self.get_row(0));
        r.push(self.get_row(1));
        r.push(self.get_row(2));
        r.push(self.get_row(3));
        r.push(self.get_column(0));
        r.push(self.get_column(1));
        r.push(self.get_column(2));
        r.push(self.get_column(3));
        let mut diagonals = self.get_diagonals();
        r.append(&mut diagonals);
        r
    }

    /// Recompute the outcome from the grid: on a running game, the first
    /// winning line's piece wins, a full grid without one is a draw; a
    /// terminal outcome is kept unchanged. Returns the (new) outcome.
    pub fn update_state(&mut self) -> (r: GameState)
        requires
            old(self).wf(),
        ensures
            final(self).wf(),
            final(self).cells() == old(self).cells(),
            final(self).seed() == old(self).seed(),
            final(self).drawn() == old(self).drawn(),
            final(self).spec_state() == next_state_spec(old(self).spec_state(), old(self).cells()),
            r == final(self).spec_state(),
    {
        match self.state {
            GameState::Running => {}
            _ => {
                return self.state;
            }
        }
        let combinations = self.get_combinations();
        let ghost cells = self.cells();
        let mut k: usize = 0;
        while k < 10
            invariant
                k <= 10,
                self == old(self),
                self.wf(),
                cells == self.cells(),
                self.spec_state() is Running,
                combinations@.len() == 10,
                forall|j: int| 0 <= j < 10 ==> #[trigger] combinations@[j]@ == line_seq(cells, j),
                first_winner_from(cells, 0) == first_winner_from(cells, k as int),
            decreases 10 - k,
        {
            let line = combinations[k].clone();
            assert(line@ == line_seq(cells, k as int));
            match all_same(line) {
                Some(w) => {
                    assert(line_winner(cells, k as int) == Some(w));
                    assert(first_winner_from(cells, 0) == Some(w));
                    self.state = GameState::Winner(w);
                    return self.state;
                }
                None => {
                    assert(line_winner(cells, k as int) is None);
                    assert(first_winner_from(cells, k as int) == first_winner_from(
                        cells,
                        k as int + 1,
                    ));
                }
            }
            k = k + 1;
        }
        assert(first_winner_from(cells, 0) is None);
        let mut i: usize = 0;
        let mut full = true;
        while i < 16
            invariant
                i <= 16,
                self == old(self),
                self.wf(),
                cells == self.cells(),
                full == (forall|j: int| 0 <= j < i ==> #[trigger] cells[j] is Some),
            decreases 16 - i,
        {
            if self.board[i].is_none() {
                full = false;
            }
            i = i + 1;
        }
        if full {
            assert(board_full(cells));
            self.state = GameState::Draw;
        } else {
            assert(!board_full(cells));
            self.state = GameState::Running;
        }
        self.state
    }

    /// Drop `team`'s piece into `column`. On a terminal outcome this fails
    /// with `GameOver`; on a full column it fails with `ColumnFull`; in both
    /// cases nothing changes. Otherwise the piece lands in the lowest empty
    /// row of the column, the outcome is recomputed, and the new outcome is
    /// returned.
    pub fn place(&mut self, team: GamePiece, column: usize) -> (r: Result<GameState, GameError>)
        requires
            old(self).wf(),
            column < 4,
        ensures
            final(self).wf(),
            final(self).seed() == old(self).seed(),
            final(self).drawn() == old(self).drawn(),
            !(old(self).spec_state() is Running) ==> {
                &&& r == Err::<GameState, GameError>(GameError::GameOver)
                &&& final(self).model() == old(self).model()
            },
            old(self).spec_state() is Running && landing_row(old(self).cells(), column as int)
                is None ==> {
                &&& r == Err::<GameState, GameError>(GameError::ColumnFull)
                &&& final(self).model() == old(self).model()
            },
            old(self).spec_state() is Running && landing_row(old(self).cells(), column as int)
                is Some ==> {
                let row = landing_row(old(self).cells(), column as int).unwrap();
                &&& final(self).cells() == old(self).cells().update(
                    4 * row + column,
                    Some(team),
                )
                &&& final(self).spec_state() == evaluate(final(self).cells())
                &&& r == Ok::<GameState, GameError>(final(self).spec_state())
            },
            (final(self).model(), r) == place_outcome(old(self).model(), team, column as int),
    {
        match self.state {
            GameState::Running => {}
            _ => {
                return Err(GameError::GameOver);
            }
        }
        let index: usize = if self.board[12 + column].is_none() {
            12 + column
        } else if self.board[8 + column].is_none() {
            8 + column
        } else if self.board[column + 4].is_none() {
            4 + column
        } else if self.board[column].is_none() {
            column
        } else {
            return Err(GameError::ColumnFull);
        };
        self.board[index] = Some(team);
        let s = self.update_state();
        Ok(s)
    }
}

/// The result of a placement, as a function of the abstract state and the
/// arguments alone: an error and the unchanged state on a terminal outcome
/// or a full column; otherwise the state with the piece landed in the lowest
/// empty row and the outcome recomputed.
pub open spec fn place_outcome(m: BoardModel, team: GamePiece, column: int) -> (
    BoardModel,
    Result<GameState, GameError>,
) {
    if !(m.state is Running) {
        (m, Err(GameError::GameOver))
    } else {
        match landing_row(m.cells, column) {
            None => (m, Err(GameError::ColumnFull)),
            Some(row) => {
                let cells = m.cells.update(4 * row + column, Some(team));
                let state = evaluate(cells);
                (BoardModel { cells, state, seed: m.seed, drawn: m.drawn }, Ok(state))
            },
        }
    }
}

/// The cell the `index`-th draw of the generator fills: a `true` boolean
/// fills with `Cookie`, a `false` one with `Milk`.
pub open spec fn random_cell(seed: u64, index: int) -> Option<GamePiece> {
    if std_rng_bool(seed, index) {
        Some(GamePiece::Cookie)
    } else {
        Some(GamePiece::Milk)
    }
}

/// The state after a randomize, as a function of the abstract state alone:
/// sixteen fresh draws fill the cells in row-major order, and the outcome
/// stays exactly as it was.
pub open spec fn randomize_outcome(m: BoardModel) -> BoardModel {
    BoardModel {
        cells: Seq::new(16, |i: int| random_cell(m.seed, m.drawn + i)),
        state: m.state,
        seed: m.seed,
        drawn: (m.drawn + 16) as u64,
    }
}

impl GameBoard {
    /// Overwrite every cell, in row-major order, from one boolean draw each:
    /// `true` fills with `Cookie`, `false` with `Milk`. The outcome is *not*
    /// recomputed: it stays exactly as it was, and is returned unchanged.
    pub fn randomize(&mut self) -> (r: GameState)
        requires
            old(self).wf(),
            old(self).drawn() + 16 <= u64::MAX,
        ensures
            final(self).wf(),
            final(self).spec_state() == old(self).spec_state(),
            r == old(self).spec_state(),
            final(self).seed() == old(self).seed(),
            final(self).drawn() == old(self).drawn() + 16,
            forall|i: int|
                0 <= i < 16 ==> #[trigger] final(self).cells()[i] == random_cell(
                    old(self).seed(),
                    old(self).drawn() + i,
                ),
            final(self).model() == randomize_outcome(old(self).model()),
    {
        let mut i: usize = 0;
        while i < 16
            invariant
                i <= 16,
                self.wf(),
                self.spec_state() == old(self).spec_state(),
                self.seed() == old(self).seed(),
                self.drawn() == old(self).drawn() + i,
                old(self).drawn() + 16 <= u64::MAX,
                forall|j: int|
                    0 <= j < i ==> #[trigger] self.cells()[j] == random_cell(
                        old(self).seed(),
                        old(self).drawn() + j,
                    ),
            decreases 16 - i,
        {
            let b = self.rng.next_bool();
            self.board[i] = if b {
                Some(GamePiece::Cookie)
            } else {
                Some(GamePiece::Milk)
            };
            i = i + 1;
        }
        proof {
            assert(self.cells() =~= randomize_outcome(old(self).model()).cells);
        }
        self.state
    }
}

/// The one-character glyph of a piece.
pub open spec fn piece_char(p: GamePiece) -> char {
    match p {
        GamePiece::Cookie => '🍪',
        GamePiece::Milk => '🥛',
    }
}

/// The glyph of a cell: a piece's glyph, or the empty-cell glyph.
pub open spec fn cell_char(c: Option<GamePiece>) -> char {
    match c {
        Some(p) => piece_char(p),
        None => '⬛',
    }
}

/// The rendered text of one row: a wall glyph, the row's four cell glyphs,
/// a wall glyph, and a newline.
pub open spec fn row_text(cells: Seq<Option<GamePiece>>, row: int) -> Seq<char> {
    seq![
        '⬜',
        cell_char(cells[4 * row]),
        cell_char(cells[4 * row + 1]),
        cell_char(cells[4 * row + 2]),
        cell_char(cells[4 * row + 3]),
        '⬜',
        '\n',
    ]
}

/// The bottom wall line: six wall glyphs and a newline.
pub open spec fn wall_text() -> Seq<char> {
    seq!['⬜', '⬜', '⬜', '⬜', '⬜', '⬜', '\n']
}

/// The trailing outcome line: empty while running, `"<piece> wins!"` after a
/// win, `"No winner."` after a draw, each with a newline.
pub open spec fn state_text(state: GameState) -> Seq<char> {
    match state {
        GameState::Running => Seq::<char>::empty(),
        GameState::Winner(p) => seq![piece_char(p), ' ', 'w', 'i', 'n', 's', '!', '\n'],
        GameState::Draw => seq!['N', 'o', ' ', 'w', 'i', 'n', 'n', 'e', 'r', '.', '\n'],
    }
}

/// The full rendered text: the four rows top to bottom, the bottom wall, and
/// the outcome line if the game has ended.
pub open spec fn render_text(cells: Seq<Option<GamePiece>>, state: GameState) -> Seq<char> {
    row_text(cells, 0) + row_text(cells, 1) + row_text(cells, 2) + row_text(cells, 3)
        + wall_text() + state_text(state)
}

/// The text a freshly created or freshly reset board renders to.
pub open spec fn empty_board_text() -> Seq<char> {
    render_text(Seq::new(16, |i: int| None::<GamePiece>), GameState::Running)
}

/// The glyph of a cell, as executable code.
fn cell_glyph(c: Option<GamePiece>) -> (r: char)
    ensures
        r == cell_char(c),
{
    match c {
        Some(GamePiece::Cookie) => '🍪',
        Some(GamePiece::Milk) => '🥛',
        None => '⬛',
    }
}

/// Push the rendered text of row `row` onto `out`.
fn push_row(out: &mut Vec<char>, board: &Vec<Option<GamePiece>>, row: usize)
    requires
        board@.len() == 16,
        row < 4,
    ensures
        final(out)@ == old(out)@ + row_text(board@, row as int),
{
    out.push('⬜');
    out.push(cell_glyph(board[4 * row]));
    out.push(cell_glyph(board[4 * row + 1]));
    out.push(cell_glyph(board[4 * row + 2]));
    out.push(cell_glyph(board[4 * row + 3]));
    out.push('⬜');
    out.push('\n');
    proof {
        assert(out@ =~= old(out)@ + row_text(board@, row as int));
    }
}

impl GamePiece {
    /// The piece's one-character glyph, as text.
    pub fn glyph(&self) -> (r: String)
        ensures
            r@ == seq![piece_char(*self)],
    {
        let mut v: Vec<char> = Vec::new();
        let c = match self {
            GamePiece::Cookie => '🍪',
            GamePiece::Milk => '🥛',
        };
        v.push(c);
        proof {
            assert(v@ =~= seq![piece_char(*self)]);
        }
        crate::text::chars_to_string(v)
    }
}

impl GameBoard {
    /// The board's fixed-format text: one line per row between wall glyphs,
    /// a bottom wall line, and the outcome line if the game has ended. This
    /// text is the sole externally observable representation of the board.
    #[verifier::rlimit(50)]
    pub fn render(&self) -> (r: String)
        requires
            self.wf(),
        ensures
            r@ == render_text(self.cells(), self.spec_state()),
    {
        let mut out: Vec<char> = Vec::new();
        push_row(&mut out, &self.board, 0);
        push_row(&mut out, &self.board, 1);
        push_row(&mut out, &self.board, 2);
        push_row(&mut out, &self.board, 3);
        let ghost rows = out@;
        out.push('⬜');
        out.push('⬜');
        out.push('⬜');
        out.push('⬜');
        out.push('⬜');
        out.push('⬜');
        out.push('\n');
        proof {
            assert(out@ =~= rows + wall_text());
        }
        let ghost walled = out@;
        match self.state {
            GameState::Running => {}
            GameState::Winner(p) => {
                let c = match p {
                    GamePiece::Cookie => '🍪',
                    GamePiece::Milk => '🥛',
                };
                out.push(c);
                out.push(' ');
                out.push('w');
                out.push('i');
                out.push('n');
                out.push('s');
                out.push('!');
                out.push('\n');
            }
            GameState::Draw => {
                out.push('N');
                out.push('o');
                out.push(' ');
                out.push('w');
                out.push('i');
                out.push('n');
                out.push('n');
                out.push('e');
                out.push('r');
                out.push('.');
                out.push('\n');
            }
        }
        proof {
            assert(out@ =~= walled + state_text(self.spec_state()));
            assert(out@ =~= render_text(self.cells(), self.spec_state()));
        }
        crate::text::chars_to_string(out)
    }
}

/// After a reset the board renders as the one fixed empty-board text,
/// whatever the prior state, and the generator is back at the start of the
/// fixed-seed sequence, exactly as at process start.
pub proof fn lemma_reset_render(b: GameBoard)
    requires
        b.model() == GameBoard::fresh_model(),
    ensures
        render_text(b.cells(), b.spec_state()) == empty_board_text(),
        b.seed() == GAME_SEED,
        b.drawn() == 0,
{
}

/// Gravity on an empty column: a piece dropped into a column whose four
/// cells are all empty lands in the bottom row (row 3).
pub proof fn lemma_gravity_empty_column(cells: Seq<Option<GamePiece>>, column: int)
    requires
        cells.len() == 16,
        0 <= column < 4,
        forall|q: int| 0 <= q < 4 ==> #[trigger] cells[4 * q + column] is None,
    ensures
        landing_row(cells, column) == Some(3int),
{
    assert(cells[4 * 3 + column] is None);
    assert(cells[12 + column] == cells[4 * 3 + column]);
}

/// Gravity stacks upward: when a piece lands in row `r` of a column with no
/// floating pieces (every row above the landing row is empty), the next
/// landing row of that column is the row just above, until the column is
/// full.
pub proof fn lemma_gravity_stacks(
    cells: Seq<Option<GamePiece>>,
    column: int,
    r: int,
    team: GamePiece,
)
    requires
        cells.len() == 16,
        0 <= column < 4,
        landing_row(cells, column) == Some(r),
        forall|q: int| 0 <= q < r ==> #[trigger] cells[4 * q + column] is None,
    ensures
        landing_row(cells.update(4 * r + column, Some(team)), column) == if r == 0 {
            None::<int>
        } else {
            Some(r - 1)
        },
{
    let next = cells.update(4 * r + column, Some(team));
    if r == 3 {
        assert(cells[4 * 2 + column] is None);
        assert(next[12 + column] is Some);
        assert(next[8 + column] == cells[4 * 2 + column]);
    } else if r == 2 {
        assert(cells[4 * 1 + column] is None);
        assert(next[12 + column] == cells[12 + column]);
        assert(next[8 + column] is Some);
        assert(next[4 + column] == cells[4 * 1 + column]);
    } else if r == 1 {
        assert(cells[4 * 0 + column] is None);
        assert(next[12 + column] == cells[12 + column]);
        assert(next[8 + column] == cells[8 + column]);
        assert(next[4 + column] is Some);
        assert(next[column] == cells[4 * 0 + column]);
    } else {
        assert(r == 0);
        assert(next[column] is Some);
        assert(next[12 + column] == cells[12 + column]);
        assert(next[8 + column] == cells[8 + column]);
        assert(next[4 + column] == cells[4 + column]);
    }
}

/// A full column has no landing row: a further placement attempt into it
/// fails (with `ColumnFull`, by `place`'s contract) and changes nothing.
pub proof fn lemma_full_column(cells: Seq<Option<GamePiece>>, column: int)
    requires
        cells.len() == 16,
        0 <= column < 4,
        forall|q: int| 0 <= q < 4 ==> #[trigger] cells[4 * q + column] is Some,
    ensures
        landing_row(cells, column) is None,
{
    assert(cells[4 * 3 + column] is Some);
    assert(cells[4 * 2 + column] is Some);
    assert(cells[4 * 1 + column] is Some);
    assert(cells[4 * 0 + column] is Some);
    assert(cells[12 + column] == cells[4 * 3 + column]);
    assert(cells[8 + column] == cells[4 * 2 + column]);
    assert(cells[4 + column] == cells[4 * 1 + column]);
    assert(cells[column] == cells[4 * 0 + column]);
}

/// Determinism: from equal abstract states, the same call yields the same
/// result and the same new abstract state — `place` and `randomize` promise
/// exactly the `place_outcome` and `randomize_outcome` of the old state, and
/// `reset` and `default` promise the one fresh state — and equal abstract
/// states render byte-identical text. Two fresh boards given one sequence of
/// calls therefore stay equal and keep rendering identical text.
pub proof fn lemma_deterministic(a: GameBoard, b: GameBoard, team: GamePiece, column: int)
    requires
        a.model() == b.model(),
    ensures
        place_outcome(a.model(), team, column) == place_outcome(b.model(), team, column),
        randomize_outcome(a.model()) == randomize_outcome(b.model()),
        render_text(a.cells(), a.spec_state()) == render_text(b.cells(), b.spec_state()),
{
}

} // verus!
