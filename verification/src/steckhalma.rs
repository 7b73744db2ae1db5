//! Peg solitaire ("Steckhalma") on the classic cross-shaped board of 33 holes,
//! stored row by row in a 7 x 7 grid.

use vstd::prelude::*;

verus! {

/// How a finished game ended.
#[derive(Copy, Clone, PartialEq, Eq, Debug, Structural)]
pub enum EndGameState {
    PlayerWon,
    PlayerLost,
}

/// The interaction state of the game.
#[derive(Copy, Clone, PartialEq, Eq, Debug, Structural)]
pub enum GameState {
    Resetting,
    MovingCursor,
    MovingPeg,
    GameOver(EndGameState),
}

/// The state that follows `s` when the space key is pressed.
pub open spec fn state_after_space(s: GameState) -> GameState {
    match s {
        GameState::MovingCursor => GameState::MovingPeg,
        GameState::MovingPeg => GameState::MovingCursor,
        GameState::GameOver(_) => GameState::Resetting,
        GameState::Resetting => GameState::Resetting,
    }
}

impl GameState {
    /// Picks a peg up or puts it down again; after a finished game the board
    /// is reset.
    pub fn space_pressed(&mut self)
        ensures
            *final(self) == state_after_space(*old(self)),
    {
        let current = *self;
        match current {
            GameState::MovingCursor => *self = GameState::MovingPeg,
            GameState::MovingPeg => *self = GameState::MovingCursor,
            GameState::GameOver(_) => *self = GameState::Resetting,
            GameState::Resetting => {},
        }
    }
}

/// The content of one cell of the grid.
#[derive(Clone, Copy, Debug, PartialEq, Eq, Structural)]
pub enum Position {
    Invalid,
    Peg,
    NoPeg,
}

/// A cell coordinate: column `x`, row `y`.
#[derive(Clone, Copy, Debug, PartialEq, Eq, Structural)]
pub struct Pos {
    pub x: usize,
    pub y: usize,
}

impl Pos {
    pub fn new(x: usize, y: usize) -> (r: Pos)
        ensures
            r == (Pos { x: x, y: y }),
    {
        Pos { x, y }
    }
}

/// Why a move was refused.
#[derive(Clone, Copy, PartialEq, Eq, Debug, Structural)]
pub enum MoveErr {
    InvalidFrom,
    InvalidTo,
    NoPegAtFrom,
    NotAJump,
    PegAtTo,
}

#[derive(Clone, Copy, PartialEq, Eq, Debug, Structural)]
pub enum Direction {
    Up,
    Down,
    Left,
    Right,
}

/// The direction that undoes a step in `d`.
pub open spec fn opposite(d: Direction) -> Direction {
    match d {
        Direction::Up => Direction::Down,
        Direction::Down => Direction::Up,
        Direction::Left => Direction::Right,
        Direction::Right => Direction::Left,
    }
}

/// `p` moved `count` cells in direction `dir`; a coordinate wraps around
/// modulo 2^usize::BITS, so moving left or up from 0 gives a large value off
/// the grid.
pub open spec fn shifted(p: Pos, dir: Direction, count: usize) -> Pos {
    match dir {
        Direction::Up => Pos { x: p.x, y: vstd::wrapping::usize_specs::wrapping_sub(p.y, count) },
        Direction::Down => Pos { x: p.x, y: vstd::wrapping::usize_specs::wrapping_add(p.y, count) },
        Direction::Left => Pos { x: vstd::wrapping::usize_specs::wrapping_sub(p.x, count), y: p.y },
        Direction::Right => Pos { x: vstd::wrapping::usize_specs::wrapping_add(p.x, count), y: p.y },
    }
}

/// The cell is inside the 7 x 7 grid.
pub open spec fn on_grid(p: Pos) -> bool {
    p.x < 7 && p.y < 7
}

/// Where a coordinate lands in the row-by-row storage of the grid.
pub open spec fn cell_index(p: Pos) -> int {
    p.y * 7 + p.x
}

impl Pos {
    pub fn shift(&self, dir: Direction, count: usize) -> (r: Pos)
        ensures
            r == shifted(*self, dir, count),
    {
        match dir {
            Direction::Up => Pos { x: self.x, y: self.y.wrapping_sub(count) },
            Direction::Down => Pos { x: self.x, y: self.y.wrapping_add(count) },
            Direction::Left => Pos { x: self.x.wrapping_sub(count), y: self.y },
            Direction::Right => Pos { x: self.x.wrapping_add(count), y: self.y },
        }
    }

    pub fn in_range(&self) -> (r: bool)
        ensures
            r == on_grid(*self),
    {
        self.x < 7 && self.y < 7
    }
}

/// Shifting back in the opposite direction by the same count returns to the
/// starting coordinate, for every coordinate and count.
pub proof fn lemma_shift_undone(p: Pos, dir: Direction, count: usize)
    ensures
        shifted(shifted(p, dir, count), opposite(dir), count) == p,
{
}

/// One cell up, down, left or right of an on-grid `p`, where that stays on
/// the grid, is the neighbouring cell of the grid: up lowers `y`, down raises
/// it, left lowers `x`, right raises it.
pub proof fn lemma_shift_neighbours(p: Pos, k: usize)
    requires
        on_grid(p),
        1 <= k <= 2,
    ensures
        k <= p.y ==> shifted(p, Direction::Up, k) == (Pos { x: p.x, y: (p.y - k) as usize }),
        p.y + k < 7 ==> shifted(p, Direction::Down, k) == (Pos { x: p.x, y: (p.y + k) as usize }),
        k <= p.x ==> shifted(p, Direction::Left, k) == (Pos { x: (p.x - k) as usize, y: p.y }),
        p.x + k < 7 ==> shifted(p, Direction::Right, k) == (Pos { x: (p.x + k) as usize, y: p.y }),
        p.y < k ==> !on_grid(shifted(p, Direction::Up, k)),
        p.x < k ==> !on_grid(shifted(p, Direction::Left, k)),
        p.y + k >= 7 ==> !on_grid(shifted(p, Direction::Down, k)),
        p.x + k >= 7 ==> !on_grid(shifted(p, Direction::Right, k)),
{
}

/// The standard English board: 32 pegs around the empty centre.
pub open spec fn standard_layout() -> Seq<Position> {
    let i = Position::Invalid;
    let p = Position::Peg;
    let n = Position::NoPeg;
    seq![
        i, i, p, p, p, i, i,
        i, i, p, p, p, i, i,
        p, p, p, p, p, p, p,
        p, p, p, n, p, p, p,
        p, p, p, p, p, p, p,
        i, i, p, p, p, i, i,
        i, i, p, p, p, i, i,
    ]
}

/// What a jump from `from` in direction `dir` gives on the grid `cells`: the
/// coordinates jumped over and landed on, or why it is refused.
pub open spec fn move_outcome(cells: Seq<Position>, from: Pos, dir: Direction) -> Result<
    (Pos, Pos),
    MoveErr,
> {
    let over = shifted(from, dir, 1);
    let to = shifted(from, dir, 2);
    if cells[cell_index(from)] == Position::Invalid {
        Err(MoveErr::InvalidFrom)
    } else if cells[cell_index(from)] == Position::NoPeg {
        Err(MoveErr::NoPegAtFrom)
    } else if !on_grid(over) || cells[cell_index(over)] == Position::Invalid {
        Err(MoveErr::InvalidTo)
    } else if cells[cell_index(over)] == Position::NoPeg {
        Err(MoveErr::NotAJump)
    } else if !on_grid(to) || cells[cell_index(to)] == Position::Invalid {
        Err(MoveErr::InvalidTo)
    } else if cells[cell_index(to)] == Position::Peg {
        Err(MoveErr::PegAtTo)
    } else {
        Ok((over, to))
    }
}

/// The grid after the peg at `from` jumps over `over` into `to`.
pub open spec fn after_jump(cells: Seq<Position>, from: Pos, over: Pos, to: Pos) -> Seq<Position> {
    cells.update(cell_index(from), Position::NoPeg).update(cell_index(over), Position::NoPeg).update(
        cell_index(to),
        Position::Peg,
    )
}

/// Some peg on the grid can jump.
pub open spec fn has_legal_move(cells: Seq<Position>) -> bool {
    exists|x: usize, y: usize, d: Direction|
        x < 7 && y < 7 && (#[trigger] move_outcome(cells, Pos { x: x, y: y }, d)) is Ok
}

/// 1 for a peg, 0 otherwise.
pub open spec fn peg_value(p: Position) -> int {
    if p == Position::Peg {
        1
    } else {
        0
    }
}

/// The pegs in the first `rows` rows of column `x`.
pub open spec fn column_pegs(cells: Seq<Position>, x: int, rows: int) -> int
    decreases rows,
{
    if rows <= 0 {
        0
    } else {
        column_pegs(cells, x, rows - 1) + peg_value(cells[(rows - 1) * 7 + x])
    }
}

/// The pegs in the first `cols` columns of the grid.
pub open spec fn columns_pegs(cells: Seq<Position>, cols: int) -> int
    decreases cols,
{
    if cols <= 0 {
        0
    } else {
        columns_pegs(cells, cols - 1) + column_pegs(cells, cols - 1, 7)
    }
}

/// The number of pegs on the grid.
pub open spec fn peg_count(cells: Seq<Position>) -> int {
    columns_pegs(cells, 7)
}

/// The verdict on a grid: none while a peg can still jump; otherwise a win
/// when exactly one peg is left and a loss when more are.
pub open spec fn game_over_outcome(cells: Seq<Position>) -> Option<EndGameState> {
    if has_legal_move(cells) {
        None
    } else if peg_count(cells) == 1 {
        Some(EndGameState::PlayerWon)
    } else {
        Some(EndGameState::PlayerLost)
    }
}

/// Changing one cell of column `px` (row `py`) changes the pegs counted in
/// the first `rows` rows of column `x` by the change at that cell, when the
/// cell is among them.
proof fn lemma_column_update(cells: Seq<Position>, px: int, py: int, v: Position, x: int, rows: int)
    requires
        cells.len() == 49,
        0 <= px < 7,
        0 <= py < 7,
        0 <= x < 7,
        rows <= 7,
    ensures
        column_pegs(cells.update(py * 7 + px, v), x, rows) == column_pegs(cells, x, rows) + (if x
            == px && py < rows {
            peg_value(v) - peg_value(cells[py * 7 + px])
        } else {
            0
        }),
    decreases rows,
{
    if rows > 0 {
        lemma_column_update(cells, px, py, v, x, rows - 1);
        let i = (rows - 1) * 7 + x;
        if i == py * 7 + px {
            assert(rows - 1 == py && x == px);
        } else {
            assert(!(rows - 1 == py && x == px));
        }
    }
}

/// Changing one cell changes the pegs counted in the first `cols` columns by
/// the change at that cell, when its column is among them.
proof fn lemma_columns_update(cells: Seq<Position>, px: int, py: int, v: Position, cols: int)
    requires
        cells.len() == 49,
        0 <= px < 7,
        0 <= py < 7,
        cols <= 7,
    ensures
        columns_pegs(cells.update(py * 7 + px, v), cols) == columns_pegs(cells, cols) + (if px
            < cols {
            peg_value(v) - peg_value(cells[py * 7 + px])
        } else {
            0
        }),
    decreases cols,
{
    if cols > 0 {
        lemma_columns_update(cells, px, py, v, cols - 1);
        lemma_column_update(cells, px, py, v, cols - 1, 7);
    }
}

/// Setting the cell at `p` on the grid changes the peg count by the change at
/// that cell.
pub proof fn lemma_peg_count_update(cells: Seq<Position>, p: Pos, v: Position)
    requires
        cells.len() == 49,
        on_grid(p),
    ensures
        peg_count(cells.update(cell_index(p), v)) == peg_count(cells) + peg_value(v) - peg_value(
            cells[cell_index(p)],
        ),
{
    lemma_columns_update(cells, p.x as int, p.y as int, v, 7);
}

/// Every accepted jump removes exactly one peg from the board, and the
/// holes of the board (its `Invalid` cells) never change.
pub proof fn lemma_jump_removes_one_peg(cells: Seq<Position>, from: Pos, dir: Direction)
    requires
        cells.len() == 49,
        0 <= cell_index(from) < 49,
        move_outcome(cells, from, dir) is Ok,
    ensures
        ({
            let (over, to) = move_outcome(cells, from, dir)->Ok_0;
            let next = after_jump(cells, from, over, to);
            &&& peg_count(next) == peg_count(cells) - 1
            &&& next.len() == 49
            &&& forall|i: int|
                0 <= i < 49 ==> (#[trigger] next[i] == Position::Invalid <==> cells[i]
                    == Position::Invalid)
        }),
{
    let (over, to) = move_outcome(cells, from, dir)->Ok_0;
    let from_cell = Pos { x: (cell_index(from) % 7) as usize, y: (cell_index(from) / 7) as usize };
    assert(cell_index(from_cell) == cell_index(from));
    let c1 = cells.update(cell_index(from), Position::NoPeg);
    lemma_peg_count_update(cells, from_cell, Position::NoPeg);
    assert(cell_index(over) != cell_index(from));
    assert(cell_index(to) != cell_index(from));
    assert(cell_index(to) != cell_index(over));
    let c2 = c1.update(cell_index(over), Position::NoPeg);
    lemma_peg_count_update(c1, over, Position::NoPeg);
    lemma_peg_count_update(c2, to, Position::Peg);
}

/// A move is accepted exactly when it is a jump of a peg over a peg into an
/// empty hole on the grid, in any of the four directions; the accepted move
/// names the cell jumped over (one step away) and the cell landed on (two
/// steps away).
pub proof fn lemma_jump_accepted_iff(cells: Seq<Position>, from: Pos, dir: Direction)
    requires
        cells.len() == 49,
        on_grid(from),
    ensures
        ({
            let over = shifted(from, dir, 1);
            let to = shifted(from, dir, 2);
            let jump = cells[cell_index(from)] == Position::Peg && on_grid(over)
                && cells[cell_index(over)] == Position::Peg && on_grid(to)
                && cells[cell_index(to)] == Position::NoPeg;
            &&& jump ==> move_outcome(cells, from, dir) == Ok::<(Pos, Pos), MoveErr>((over, to))
            &&& !jump ==> move_outcome(cells, from, dir) is Err
        }),
{
}

/// After an accepted jump the cell jumped from and the cell jumped over are
/// empty holes, the cell landed on holds a peg, and every other cell is as
/// it was.
pub proof fn lemma_jump_result(cells: Seq<Position>, from: Pos, dir: Direction)
    requires
        cells.len() == 49,
        on_grid(from),
        move_outcome(cells, from, dir) is Ok,
    ensures
        ({
            let (over, to) = move_outcome(cells, from, dir)->Ok_0;
            let next = after_jump(cells, from, over, to);
            &&& next.len() == 49
            &&& next[cell_index(from)] == Position::NoPeg
            &&& next[cell_index(over)] == Position::NoPeg
            &&& next[cell_index(to)] == Position::Peg
            &&& forall|i: int|
                0 <= i < 49 && i != cell_index(from) && i != cell_index(over) && i != cell_index(to)
                    ==> #[trigger] next[i] == cells[i]
        }),
{
    let (over, to) = move_outcome(cells, from, dir)->Ok_0;
    assert(cell_index(over) != cell_index(from));
    assert(cell_index(to) != cell_index(from));
    assert(cell_index(to) != cell_index(over));
}

/// The verdict on a grid: no verdict while some peg can jump; once none
/// can, the player has won with exactly one peg left and lost with more (or
/// none).
pub proof fn lemma_verdict(cells: Seq<Position>)
    ensures
        has_legal_move(cells) ==> game_over_outcome(cells) is None,
        !has_legal_move(cells) && peg_count(cells) == 1 ==> game_over_outcome(cells) == Some(
            EndGameState::PlayerWon,
        ),
        !has_legal_move(cells) && peg_count(cells) != 1 ==> game_over_outcome(cells) == Some(
            EndGameState::PlayerLost,
        ),
{
}

/// The starting board has 32 pegs, an empty hole in the centre, and no
/// cells in its four 2 x 2 corners.
pub proof fn lemma_standard_layout()
    ensures
        standard_layout().len() == 49,
        peg_count(standard_layout()) == 32,
        standard_layout()[cell_index(Pos { x: 3, y: 3 })] == Position::NoPeg,
        forall|x: usize, y: usize|
            (x < 2 || x > 4) && (y < 2 || y > 4) && x < 7 && y < 7 ==> standard_layout()[cell_index(
                Pos { x: x, y: y },
            )] == Position::Invalid,
        forall|x: usize, y: usize|
            on_grid(Pos { x: x, y: y }) && !((x < 2 || x > 4) && (y < 2 || y > 4)) && !(x == 3 && y
                == 3) ==> standard_layout()[cell_index(Pos { x: x, y: y })] == Position::Peg,
{
    let b = standard_layout();
    reveal_with_fuel(column_pegs, 8);
    reveal_with_fuel(columns_pegs, 8);
    assert(column_pegs(b, 0, 7) == 3);
    assert(column_pegs(b, 1, 7) == 3);
    assert(column_pegs(b, 2, 7) == 7);
    assert(column_pegs(b, 3, 7) == 6);
    assert(column_pegs(b, 4, 7) == 7);
    assert(column_pegs(b, 5, 7) == 3);
    assert(column_pegs(b, 6, 7) == 3);
}

proof fn lemma_column_nonnegative(cells: Seq<Position>, x: int, rows: int)
    ensures
        column_pegs(cells, x, rows) >= 0,
    decreases rows,
{
    if rows > 0 {
        lemma_column_nonnegative(cells, x, rows - 1);
    }
}

proof fn lemma_columns_nonnegative(cells: Seq<Position>, cols: int)
    ensures
        columns_pegs(cells, cols) >= 0,
    decreases cols,
{
    if cols > 0 {
        lemma_columns_nonnegative(cells, cols - 1);
        lemma_column_nonnegative(cells, cols - 1, 7);
    }
}

/// A jump needs two pegs: on a board with a single peg none can jump, and
/// the game is won.
pub proof fn lemma_single_peg_wins(cells: Seq<Position>)
    requires
        cells.len() == 49,
        peg_count(cells) == 1,
    ensures
        !has_legal_move(cells),
        game_over_outcome(cells) == Some(EndGameState::PlayerWon),
{
    if has_legal_move(cells) {
        let (x, y, d) = choose|x: usize, y: usize, d: Direction|
            x < 7 && y < 7 && (#[trigger] move_outcome(cells, Pos { x: x, y: y }, d)) is Ok;
        let from = Pos { x: x, y: y };
        let over = shifted(from, d, 1);
        let c1 = cells.update(cell_index(from), Position::NoPeg);
        lemma_peg_count_update(cells, from, Position::NoPeg);
        assert(cell_index(over) != cell_index(from));
        lemma_peg_count_update(c1, over, Position::NoPeg);
        lemma_columns_nonnegative(c1.update(cell_index(over), Position::NoPeg), 7);
    }
}

/// The 7 x 7 grid, row by row.
#[derive(Clone)]
pub struct Board {
    positions: [Position; 49],
}

impl Board {
    /// The cells of the grid, row by row.
    pub closed spec fn cells(&self) -> Seq<Position> {
        self.positions@
    }

    /// Every board has the 49 cells of the 7 x 7 grid.
    pub broadcast proof fn lemma_cells_len(b: Board)
        ensures
            #[trigger] b.cells().len() == 49,
    {
    }

    /// The standard starting position.
    pub fn new() -> (r: Board)
        ensures
            r.cells() == standard_layout(),
    {
        let i = Position::Invalid;
        let p = Position::Peg;
        let n = Position::NoPeg;
        let b = Board {
            positions: [
                i, i, p, p, p, i, i,
                i, i, p, p, p, i, i,
                p, p, p, p, p, p, p,
                p, p, p, n, p, p, p,
                p, p, p, p, p, p, p,
                i, i, p, p, p, i, i,
                i, i, p, p, p, i, i,
            ],
        };
        assert(b.positions@ =~= standard_layout());
        b
    }

    fn check_move(&self, from: Pos, direction: Direction) -> (r: Result<(Pos, Pos), MoveErr>)
        requires
            0 <= cell_index(from) < 49,
        ensures
            r == move_outcome(self.cells(), from, direction),
    {
        match self.at(from) {
            Position::Invalid => return Err(MoveErr::InvalidFrom),
            Position::NoPeg => return Err(MoveErr::NoPegAtFrom),
            Position::Peg => (),
        }
        let jump_over = from.shift(direction, 1);
        if !jump_over.in_range() {
            return Err(MoveErr::InvalidTo);
        }
        match self.at(jump_over) {
            Position::Invalid => return Err(MoveErr::InvalidTo),
            Position::NoPeg => return Err(MoveErr::NotAJump),
            Position::Peg => (),
        }
        let jump_to = from.shift(direction, 2);
        if !jump_to.in_range() {
            return Err(MoveErr::InvalidTo);
        }
        match self.at(jump_to) {
            Position::Invalid => Err(MoveErr::InvalidTo),
            Position::NoPeg => Ok((jump_over, jump_to)),
            Position::Peg => Err(MoveErr::PegAtTo),
        }
    }

    /// Jumps the peg at `from` over its neighbour in `direction` into the
    /// empty hole behind it, removing the neighbour.
    pub fn do_move(&mut self, from: Pos, direction: Direction) -> (r: Result<(), MoveErr>)
        requires
            0 <= cell_index(from) < 49,
        ensures
            (match move_outcome(old(self).cells(), from, direction) {
                Ok((over, to)) => r == Ok::<(), MoveErr>(()) && final(self).cells() == after_jump(
                    old(self).cells(),
                    from,
                    over,
                    to,
                ),
                Err(e) => r == Err::<(), MoveErr>(e) && final(self).cells() == old(self).cells(),
            }),
    {
        match self.check_move(from, direction) {
            Err(e) => Err(e),
            Ok((jump_over, jump_to)) => {
                *self.mut_at(from) = Position::NoPeg;
                *self.mut_at(jump_over) = Position::NoPeg;
                *self.mut_at(jump_to) = Position::Peg;
                Ok(())
            },
        }
    }

    pub fn at(&self, pos: Pos) -> (r: Position)
        requires
            0 <= cell_index(pos) < 49,
        ensures
            r == self.cells()[cell_index(pos)],
    {
        self.positions[pos.y * 7 + pos.x]
    }

    pub fn mut_at(&mut self, pos: Pos) -> (r: &mut Position)
        requires
            0 <= cell_index(pos) < 49,
        ensures
            *r == old(self).cells()[cell_index(pos)],
            final(self).cells() == old(self).cells().update(cell_index(pos), *final(r)),
    {
        &mut self.positions[pos.y * 7 + pos.x]
    }

    /// `None` while some peg can still jump; otherwise whether the player won
    /// (exactly one peg left) or lost.
    pub fn check_game_over(&self) -> (r: Option<EndGameState>)
        ensures
            r == game_over_outcome(self.cells()),
    {
        let ghost cells = self.cells();
        let mut peg_counter: usize = 0;
        let mut x: usize = 0;
        while x < 7
            invariant
                cells == self.cells(),
                cells.len() == 49,
                x <= 7,
                peg_counter == columns_pegs(cells, x as int),
                peg_counter <= 7 * x,
                forall|x2: usize, y2: usize, d: Direction|
                    x2 < x && y2 < 7 ==> !((#[trigger] move_outcome(
                        cells,
                        Pos { x: x2, y: y2 },
                        d,
                    )) is Ok),
            decreases 7 - x,
        {
            let mut y: usize = 0;
            while y < 7
                invariant
                    cells == self.cells(),
                    cells.len() == 49,
                    x < 7,
                    y <= 7,
                    peg_counter == columns_pegs(cells, x as int) + column_pegs(
                        cells,
                        x as int,
                        y as int,
                    ),
                    peg_counter <= 7 * x + y,
                    forall|x2: usize, y2: usize, d: Direction|
                        ((x2 < x && y2 < 7) || (x2 == x && y2 < y)) ==> !((#[trigger] move_outcome(
                            cells,
                            Pos { x: x2, y: y2 },
                            d,
                        )) is Ok),
                decreases 7 - y,
            {
                let position = Pos::new(x, y);
                if self.at(position) == Position::Peg {
                    peg_counter += 1;
                    if self.check_move(position, Direction::Up).is_ok() {
                        return None;
                    }
                    if self.check_move(position, Direction::Down).is_ok() {
                        return None;
                    }
                    if self.check_move(position, Direction::Left).is_ok() {
                        return None;
                    }
                    if self.check_move(position, Direction::Right).is_ok() {
                        return None;
                    }
                    assert forall|d: Direction| !(#[trigger] move_outcome(cells, position, d) is Ok) by {
                        match d {
                            Direction::Up => {},
                            Direction::Down => {},
                            Direction::Left => {},
                            Direction::Right => {},
                        }
                    }
                }
                y += 1;
            }
            x += 1;
        }
        if peg_counter == 1 {
            Some(EndGameState::PlayerWon)
        } else {
            Some(EndGameState::PlayerLost)
        }
    }
}

} // verus!
