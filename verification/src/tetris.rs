use vstd::prelude::*;

verus! {

pub const BOARD_WIDTH: u16 = 12;

pub const BOARD_HEIGHT: u16 = 24;

pub const COLORS: [u8; 8] = [2, 9, 11, 12, 155, 178, 199, 208];

/// The seven shapes.
#[derive(Debug, Clone, Copy, PartialEq, Eq, Structural)]
pub enum TetrominoType {
    I,
    O,
    T,
    S,
    Z,
    J,
    L,
}

#[derive(Debug, Clone, Copy, PartialEq, Eq, Structural)]
pub enum Direction {
    Left,
    Right,
    Down,
}

#[derive(Debug, Clone, Copy, PartialEq, Eq, Structural)]
pub enum MoveResult {
    Moved,
    Collided,
    OutOfBounds,
    Spawned,
    NoTetromino,
}

/// The side of the box that a shape turns in.
pub open spec fn box_of(kind: TetrominoType) -> int {
    match kind {
        TetrominoType::I => 4,
        TetrominoType::O => 2,
        _ => 3,
    }
}

/// The four cells of a shape inside its box, as it is spawned.
pub open spec fn shape_of(kind: TetrominoType) -> Seq<(i16, i16)> {
    match kind {
        TetrominoType::I => seq![(0i16, 1i16), (1i16, 1i16), (2i16, 1i16), (3i16, 1i16)],
        TetrominoType::J => seq![(0i16, 0i16), (0i16, 1i16), (1i16, 1i16), (2i16, 1i16)],
        TetrominoType::L => seq![(0i16, 1i16), (1i16, 1i16), (2i16, 1i16), (2i16, 0i16)],
        TetrominoType::O => seq![(0i16, 0i16), (1i16, 0i16), (1i16, 1i16), (0i16, 1i16)],
        TetrominoType::S => seq![(0i16, 1i16), (1i16, 1i16), (1i16, 0i16), (2i16, 0i16)],
        TetrominoType::T => seq![(0i16, 1i16), (1i16, 1i16), (1i16, 0i16), (2i16, 1i16)],
        TetrominoType::Z => seq![(0i16, 0i16), (1i16, 0i16), (1i16, 1i16), (2i16, 1i16)],
    }
}

/// A cell of a box of side `size` after a quarter turn of the box.
pub open spec fn turned(size: int, clockwise: bool, cell: (i16, i16)) -> (i16, i16) {
    if clockwise {
        (cell.1, (size - 1 - cell.0) as i16)
    } else {
        ((size - 1 - cell.1) as i16, cell.0)
    }
}

/// What comes of putting the cells from the `from`-th on onto the board,
/// the box's corner at column `x` and row `y`: the first cell that falls
/// off the board or onto a filled cell decides.
pub open spec fn try_place(
    board: [[u8; 12]; 24],
    cells: Seq<(i16, i16)>,
    x: int,
    y: int,
    from: int,
) -> MoveResult
    decreases 4 - from,
{
    if from < 0 || from >= 4 {
        MoveResult::Moved
    } else {
        let ix = x + cells[from].0;
        let iy = y + cells[from].1;
        if ix < 0 || iy < 0 || ix >= 12 || iy >= 24 {
            MoveResult::OutOfBounds
        } else if board[iy][ix] != 0 {
            MoveResult::Collided
        } else {
            try_place(board, cells, x, y, from + 1)
        }
    }
}

/// A piece: a box on the board with four cells in it.
#[derive(Debug)]
pub struct Tetromino {
    urcrnr_x: i16,
    urcrnr_y: i16,
    box_size: usize,
    pixels: [(i16, i16); 4],
    color: u8,
}

impl Tetromino {
    /// The column of the box's corner.
    pub closed spec fn x(&self) -> int {
        self.urcrnr_x as int
    }

    /// The row of the box's corner.
    pub closed spec fn y(&self) -> int {
        self.urcrnr_y as int
    }

    /// The side of the box.
    pub closed spec fn size(&self) -> int {
        self.box_size as int
    }

    /// The four cells inside the box.
    pub closed spec fn shape(&self) -> Seq<(i16, i16)> {
        self.pixels@
    }

    /// The colour.
    pub closed spec fn tint(&self) -> u8 {
        self.color
    }

    /// What holds of every piece: its four cells lie in its box and on the
    /// board.
    pub open spec fn wf(&self) -> bool {
        &&& 2 <= self.size() <= 4
        &&& self.shape().len() == 4
        &&& forall|k: int|
            0 <= k < 4 ==> {
                &&& 0 <= (#[trigger] self.shape()[k]).0 < self.size()
                &&& 0 <= self.shape()[k].1 < self.size()
                &&& 0 <= self.x() + self.shape()[k].0 < 12
                &&& 0 <= self.y() + self.shape()[k].1 < 24
            }
    }

    #[verifier::type_invariant]
    spec fn type_inv(&self) -> bool {
        self.wf()
    }

    /// A piece of the given shape and colour in the middle of the top of
    /// the board.
    pub fn new(tetromino_type: TetrominoType, color: u8) -> (made: Tetromino)
        ensures
            made.wf(),
            made.size() == box_of(tetromino_type),
            made.shape() == shape_of(tetromino_type),
            made.x() == (12 - box_of(tetromino_type)) / 2,
            made.y() == 0,
            made.tint() == color,
    {
        let xmax: i16 = 12;
        let (box_size, pixels): (usize, [(i16, i16); 4]) = match tetromino_type {
            TetrominoType::I => (4, [(0, 1), (1, 1), (2, 1), (3, 1)]),
            TetrominoType::J => (3, [(0, 0), (0, 1), (1, 1), (2, 1)]),
            TetrominoType::L => (3, [(0, 1), (1, 1), (2, 1), (2, 0)]),
            TetrominoType::O => (2, [(0, 0), (1, 0), (1, 1), (0, 1)]),
            TetrominoType::S => (3, [(0, 1), (1, 1), (1, 0), (2, 0)]),
            TetrominoType::T => (3, [(0, 1), (1, 1), (1, 0), (2, 1)]),
            TetrominoType::Z => (3, [(0, 0), (1, 0), (1, 1), (2, 1)]),
        };
        assert(pixels@ =~= shape_of(tetromino_type));
        Tetromino {
            urcrnr_x: (xmax - box_size as i16) / 2,
            urcrnr_y: 0,
            box_size,
            pixels,
            color,
        }
    }

    /// The colour.
    pub fn color(&self) -> (color: u8)
        ensures
            color == self.tint(),
    {
        self.color
    }

    /// The outcome of putting `cells` onto the board with the box's corner
    /// at column `x` and row `y`.
    fn check(board: &[[u8; 12]; 24], cells: &[(i16, i16); 4], x: i16, y: i16) -> (outcome:
        MoveResult)
        requires
            -4 <= x <= 12,
            -4 <= y <= 24,
            forall|k: int| 0 <= k < 4 ==> 0 <= (#[trigger] cells@[k]).0 < 4 && 0 <= cells@[k].1 < 4,
        ensures
            outcome == try_place(*board, cells@, x as int, y as int, 0),
            outcome == MoveResult::Moved ==> forall|k: int|
                0 <= k < 4 ==> 0 <= x + (#[trigger] cells@[k]).0 < 12 && 0 <= y + cells@[k].1 < 24,
    {
        let mut k: usize = 0;
        while k < 4
            invariant
                k <= 4,
                -4 <= x <= 12,
                -4 <= y <= 24,
                forall|m: int|
                    0 <= m < 4 ==> 0 <= (#[trigger] cells@[m]).0 < 4 && 0 <= cells@[m].1 < 4,
                try_place(*board, cells@, x as int, y as int, 0) == try_place(
                    *board,
                    cells@,
                    x as int,
                    y as int,
                    k as int,
                ),
                forall|m: int|
                    0 <= m < k ==> 0 <= x + (#[trigger] cells@[m]).0 < 12 && 0 <= y + cells@[m].1
                        < 24,
            decreases 4 - k,
        {
            let ix: i16 = x + cells[k].0;
            let iy: i16 = y + cells[k].1;
            if ix < 0 || iy < 0 || ix >= 12 || iy >= 24 {
                return MoveResult::OutOfBounds;
            }
            if board[iy as usize][ix as usize] > 0 {
                return MoveResult::Collided;
            }
            k = k + 1;
        }
        MoveResult::Moved
    }

    /// Moves the piece one cell, if the board lets it.
    pub fn shift(&mut self, direction: Direction, board: &[[u8; 12]; 24]) -> (outcome: MoveResult)
        ensures
            final(self).wf(),
            final(self).size() == old(self).size(),
            final(self).shape() == old(self).shape(),
            final(self).tint() == old(self).tint(),
            ({
                let (xo, yo) = match direction {
                    Direction::Left => (old(self).x() - 1, old(self).y()),
                    Direction::Right => (old(self).x() + 1, old(self).y()),
                    Direction::Down => (old(self).x(), old(self).y() + 1),
                };
                &&& outcome == try_place(*board, old(self).shape(), xo, yo, 0)
                &&& if outcome == MoveResult::Moved {
                    final(self).x() == xo && final(self).y() == yo
                } else {
                    final(self).x() == old(self).x() && final(self).y() == old(self).y()
                }
            }),
    {
        proof {
            use_type_invariant(&*self);
            assert(0 <= self.shape()[0].0 < self.size());
        }
        let (xo, yo): (i16, i16) = match direction {
            Direction::Left => (self.urcrnr_x - 1, self.urcrnr_y),
            Direction::Right => (self.urcrnr_x + 1, self.urcrnr_y),
            Direction::Down => (self.urcrnr_x, self.urcrnr_y + 1),
        };
        let outcome = Tetromino::check(board, &self.pixels, xo, yo);
        match outcome {
            MoveResult::Moved => {
                match direction {
                    Direction::Down => { self.urcrnr_y = yo; },
                    _ => { self.urcrnr_x = xo; },
                }
            },
            _ => {},
        }
        outcome
    }

    /// A cell of the piece's box after a quarter turn.
    fn turn(size: i16, clockwise: bool, cell: (i16, i16)) -> (to: (i16, i16))
        requires
            2 <= size <= 4,
            0 <= cell.0 < size,
            0 <= cell.1 < size,
        ensures
            to == turned(size as int, clockwise, cell),
            0 <= to.0 < size,
            0 <= to.1 < size,
    {
        let xo: i16 = size / 2;
        let yo: i16 = size / 2;
        let par_size = size % 2 == 0;
        let mut x: i16 = cell.0;
        let mut y: i16 = cell.1;
        if par_size && x >= xo {
            x = x + 1;
        }
        if par_size && y >= yo {
            y = y + 1;
        }
        let (mut xr, mut yr): (i16, i16) = if clockwise {
            (xo + (y - yo), yo - (x - xo))
        } else {
            (xo - (y - yo), yo + (x - xo))
        };
        if par_size && xr >= xo {
            xr = xr - 1;
        }
        if par_size && yr >= yo {
            yr = yr - 1;
        }
        (xr, yr)
    }

    /// Turns the piece a quarter turn in its box, if the board lets it.
    pub fn rotate(&mut self, clockwise: bool, board: &[[u8; 12]; 24]) -> (outcome: MoveResult)
        ensures
            final(self).wf(),
            final(self).size() == old(self).size(),
            final(self).x() == old(self).x(),
            final(self).y() == old(self).y(),
            final(self).tint() == old(self).tint(),
            ({
                let to = old(self).shape().map_values(
                    |cell: (i16, i16)| turned(old(self).size(), clockwise, cell),
                );
                &&& outcome == try_place(*board, to, old(self).x(), old(self).y(), 0)
                &&& if outcome == MoveResult::Moved {
                    final(self).shape() == to
                } else {
                    final(self).shape() == old(self).shape()
                }
            }),
    {
        proof {
            use_type_invariant(&*self);
            assert(0 <= self.shape()[0].0 < self.size());
        }
        let size = self.box_size as i16;
        let rotated_pixels: [(i16, i16); 4] = [
            Tetromino::turn(size, clockwise, self.pixels[0]),
            Tetromino::turn(size, clockwise, self.pixels[1]),
            Tetromino::turn(size, clockwise, self.pixels[2]),
            Tetromino::turn(size, clockwise, self.pixels[3]),
        ];
        assert(rotated_pixels@ =~= old(self).shape().map_values(
            |cell: (i16, i16)| turned(old(self).size(), clockwise, cell),
        ));
        let outcome = Tetromino::check(board, &rotated_pixels, self.urcrnr_x, self.urcrnr_y);
        match outcome {
            MoveResult::Moved => {
                self.pixels = rotated_pixels;
            },
            _ => {},
        }
        outcome
    }
}


/// `rand::Rng::random_range` on the generator of the thread, for the
/// range from 0 up to and without `n`: some number of that range. An
/// empty range makes it panic, so `n` may not be 0.
#[verifier::external_body]
fn random_below(n: usize) -> (k: usize)
    requires
        n > 0,
    ensures
        k < n,
{
    rand::Rng::random_range(&mut rand::rng(), 0..n)
}

/// The shape that stands at place `k` of the seven.
pub fn nth_type(k: usize) -> (kind: TetrominoType)
    ensures
        kind == (if k == 0 {
            TetrominoType::I
        } else if k == 1 {
            TetrominoType::O
        } else if k == 2 {
            TetrominoType::T
        } else if k == 3 {
            TetrominoType::S
        } else if k == 4 {
            TetrominoType::Z
        } else if k == 5 {
            TetrominoType::J
        } else {
            TetrominoType::L
        }),
{
    match k {
        0 => TetrominoType::I,
        1 => TetrominoType::O,
        2 => TetrominoType::T,
        3 => TetrominoType::S,
        4 => TetrominoType::Z,
        5 => TetrominoType::J,
        _ => TetrominoType::L,
    }
}

impl TetrominoType {
    /// One of the seven shapes, drawn at random.
    pub fn random() -> (kind: TetrominoType) {
        nth_type(random_below(7))
    }
}

/// Whether `color` is one of the eight colours.
pub open spec fn known_color(color: u8) -> bool {
    exists|k: int| 0 <= k < 8 && color == COLORS[k]
}

/// Whether a new piece of the given shape has all its cells free at the
/// top of the board.
pub open spec fn fits_at_top(board: [[u8; 12]; 24], kind: TetrominoType) -> bool {
    try_place(board, shape_of(kind), (12 - box_of(kind)) / 2, 0, 0) == MoveResult::Moved
}

/// One of the eight colours, drawn at random.
pub fn get_random_color() -> (color: u8)
    ensures
        known_color(color),
{
    let k = random_below(8);
    COLORS[k]
}

/// A board of filled and free cells, with the piece that is falling, if
/// there is one.
#[derive(Debug)]
pub struct TetrisBoard {
    current_mino: Option<Tetromino>,
    pub cells: [[u8; 12]; 24],
}

impl TetrisBoard {
    /// The piece that is falling.
    pub closed spec fn current(&self) -> Option<Tetromino> {
        self.current_mino
    }

    /// The cells: 0 for a free one, a colour for a filled one.
    pub closed spec fn board(&self) -> [[u8; 12]; 24] {
        self.cells
    }

    /// A board of free cells with no piece.
    pub fn new() -> (made: TetrisBoard)
        ensures
            made.current() is None,
            forall|x: int, y: int| 0 <= x < 12 && 0 <= y < 24 ==> made.board()[y][x] == 0,
    {
        TetrisBoard { current_mino: None, cells: [[0u8; 12]; 24] }
    }

    /// Whether a piece is falling.
    pub fn has_tetromino(&self) -> (yes: bool)
        ensures
            yes == self.current() is Some,
    {
        self.current_mino.is_some()
    }

    /// Whether `after` and `outcome` are what comes of spawning a piece of
    /// the given shape and colour on this board. The cells stay as they
    /// are. Where the piece fits at the top, it becomes the falling piece,
    /// in the middle of the top row and as it is drawn; where it does not,
    /// the spawn collides and the falling piece stays the one it was.
    pub open spec fn spawned(
        self,
        after: TetrisBoard,
        kind: TetrominoType,
        color: u8,
        outcome: MoveResult,
    ) -> bool {
        &&& after.board() == self.board()
        &&& if fits_at_top(self.board(), kind) {
            &&& outcome == MoveResult::Spawned
            &&& after.current() matches Some(piece) && piece.shape() == shape_of(kind)
                && piece.size() == box_of(kind) && piece.x() == (12 - box_of(kind)) / 2
                && piece.y() == 0 && piece.tint() == color
        } else {
            outcome == MoveResult::Collided && after.current() == self.current()
        }
    }

    /// Puts a new piece of the given shape and colour at the top of the
    /// board, unless one of its cells is filled there: then the board
    /// stays as it was.
    pub fn spawn_with(&mut self, tetromino_type: TetrominoType, color: u8) -> (outcome: MoveResult)
        ensures
            old(self).spawned(*final(self), tetromino_type, color, outcome),
    {
        let tetromino = Tetromino::new(tetromino_type, color);
        match tetromino.fits(&self.cells) {
            MoveResult::Moved => {
                self.current_mino = Some(tetromino);
                MoveResult::Spawned
            },
            _ => MoveResult::Collided,
        }
    }

    /// Puts a new piece of a random shape and colour at the top of the
    /// board, unless one of its cells is filled there. What comes of it is
    /// what comes of spawning some one of the seven shapes in some one of
    /// the eight colours: so the spawn succeeds where every shape fits,
    /// and collides where none does.
    pub fn spawn_tetromino(&mut self) -> (outcome: MoveResult)
        ensures
            exists|kind: TetrominoType, color: u8|
                known_color(color) && #[trigger] old(self).spawned(
                    *final(self),
                    kind,
                    color,
                    outcome,
                ),
            final(self).board() == old(self).board(),
            outcome == MoveResult::Spawned || outcome == MoveResult::Collided,
            outcome == MoveResult::Spawned ==> final(self).current() is Some,
            outcome == MoveResult::Collided ==> final(self).current() == old(self).current(),
            (forall|kind: TetrominoType| #[trigger] fits_at_top(old(self).board(), kind))
                ==> outcome == MoveResult::Spawned,
            (forall|kind: TetrominoType| !#[trigger] fits_at_top(old(self).board(), kind))
                ==> outcome == MoveResult::Collided,
    {
        let kind = TetrominoType::random();
        let color = get_random_color();
        let outcome = self.spawn_with(kind, color);
        assert(old(self).spawned(*self, kind, color, outcome));
        outcome
    }

    /// Turns the falling piece clockwise, if the board lets it.
    pub fn rotate(&mut self) -> (outcome: MoveResult)
        ensures
            final(self).board() == old(self).board(),
            match old(self).current() {
                Some(piece) => {
                    let to = piece.shape().map_values(
                        |cell: (i16, i16)| turned(piece.size(), true, cell),
                    );
                    &&& outcome == try_place(old(self).board(), to, piece.x(), piece.y(), 0)
                    &&& final(self).current() matches Some(after) && after.x() == piece.x()
                        && after.y() == piece.y() && after.size() == piece.size() && after.tint()
                        == piece.tint() && after.shape() == (if outcome == MoveResult::Moved {
                        to
                    } else {
                        piece.shape()
                    })
                },
                None => outcome == MoveResult::NoTetromino && final(self).current() is None,
            },
    {
        match &mut self.current_mino {
            Some(tetromino) => tetromino.rotate(true, &self.cells),
            None => MoveResult::NoTetromino,
        }
    }

    /// Moves the falling piece one cell in the given direction, if the
    /// board lets it.
    pub fn shift(&mut self, direction: Direction) -> (outcome: MoveResult)
        ensures
            final(self).board() == old(self).board(),
            match old(self).current() {
                Some(piece) => {
                    let (xo, yo) = match direction {
                        Direction::Left => (piece.x() - 1, piece.y()),
                        Direction::Right => (piece.x() + 1, piece.y()),
                        Direction::Down => (piece.x(), piece.y() + 1),
                    };
                    &&& outcome == try_place(old(self).board(), piece.shape(), xo, yo, 0)
                    &&& final(self).current() matches Some(after) && after.shape() == piece.shape()
                        && after.size() == piece.size() && after.tint() == piece.tint() && (
                    if outcome == MoveResult::Moved {
                        after.x() == xo && after.y() == yo
                    } else {
                        after.x() == piece.x() && after.y() == piece.y()
                    })
                },
                None => outcome == MoveResult::NoTetromino && final(self).current() is None,
            },
    {
        match &mut self.current_mino {
            Some(tetromino) => tetromino.shift(direction, &self.cells),
            None => MoveResult::NoTetromino,
        }
    }

    /// Moves the falling piece one cell to the left, if the board lets it.
    pub fn move_left(&mut self) -> (outcome: MoveResult)
        ensures
            final(self).board() == old(self).board(),
            old(self).current() is None ==> outcome == MoveResult::NoTetromino
                && final(self).current() is None,
            old(self).current() matches Some(piece) ==> {
                &&& outcome == try_place(old(self).board(), piece.shape(), piece.x() - 1, piece.y(), 0)
                &&& final(self).current() matches Some(after) && after.shape() == piece.shape()
                    && after.y() == piece.y() && after.x() == (if outcome == MoveResult::Moved {
                    piece.x() - 1
                } else {
                    piece.x()
                })
            },
    {
        self.shift(Direction::Left)
    }

    /// Moves the falling piece one cell to the right, if the board lets
    /// it.
    pub fn move_right(&mut self) -> (outcome: MoveResult)
        ensures
            final(self).board() == old(self).board(),
            old(self).current() is None ==> outcome == MoveResult::NoTetromino
                && final(self).current() is None,
            old(self).current() matches Some(piece) ==> {
                &&& outcome == try_place(old(self).board(), piece.shape(), piece.x() + 1, piece.y(), 0)
                &&& final(self).current() matches Some(after) && after.shape() == piece.shape()
                    && after.y() == piece.y() && after.x() == (if outcome == MoveResult::Moved {
                    piece.x() + 1
                } else {
                    piece.x()
                })
            },
    {
        self.shift(Direction::Right)
    }

    /// Moves the falling piece one cell down, if the board lets it.
    pub fn move_down(&mut self) -> (outcome: MoveResult)
        ensures
            final(self).board() == old(self).board(),
            old(self).current() is None ==> outcome == MoveResult::NoTetromino
                && final(self).current() is None,
            old(self).current() matches Some(piece) ==> {
                &&& outcome == try_place(old(self).board(), piece.shape(), piece.x(), piece.y() + 1, 0)
                &&& final(self).current() matches Some(after) && after.shape() == piece.shape()
                    && after.x() == piece.x() && after.y() == (if outcome == MoveResult::Moved {
                    piece.y() + 1
                } else {
                    piece.y()
                })
            },
    {
        self.shift(Direction::Down)
    }

    /// The four board cells of the falling piece, each as column and row,
    /// and its colour.
    pub fn get_tetromino_cells(&self) -> (found: Option<([(usize, usize); 4], u8)>)
        ensures
            match self.current() {
                Some(piece) => found matches Some((cells, color)) && color == piece.tint()
                    && forall|k: int|
                    0 <= k < 4 ==> (#[trigger] cells@[k]).0 == piece.x() + piece.shape()[k].0
                        && cells@[k].1 == piece.y() + piece.shape()[k].1 && cells@[k].0 < 12
                        && cells@[k].1 < 24,
                None => found is None,
            },
    {
        match &self.current_mino {
            Some(mino) => Some((mino.board_cells(), mino.color())),
            None => None,
        }
    }
}

impl Tetromino {
    /// What comes of putting the piece onto the board where it is.
    pub fn fits(&self, board: &[[u8; 12]; 24]) -> (outcome: MoveResult)
        ensures
            outcome == try_place(*board, self.shape(), self.x(), self.y(), 0),
            outcome == MoveResult::Moved || outcome == MoveResult::Collided,
    {
        proof {
            use_type_invariant(self);
            assert(0 <= self.shape()[0].0 < self.size());
            lemma_on_board_never_out(*board, self.shape(), self.x(), self.y(), 0);
        }
        Tetromino::check(board, &self.pixels, self.urcrnr_x, self.urcrnr_y)
    }

    /// The four board cells of the piece, each as column and row.
    pub fn board_cells(&self) -> (cells: [(usize, usize); 4])
        ensures
            forall|k: int|
                0 <= k < 4 ==> (#[trigger] cells@[k]).0 == self.x() + self.shape()[k].0
                    && cells@[k].1 == self.y() + self.shape()[k].1 && cells@[k].0 < 12
                    && cells@[k].1 < 24,
    {
        proof {
            use_type_invariant(self);
            assert(0 <= self.shape()[0].0 < self.size());
            assert(0 <= self.shape()[1].0 < self.size());
            assert(0 <= self.shape()[2].0 < self.size());
            assert(0 <= self.shape()[3].0 < self.size());
        }
        [
            (
                (self.urcrnr_x + self.pixels[0].0) as usize,
                (self.urcrnr_y + self.pixels[0].1) as usize,
            ),
            (
                (self.urcrnr_x + self.pixels[1].0) as usize,
                (self.urcrnr_y + self.pixels[1].1) as usize,
            ),
            (
                (self.urcrnr_x + self.pixels[2].0) as usize,
                (self.urcrnr_y + self.pixels[2].1) as usize,
            ),
            (
                (self.urcrnr_x + self.pixels[3].0) as usize,
                (self.urcrnr_y + self.pixels[3].1) as usize,
            ),
        ]
    }
}

/// Cells that all lie on the board never fall off it.
pub proof fn lemma_on_board_never_out(
    board: [[u8; 12]; 24],
    cells: Seq<(i16, i16)>,
    x: int,
    y: int,
    from: int,
)
    requires
        0 <= from <= 4,
        forall|k: int|
            0 <= k < 4 ==> 0 <= x + (#[trigger] cells[k]).0 < 12 && 0 <= y + cells[k].1 < 24,
    ensures
        try_place(board, cells, x, y, from) != MoveResult::OutOfBounds,
        try_place(board, cells, x, y, from) == MoveResult::Moved || try_place(
            board,
            cells,
            x,
            y,
            from,
        ) == MoveResult::Collided,
    decreases 4 - from,
{
    if from < 4 {
        assert(0 <= x + cells[from].0 < 12);
        lemma_on_board_never_out(board, cells, x, y, from + 1);
    }
}

} // verus!
