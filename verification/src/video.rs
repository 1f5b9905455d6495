//! Differential rendering: the displayed window of the core's video memory
//! is decoded cell by cell, held against what was last drawn, and only the
//! cells that changed are drawn again.

use vstd::prelude::*;

verus! {

/// Addressable cells in a row of video memory.
pub const COLUMNS: usize = 128;

/// Addressable rows of video memory.
pub const ROWS: usize = 64;

/// Bits in one bank of video memory.
pub const BANK_SIZE: usize = 0x1000;

/// Banks of video memory: two for each of the two bit-planes.
pub const BANKS: usize = 4;

/// First and last displayed row; the rows outside never reach the screen.
pub const FIRST_ROW: usize = 2;

pub const LAST_ROW: usize = 59;

/// First and last displayed column.
pub const FIRST_COLUMN: usize = 20;

pub const LAST_COLUMN: usize = 123;

/// Displayed cells in a row.
pub const WINDOW_WIDTH: usize = 104;

/// Displayed cells in all.
pub const WINDOW_CELLS: usize = 6032;

/// Size of a cell on the output surface, in pixels. Wider than a square
/// would not be, taller still: close to what the television does to the
/// picture.
pub const CELL_WIDTH: usize = 5;

pub const CELL_HEIGHT: usize = 6;

/// The core's video memory as the renderer reads it: four banks of
/// [`BANK_SIZE`] bits.
pub struct VideoRam {
    bits: Vec<bool>,
}

impl View for VideoRam {
    type V = Seq<bool>;

    closed spec fn view(&self) -> Seq<bool> {
        self.bits@
    }
}

/// The bit at `address` of bank `bank`.
pub open spec fn ram_bit(ram: Seq<bool>, bank: int, address: int) -> bool {
    ram[bank * BANK_SIZE + address]
}

impl VideoRam {
    #[verifier::type_invariant]
    spec fn holds_all_banks(self) -> bool {
        self.bits.len() == BANKS * BANK_SIZE
    }

    /// Video memory with every bit clear.
    pub fn new() -> (ram: Self)
        ensures
            ram@.len() == BANKS * BANK_SIZE,
            forall|i: int| 0 <= i < ram@.len() ==> !ram@[i],
    {
        VideoRam { bits: vec![false; 0x4000] }
    }

    /// Reads one bit.
    pub fn read_bit(&self, bank: usize, address: usize) -> (bit: bool)
        requires
            bank < BANKS,
            address < BANK_SIZE,
        ensures
            bit == ram_bit(self@, bank as int, address as int),
            self@.len() == BANKS * BANK_SIZE,
    {
        proof {
            use_type_invariant(self);
        }
        self.bits[bank * BANK_SIZE + address]
    }

    /// Writes one bit.
    pub fn write_bit(&mut self, bank: usize, address: usize, bit: bool)
        requires
            bank < BANKS,
            address < BANK_SIZE,
        ensures
            final(self)@ == old(self)@.update(bank * BANK_SIZE + address, bit),
            ram_bit(final(self)@, bank as int, address as int) == bit,
    {
        proof {
            use_type_invariant(&*self);
        }
        self.bits[bank * BANK_SIZE + address] = bit;
    }
}

/// One decoded cell: two bits that pick its colour, and the two bits that
/// pick the background of its row.
#[derive(Clone, Copy, Debug, PartialEq, Eq)]
pub struct Cell {
    pub color: (bool, bool),
    pub background: (bool, bool),
}

impl Cell {
    /// Whether two cells hold the same bits.
    pub fn same(&self, other: &Cell) -> (equal: bool)
        ensures
            equal == (*self == *other),
    {
        self.color.0 == other.color.0 && self.color.1 == other.color.1 && self.background.0
            == other.background.0 && self.background.1 == other.background.1
    }
}

/// The colours of the fixed palette.
#[derive(Clone, Copy, Debug, PartialEq, Eq, Structural)]
pub enum Color {
    Green,
    Red,
    Blue,
    PaleGreen,
    PaleBlue,
    Grey,
    Black,
}

/// The fill style that paints `color` on the output surface.
pub open spec fn fill_style(color: Color) -> Seq<char> {
    match color {
        Color::Green => "#00ce5a"@,
        Color::Red => "#ff3052"@,
        Color::Blue => "#4a3cf6"@,
        Color::PaleGreen => "#94ffa4"@,
        Color::PaleBlue => "#cdd2ff"@,
        Color::Grey => "#e6e2e6"@,
        Color::Black => "#000000"@,
    }
}

impl Color {
    /// The fill style that paints this colour on the output surface.
    pub fn fill_style(self) -> (style: &'static str)
        ensures
            style@ == fill_style(self),
    {
        match self {
            Color::Green => "#00ce5a",
            Color::Red => "#ff3052",
            Color::Blue => "#4a3cf6",
            Color::PaleGreen => "#94ffa4",
            Color::PaleBlue => "#cdd2ff",
            Color::Grey => "#e6e2e6",
            Color::Black => "#000000",
        }
    }
}

/// One fill of a rectangle on the output surface.
#[derive(Clone, Copy, Debug, PartialEq, Eq, Structural)]
pub struct DrawCall {
    pub color: Color,
    pub x: usize,
    pub y: usize,
    pub width: usize,
    pub height: usize,
}

/// The two colour bits of the cell in column `x` of row `y`: one from each
/// bit-plane, the row-major address taken from the upper bank of the plane
/// once it leaves the lower one.
pub open spec fn pixel_bits(ram: Seq<bool>, x: int, y: int) -> (bool, bool) {
    let address = x + y * COLUMNS;
    if address < BANK_SIZE {
        (ram_bit(ram, 0, address), ram_bit(ram, 2, address))
    } else {
        (ram_bit(ram, 1, address - BANK_SIZE), ram_bit(ram, 3, address - BANK_SIZE))
    }
}

/// The two background bits of row `y`: columns 1 and 2 of the row in the
/// second bit-plane.
pub open spec fn background_bits(ram: Seq<bool>, y: int) -> (bool, bool) {
    let address = y * COLUMNS + 1;
    if address < BANK_SIZE {
        (ram_bit(ram, 2, address), ram_bit(ram, 2, address + 1))
    } else {
        (ram_bit(ram, 3, address - BANK_SIZE), ram_bit(ram, 3, address + 1 - BANK_SIZE))
    }
}

/// The cell in column `x` of row `y` as video memory has it.
pub open spec fn decode(ram: Seq<bool>, x: int, y: int) -> Cell {
    Cell { color: pixel_bits(ram, x, y), background: background_bits(ram, y) }
}

/// The background colour that two background bits pick.
pub open spec fn background_color(bits: (bool, bool)) -> Color {
    match bits {
        (true, true) => Color::PaleGreen,
        (false, true) => Color::PaleBlue,
        (true, false) => Color::Grey,
        (false, false) => Color::Black,
    }
}

/// The colour a cell is drawn in: one of three foreground colours, or the
/// background of its row where both colour bits are clear.
pub open spec fn cell_color(cell: Cell) -> Color {
    match cell.color {
        (true, true) => Color::Green,
        (false, true) => Color::Red,
        (true, false) => Color::Blue,
        (false, false) => background_color(cell.background),
    }
}

/// Whether the cell in column `x` of row `y` is displayed.
pub open spec fn displayed(x: int, y: int) -> bool {
    FIRST_COLUMN <= x <= LAST_COLUMN && FIRST_ROW <= y <= LAST_ROW
}

/// Where the cache keeps the cell in column `x` of row `y`.
pub open spec fn cache_index(x: int, y: int) -> int {
    x * ROWS + y
}

/// The rectangle that shows the cell in column `x` of row `y`: columns run
/// from right to left on the surface and rows from bottom to top.
pub open spec fn draw_call(x: int, y: int, cell: Cell) -> DrawCall {
    DrawCall {
        color: cell_color(cell),
        x: ((LAST_COLUMN - x) * CELL_WIDTH) as usize,
        y: ((LAST_ROW - y) * CELL_HEIGHT) as usize,
        width: CELL_WIDTH,
        height: CELL_HEIGHT,
    }
}

/// Column of the `k`-th displayed cell in drawing order.
pub open spec fn scan_x(k: int) -> int {
    FIRST_COLUMN + k % (WINDOW_WIDTH as int)
}

/// Row of the `k`-th displayed cell in drawing order.
pub open spec fn scan_y(k: int) -> int {
    FIRST_ROW + k / (WINDOW_WIDTH as int)
}

/// The fills issued for the first `k` displayed cells, row by row: one for
/// each cell whose decoded value differs from the cached one, none for the
/// others.
pub open spec fn draws_upto(cache: Seq<Cell>, ram: Seq<bool>, k: nat) -> Seq<DrawCall>
    decreases k,
{
    if k == 0 {
        Seq::empty()
    } else {
        let earlier = draws_upto(cache, ram, (k - 1) as nat);
        let x = scan_x(k - 1);
        let y = scan_y(k - 1);
        if cache[cache_index(x, y)] != decode(ram, x, y) {
            earlier.push(draw_call(x, y, decode(ram, x, y)))
        } else {
            earlier
        }
    }
}

/// The fills issued by one rendering pass.
pub open spec fn draws(cache: Seq<Cell>, ram: Seq<bool>) -> Seq<DrawCall> {
    draws_upto(cache, ram, WINDOW_CELLS as nat)
}

/// The cache after one rendering pass: every displayed cell as video
/// memory has it, every other cell untouched.
pub open spec fn rendered(cache: Seq<Cell>, ram: Seq<bool>) -> Seq<Cell> {
    Seq::new(
        cache.len(),
        |i: int|
            if displayed(i / (ROWS as int), i % (ROWS as int)) {
                decode(ram, i / (ROWS as int), i % (ROWS as int))
            } else {
                cache[i]
            },
    )
}

/// Reads the two background bits of row `y`.
pub fn get_background_bits(ram: &VideoRam, y: usize) -> (bits: (bool, bool))
    requires
        y < ROWS,
    ensures
        bits == background_bits(ram@, y as int),
{
    let address: usize = y * 128 + 1;
    let bit0 = if address < 0x1000 {
        ram.read_bit(2, address)
    } else {
        ram.read_bit(3, address - 0x1000)
    };
    let bit1 = if address < 0x1000 {
        ram.read_bit(2, address + 1)
    } else {
        ram.read_bit(3, (address + 1) - 0x1000)
    };
    (bit0, bit1)
}

/// Reads the two colour bits of the cell in column `x` of row `y`.
pub fn get_pixel(ram: &VideoRam, x: usize, y: usize) -> (bits: (bool, bool))
    requires
        x < COLUMNS,
        y < ROWS,
    ensures
        bits == pixel_bits(ram@, x as int, y as int),
{
    let address: usize = x + y * 128;
    let bit0 = if address < 0x1000 {
        ram.read_bit(0, address)
    } else {
        ram.read_bit(1, address - 0x1000)
    };
    let bit1 = if address < 0x1000 {
        ram.read_bit(2, address)
    } else {
        ram.read_bit(3, address - 0x1000)
    };
    (bit0, bit1)
}

/// The colour a cell with colour bits `color` is drawn in on a row with
/// background bits `background`.
pub fn palette(color: (bool, bool), background: (bool, bool)) -> (paint: Color)
    ensures
        paint == cell_color(Cell { color, background }),
{
    let row_color = match background {
        (true, true) => Color::PaleGreen,
        (false, true) => Color::PaleBlue,
        (true, false) => Color::Grey,
        (false, false) => Color::Black,
    };
    match color {
        (true, true) => Color::Green,
        (false, true) => Color::Red,
        (true, false) => Color::Blue,
        (false, false) => row_color,
    }
}

/// The renderer: what was last drawn for every addressable cell.
pub struct Video {
    memory: Vec<Cell>,
}

impl View for Video {
    type V = Seq<Cell>;

    closed spec fn view(&self) -> Seq<Cell> {
        self.memory@
    }
}

impl Video {
    #[verifier::type_invariant]
    spec fn holds_every_cell(self) -> bool {
        self.memory.len() == COLUMNS * ROWS
    }

    /// A renderer for a surface on which nothing was drawn yet: every cell
    /// cached with all four bits clear.
    pub fn new() -> (video: Self)
        ensures
            video@.len() == COLUMNS * ROWS,
            forall|i: int|
                0 <= i < video@.len() ==> video@[i] == (Cell {
                    color: (false, false),
                    background: (false, false),
                }),
    {
        Video { memory: vec![Cell { color: (false, false), background: (false, false) }; 8192] }
    }

    /// What was last drawn for the cell in column `x` of row `y`.
    pub fn cached(&self, x: usize, y: usize) -> (cell: Cell)
        requires
            x < COLUMNS,
            y < ROWS,
        ensures
            cell == self@[cache_index(x as int, y as int)],
            self@.len() == COLUMNS * ROWS,
    {
        proof {
            use_type_invariant(self);
        }
        self.memory[x * 64 + y]
    }

    /// One rendering pass over the displayed window. Returns the fills to
    /// issue, in order; the cache then holds what they leave on the
    /// surface.
    pub fn run_refresh_cycle(&mut self, ram: &VideoRam) -> (calls: Vec<DrawCall>)
        ensures
            calls@ == draws(old(self)@, ram@),
            final(self)@ == rendered(old(self)@, ram@),
    {
        proof {
            use_type_invariant(&*self);
        }
        let mut calls: Vec<DrawCall> = Vec::new();
        let mut y: usize = 2;
        while y <= 59
            invariant
                2 <= y <= 60,
                self.memory.len() == COLUMNS * ROWS,
                old(self).memory.len() == COLUMNS * ROWS,
                calls@ == draws_upto(old(self)@, ram@, ((y - 2) * 104) as nat),
                forall|i: int|
                    0 <= i < 8192 ==> self.memory@[i] == if displayed(i / 64, i % 64) && i % 64
                        < y {
                        decode(ram@, i / 64, i % 64)
                    } else {
                        old(self).memory@[i]
                    },
            decreases 60 - y,
        {
            let background = get_background_bits(ram, y);
            let mut x: usize = 20;
            while x <= 127 - 4
                invariant
                    2 <= y <= 59,
                    20 <= x <= 124,
                    background == background_bits(ram@, y as int),
                    self.memory.len() == COLUMNS * ROWS,
                    old(self).memory.len() == COLUMNS * ROWS,
                    calls@ == draws_upto(old(self)@, ram@, ((y - 2) * 104 + (x - 20)) as nat),
                    forall|i: int|
                        0 <= i < 8192 ==> self.memory@[i] == if displayed(i / 64, i % 64) && (i
                            % 64 < y || (i % 64 == y && i / 64 < x)) {
                            decode(ram@, i / 64, i % 64)
                        } else {
                            old(self).memory@[i]
                        },
                decreases 124 - x,
            {
                let color = get_pixel(ram, x, y);
                let cell = Cell { color, background };
                assert(cache_index(x as int, y as int) / 64 == x && cache_index(x as int, y as int)
                    % 64 == y);
                if !self.memory[x * 64 + y].same(&cell) {
                    self.memory[x * 64 + y] = cell;
                    calls.push(
                        DrawCall {
                            color: palette(color, background),
                            x: (127 - 4 - x) * 5,
                            y: (59 - y) * 6,
                            width: 5,
                            height: 6,
                        },
                    );
                }
                x += 1;
            }
            y += 1;
        }
        calls
    }
}

/// A second pass over the same video memory issues no fill and leaves the
/// cache as the first pass left it.
pub proof fn lemma_second_pass_draws_nothing(cache: Seq<Cell>, ram: Seq<bool>)
    requires
        cache.len() == COLUMNS * ROWS,
    ensures
        draws(rendered(cache, ram), ram) == Seq::<DrawCall>::empty(),
        rendered(rendered(cache, ram), ram) == rendered(cache, ram),
{
    lemma_no_draws_upto(cache, ram, WINDOW_CELLS as nat);
}

/// After a pass, no prefix of a further pass over the same video memory
/// issues a fill.
proof fn lemma_no_draws_upto(cache: Seq<Cell>, ram: Seq<bool>, k: nat)
    requires
        cache.len() == COLUMNS * ROWS,
        k <= WINDOW_CELLS,
    ensures
        draws_upto(rendered(cache, ram), ram, k) == Seq::<DrawCall>::empty(),
    decreases k,
{
    if k > 0 {
        lemma_no_draws_upto(cache, ram, (k - 1) as nat);
        let x = scan_x(k - 1);
        let y = scan_y(k - 1);
    }
}

} // verus!
