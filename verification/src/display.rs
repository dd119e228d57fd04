//! A low-level buffer for braille drawing: a grid of cells, each cell a byte
//! whose bits are the 2x4 dots of one braille character.
//!
//! Dot space is `(width * 2, height * 4)` for a buffer of `width * height`
//! cells. A dot `(x, y)` lives in cell `(x / 2, y / 4)` at bit
//! `4 * (x % 2) + (y % 4)` of that cell's byte.

use vstd::prelude::*;

verus! {

use vstd::string::StringExecFns;

/// Whether bit `j` of `b` is set.
pub open spec fn bit8(b: u8, j: u8) -> bool
    recommends
        j < 8,
{
    (b >> j) & 1 == 1
}

/// `b` with bit `j` set to `v` and every other bit unchanged.
pub open spec fn with_bit(b: u8, j: u8, v: bool) -> u8
    recommends
        j < 8,
{
    if v {
        b | (1u8 << j)
    } else {
        b & !(1u8 << j)
    }
}

/// Setting one bit changes that bit to `v` and leaves the others alone.
pub proof fn lemma_with_bit(b: u8, j: u8, v: bool, k: u8)
    requires
        j < 8,
        k < 8,
    ensures
        bit8(with_bit(b, j, v), k) == (if k == j {
            v
        } else {
            bit8(b, k)
        }),
{
    assert(bit8(with_bit(b, j, v), k) == (if k == j {
        v
    } else {
        bit8(b, k)
    })) by (bit_vector)
        requires
            j < 8,
            k < 8,
    ;
}

/// The offset from U+2800 of the braille character for cell byte `i`: bit `j`
/// of `i` moves to the bit of the Unicode braille offset that stands for the
/// same dot.
///
/// Bits 0..4 of `i` are the left column, rows 0..4 top to bottom; bits 4..8
/// are the right column. Unicode puts the first three rows of the left
/// column at offset bits 0..3, those of the right column at offset bits
/// 3..6, and the fourth row at offset bits 6 and 7, left then right.
pub open spec fn glyph_offset(i: u8) -> u8 {
    (i & 0x07) | ((i & 0x08) << 3) | ((i & 0x70) >> 1) | (i & 0x80)
}

/// The Unicode code point of the braille character for cell byte `i`.
pub open spec fn glyph_code(i: u8) -> u32 {
    (0x2800 + glyph_offset(i)) as u32
}

/// The bit of a braille codepoint offset that stands for the dot addressed by
/// bit `j` of a cell byte.
pub open spec fn braille_dot_bit(j: u8) -> u8
    recommends
        j < 8,
{
    if j < 3 {
        j
    } else if j == 3 {
        6
    } else if j < 7 {
        (j - 1) as u8
    } else {
        7
    }
}

/// The glyph decodes bit `j` of the cell byte as set exactly when bit `j` is
/// set: dot for dot, the braille character shows the cell byte's bits.
pub proof fn lemma_glyph_decodes_bits(i: u8, j: u8)
    requires
        j < 8,
    ensures
        bit8(glyph_offset(i), braille_dot_bit(j)) == bit8(i, j),
{
    assert(bit8(glyph_offset(i), braille_dot_bit(j)) == bit8(i, j)) by (bit_vector)
        requires
            j < 8,
    ;
}

/// Relies on char::from_u32: a value below the surrogate range is a valid
/// Unicode scalar value and maps to the character with exactly that code.
#[verifier::external_body]
fn char_from_code(u: u32) -> (r: char)
    requires
        u < 0xD800,
    ensures
        r as u32 == u,
{
    char::from_u32(u).unwrap()
}

/// Relies on String::push: appends the given character to the end of the
/// string.
#[verifier::external_body]
fn push_char(s: &mut String, c: char)
    ensures
        final(s)@ == old(s)@.push(c),
{
    s.push(c)
}

/// The braille character for cell byte `i`.
///
/// Bits map to dots as:
///
/// 0 4
/// 1 5
/// 2 6
/// 3 7
pub fn get_char(i: u8) -> (r: char)
    ensures
        r as u32 == glyph_code(i),
        0x2800 <= r as u32 <= 0x28FF,
{
    let offset: u8 = (i & 0x07) | ((i & 0x08) << 3) | ((i & 0x70) >> 1) | (i & 0x80);
    char_from_code(0x2800u32 + (offset as u32))
}

/// Checks if the dot at sub-cell coordinates `(x, y)` is set in cell byte `i`.
pub fn is_set(i: u8, x: usize, y: usize) -> (r: bool)
    requires
        x < 2,
        y < 4,
    ensures
        r == bit8(i, (4 * x + y) as u8),
{
    let j: u8 = (4 * x + y) as u8;
    let mask: u8 = 1u8 << j;
    proof {
        assert((i & (1u8 << j) != 0) == ((i >> j) & 1 == 1)) by (bit_vector)
            requires
                j < 8,
        ;
    }
    i & mask != 0
}

/// Sets dots in cell byte `*i` according to a mask.
pub fn set_mask(i: &mut u8, mask: u8)
    ensures
        *final(i) == (*old(i) | mask),
{
    *i |= mask;
}

/// Sets the dot at sub-cell coordinates `(x, y)` in cell byte `*i`.
pub fn set_coord(i: &mut u8, x: usize, y: usize)
    requires
        x < 2,
        y < 4,
    ensures
        *final(i) == with_bit(*old(i), (4 * x + y) as u8, true),
{
    let j: u8 = (4 * x + y) as u8;
    let mask: u8 = 1u8 << j;
    set_mask(i, mask);
}

/// Unsets dots in cell byte `*i` according to a mask: only the bits of the
/// mask survive.
pub fn unset_mask(i: &mut u8, mask: u8)
    ensures
        *final(i) == (*old(i) & mask),
{
    *i &= mask;
}

/// Unsets the dot at sub-cell coordinates `(x, y)` in cell byte `*i`.
pub fn unset_coord(i: &mut u8, x: usize, y: usize)
    requires
        x < 2,
        y < 4,
    ensures
        *final(i) == with_bit(*old(i), (4 * x + y) as u8, false),
{
    let j: u8 = (4 * x + y) as u8;
    let mask: u8 = !(1u8 << j);
    unset_mask(i, mask);
}

/// The bit within a cell byte that holds the dot `(x, y)` of dot space.
pub open spec fn dot_bit(x: int, y: int) -> u8 {
    (4 * (x % 2) + (y % 4)) as u8
}

/// The mathematical value of a `Display`: its cell-grid dimensions and the
/// sequence of its cell bytes, row-major.
#[verifier::ext_equal]
pub struct DisplayModel {
    pub width: nat,
    pub height: nat,
    pub cells: Seq<u8>,
}

impl DisplayModel {
    /// There is one byte per cell, and the dot dimensions fit the machine.
    pub open spec fn wf(self) -> bool {
        &&& self.cells.len() == self.width * self.height
        &&& self.width * 2 <= usize::MAX
        &&& self.height * 4 <= usize::MAX
        &&& self.width * self.height <= usize::MAX
    }

    /// Width of the buffer in dots.
    pub open spec fn dot_w(self) -> int {
        self.width * 2 as int
    }

    /// Height of the buffer in dots.
    pub open spec fn dot_h(self) -> int {
        self.height * 4 as int
    }

    /// Whether dot coordinates lie inside the buffer.
    pub open spec fn in_bounds(self, x: int, y: int) -> bool {
        0 <= x < self.dot_w() && 0 <= y < self.dot_h()
    }

    /// The index of the cell that holds dot `(x, y)`.
    pub open spec fn cell_index(self, x: int, y: int) -> int {
        (y / 4) * self.width + x / 2
    }

    /// Whether the dot at `(x, y)` is set.
    pub open spec fn dot(self, x: int, y: int) -> bool
        recommends
            self.wf(),
            self.in_bounds(x, y),
    {
        bit8(self.cells[self.cell_index(x, y)], dot_bit(x, y))
    }

    /// The buffer after writing `v` to the dot at `(x, y)`; out-of-bounds
    /// coordinates leave it unchanged.
    pub open spec fn sp_set(self, x: int, y: int, v: bool) -> DisplayModel {
        if self.in_bounds(x, y) {
            DisplayModel {
                cells: self.cells.update(
                    self.cell_index(x, y),
                    with_bit(self.cells[self.cell_index(x, y)], dot_bit(x, y), v),
                ),
                ..self
            }
        } else {
            self
        }
    }

    /// The buffer with every dot unset.
    pub open spec fn cleared(self) -> DisplayModel {
        DisplayModel { cells: Seq::new(self.cells.len(), |i: int| 0u8), ..self }
    }
}

/// `a * w + b` with `b` in `[0, w)` determines `a` and `b` uniquely.
proof fn lemma_row_major_unique(a: int, b: int, c: int, d: int, w: int)
    by (nonlinear_arith)
    requires
        0 <= b < w,
        0 <= d < w,
        0 <= a,
        0 <= c,
        a * w + b == c * w + d,
    ensures
        a == c,
        b == d,
{
}

/// The cell index of an in-bounds dot indexes the cell sequence.
pub proof fn lemma_cell_index_in_range(m: DisplayModel, x: int, y: int)
    by (nonlinear_arith)
    requires
        m.wf(),
        m.in_bounds(x, y),
    ensures
        0 <= m.cell_index(x, y) < m.cells.len(),
        0 <= x / 2 < m.width,
        0 <= y / 4 < m.height,
{
}

/// Writing one dot changes exactly that dot: every other in-bounds dot keeps
/// its value, and an out-of-bounds write changes nothing at all.
pub proof fn lemma_sp_set_dot(m: DisplayModel, x: int, y: int, v: bool, i: int, j: int)
    requires
        m.wf(),
        m.in_bounds(i, j),
    ensures
        m.sp_set(x, y, v).dot(i, j) == (if i == x && j == y {
            v
        } else {
            m.dot(i, j)
        }),
{
    if m.in_bounds(x, y) {
        lemma_cell_index_in_range(m, x, y);
        lemma_cell_index_in_range(m, i, j);
        let cx = m.cell_index(x, y);
        let ci = m.cell_index(i, j);
        if ci == cx {
            lemma_row_major_unique(y / 4, x / 2, j / 4, i / 2, m.width as int);
            assert(i / 2 == x / 2 && j / 4 == y / 4);
            lemma_with_bit(m.cells[cx], dot_bit(x, y), v, dot_bit(i, j));
            if i == x && j == y {
            } else {
                assert(i % 2 != x % 2 || j % 4 != y % 4);
                assert(dot_bit(i, j) != dot_bit(x, y));
            }
        } else {
            assert(m.sp_set(x, y, v).cells[ci] == m.cells[ci]);
        }
    }
}

/// Whether `s` is the text of the whole buffer `m`: one line of glyphs per
/// cell row, rows joined by a single newline.
pub open spec fn joined_text(m: DisplayModel, s: Seq<char>) -> bool {
    &&& s.len() == if m.height == 0 {
        0int
    } else {
        m.height * (m.width + 1) - 1
    }
    &&& forall|y: int, x: int|
        0 <= y < m.height && 0 <= x < m.width ==> (#[trigger] s[y * (m.width + 1) + x]) as u32
            == glyph_code(m.cells[y * m.width + x])
    &&& forall|y: int| 0 <= y < m.height - 1 ==> (#[trigger] s[y * (m.width + 1) + m.width]) == '\n'
}

/// Writing one dot keeps the buffer's shape.
pub proof fn lemma_sp_set_shape(m: DisplayModel, x: int, y: int, v: bool)
    requires
        m.wf(),
    ensures
        m.sp_set(x, y, v).wf(),
        m.sp_set(x, y, v).width == m.width,
        m.sp_set(x, y, v).height == m.height,
{
    if m.in_bounds(x, y) {
        lemma_cell_index_in_range(m, x, y);
    }
}

/// A cleared buffer has every dot unset.
pub proof fn lemma_cleared_dots(m: DisplayModel, x: int, y: int)
    requires
        m.wf(),
        m.in_bounds(x, y),
    ensures
        !m.cleared().dot(x, y),
{
    lemma_cell_index_in_range(m, x, y);
    let j = dot_bit(x, y);
    assert((0u8 >> j) & 1 == 0) by (bit_vector);
}

/// A low-level buffer for braille drawing.
#[derive(Debug, PartialEq, Eq)]
pub struct Display {
    width: usize,
    height: usize,
    cells: Vec<u8>,
}

impl View for Display {
    type V = DisplayModel;

    closed spec fn view(&self) -> DisplayModel {
        DisplayModel { width: self.width as nat, height: self.height as nat, cells: self.cells@ }
    }
}

impl Display {
    /// Creates a new `Display` with the given dot size.
    ///
    /// The width must be a multiple of 2 and the height a multiple of 4 so
    /// that the grid maps exactly to braille characters.
    pub fn with_dot_size(width: usize, height: usize) -> (r: Self)
        requires
            width % 2 == 0,
            height % 4 == 0,
            (width / 2) * (height / 4) <= usize::MAX,
        ensures
            r@.wf(),
            r@.width == width / 2,
            r@.height == height / 4,
            r@.dot_w() == width,
            r@.dot_h() == height,
            r@.cells == Seq::new(((width / 2) * (height / 4)) as nat, |i: int| 0u8),
    {
        Self::with_output_size(width / 2, height / 4)
    }

    /// Creates a new `Display` with the given output (character) dimensions.
    pub fn with_output_size(width: usize, height: usize) -> (r: Self)
        requires
            width * 2 <= usize::MAX,
            height * 4 <= usize::MAX,
            width * height <= usize::MAX,
        ensures
            r@.wf(),
            r@.width == width,
            r@.height == height,
            r@.cells == Seq::new((width * height) as nat, |i: int| 0u8),
    {
        let cells = vec![0u8; width * height];
        Self { width, height, cells }
    }

    /// Gets the width of the display in dots.
    pub fn dot_width(&self) -> (r: usize)
        requires
            self@.wf(),
        ensures
            r == self@.dot_w(),
    {
        self.width * 2
    }

    /// Gets the height of the display in dots.
    pub fn dot_height(&self) -> (r: usize)
        requires
            self@.wf(),
        ensures
            r == self@.dot_h(),
    {
        self.height * 4
    }

    /// Gets the size (width, height) of the display in dots.
    pub fn dot_size(&self) -> (r: (usize, usize))
        requires
            self@.wf(),
        ensures
            r.0 == self@.dot_w(),
            r.1 == self@.dot_h(),
    {
        (self.dot_width(), self.dot_height())
    }

    /// Gets the width of the display in characters.
    pub fn output_width(&self) -> (r: usize)
        ensures
            r == self@.width,
    {
        self.width
    }

    /// Gets the height of the display in characters.
    pub fn output_height(&self) -> (r: usize)
        ensures
            r == self@.height,
    {
        self.height
    }

    /// Gets the size (width, height) of the display in characters.
    pub fn output_size(&self) -> (r: (usize, usize))
        ensures
            r.0 == self@.width,
            r.1 == self@.height,
    {
        (self.width, self.height)
    }

    /// Checks if the given dot is set; a dot outside the buffer reads as
    /// unset.
    pub fn is_set(&self, x: usize, y: usize) -> (r: bool)
        requires
            self@.wf(),
        ensures
            r == (self@.in_bounds(x as int, y as int) && self@.dot(x as int, y as int)),
    {
        if x < self.dot_width() && y < self.dot_height() {
            let ((cell_x, subcell_x), (cell_y, subcell_y)) = Self::parse_coord(x, y);
            proof {
                lemma_cell_index_in_range(self@, x as int, y as int);
            }
            let i = self.coord_to_index(cell_x, cell_y);
            is_set(self.cells[i], subcell_x, subcell_y)
        } else {
            false
        }
    }

    /// Sets the given dot; a dot outside the buffer is ignored.
    pub fn set(&mut self, x: usize, y: usize)
        requires
            old(self)@.wf(),
        ensures
            final(self)@ == old(self)@.sp_set(x as int, y as int, true),
            final(self)@.wf(),
    {
        if x < self.dot_width() && y < self.dot_height() {
            let ((cell_x, subcell_x), (cell_y, subcell_y)) = Self::parse_coord(x, y);
            proof {
                lemma_cell_index_in_range(self@, x as int, y as int);
            }
            let i = self.coord_to_index(cell_x, cell_y);
            set_coord(&mut self.cells[i], subcell_x, subcell_y);
        }
    }

    /// Unsets the given dot; a dot outside the buffer is ignored.
    pub fn unset(&mut self, x: usize, y: usize)
        requires
            old(self)@.wf(),
        ensures
            final(self)@ == old(self)@.sp_set(x as int, y as int, false),
            final(self)@.wf(),
    {
        if x < self.dot_width() && y < self.dot_height() {
            let ((cell_x, subcell_x), (cell_y, subcell_y)) = Self::parse_coord(x, y);
            proof {
                lemma_cell_index_in_range(self@, x as int, y as int);
            }
            let i = self.coord_to_index(cell_x, cell_y);
            unset_coord(&mut self.cells[i], subcell_x, subcell_y);
        }
    }

    /// Clears the display by unsetting all of its dots.
    pub fn clear(&mut self)
        requires
            old(self)@.wf(),
        ensures
            final(self)@ == old(self)@.cleared(),
            final(self)@.wf(),
    {
        let n = self.cells.len();
        self.cells = vec![0u8; n];
        proof {
            assert(self@.cells =~= old(self)@.cleared().cells);
        }
    }

    /// Returns a cursor over the lines of the display as `String`s, one per
    /// cell row, each freshly computed from the current buffer state.
    pub fn lines(&self) -> (r: DisplayLines<'_>)
        ensures
            r.display@ == self@,
            r.index == 0,
    {
        DisplayLines { display: self, index: 0 }
    }

    /// The whole buffer as one string: the lines joined by a single newline.
    pub fn to_text(&self) -> (r: String)
        requires
            self@.wf(),
        ensures
            joined_text(self@, r@),
    {
        let mut out = String::new();
        let mut it = self.lines();
        let mut y: usize = 0;
        let ghost wp: int = self@.width + 1 as int;
        while y < self.height
            invariant
                self@.wf(),
                it.display@ == self@,
                it.index == y,
                0 <= y <= self@.height,
                wp == self@.width + 1,
                out@.len() == if y == 0 {
                    0int
                } else {
                    y * (self@.width + 1) - 1
                },
                forall|yy: int, xx: int|
                    0 <= yy < y && 0 <= xx < self@.width ==> (#[trigger] out@[yy * (self@.width + 1)
                        + xx]) as u32 == glyph_code(self@.cells[yy * self@.width + xx]),
                forall|yy: int|
                    0 <= yy < y - 1 ==> (#[trigger] out@[yy * (self@.width + 1) + self@.width])
                        == '\n',
            decreases self@.height - y,
        {
            let ghost pre = out@;
            if y > 0 {
                push_char(&mut out, '\n');
            }
            let ghost before = out@;
            let line = it.next();
            let line = match line {
                Some(l) => l,
                None => String::new(),
            };
            out.append(line.as_str());
            proof {
                assert(0int * wp == 0) by (nonlinear_arith);
                assert((y + 1) * wp == y * wp + wp) by (nonlinear_arith);
                assert(out@ == before + line@);
                assert(before.len() == y * wp);
                assert forall|yy: int, xx: int|
                    0 <= yy < y + 1 && 0 <= xx < self@.width implies (#[trigger] out@[yy * (
                self@.width + 1) + xx]) as u32 == glyph_code(self@.cells[yy * self@.width + xx]) by {
                    if yy < y {
                        assert(yy * wp + xx < y * wp - 1) by (nonlinear_arith)
                            requires
                                0 <= yy < y,
                                0 <= xx < wp - 1,
                        ;
                        assert(out@[yy * wp + xx] == pre[yy * wp + xx]);
                    } else {
                        assert(out@[y * wp + xx] == line@[xx]);
                    }
                }
                assert forall|yy: int| 0 <= yy < y implies (#[trigger] out@[yy * (self@.width + 1)
                    + self@.width]) == '\n' by {
                    if yy < y - 1 {
                        assert(yy * wp + (wp - 1) < y * wp - 1) by (nonlinear_arith)
                            requires
                                0 <= yy < y - 1,
                                1 <= wp,
                        ;
                        assert(out@[yy * wp + self@.width] == pre[yy * wp + self@.width]);
                    } else {
                        assert(yy == y - 1 && y >= 1);
                        assert((y - 1) * wp + (wp - 1) == y * wp - 1) by (nonlinear_arith);
                        assert(before == pre.push('\n'));
                        assert(before[y * wp - 1] == '\n');
                        assert(out@[y * wp - 1] == before[y * wp - 1]);
                    }
                }
            }
            y += 1;
        }
        out
    }

    /// Splits dot coordinates into the cell coordinates and sub-cell
    /// coordinates.
    fn parse_coord(x: usize, y: usize) -> (r: ((usize, usize), (usize, usize)))
        ensures
            r == ((x / 2, x % 2), (y / 4, y % 4)),
    {
        ((x / 2, x % 2), (y / 4, y % 4))
    }

    /// Turns cell coordinates into their corresponding internal array index.
    fn coord_to_index(&self, x: usize, y: usize) -> (r: usize)
        requires
            self@.wf(),
            x < self@.width,
            y < self@.height,
        ensures
            r == y * self@.width + x,
            r < self@.cells.len(),
    {
        proof {
            assert(y * self@.width + x < self@.width * self@.height) by (nonlinear_arith)
                requires
                    x < self@.width,
                    y < self@.height,
            ;
        }
        y * self.width + x
    }
}

/// A cursor over the lines of braille text in a display.
pub struct DisplayLines<'a> {
    pub display: &'a Display,
    pub index: usize,
}

impl<'a> DisplayLines<'a> {
    /// The next line of the display, or `None` once every row was produced:
    /// the glyphs of cell row `index`, left to right.
    pub fn next(&mut self) -> (r: Option<String>)
        requires
            old(self).display@.wf(),
        ensures
            final(self).display == old(self).display,
            old(self).index >= old(self).display@.height ==> r is None && final(self).index == old(
                self,
            ).index,
            old(self).index < old(self).display@.height ==> {
                &&& r is Some
                &&& final(self).index == old(self).index + 1
                &&& r->0@.len() == old(self).display@.width
                &&& forall|x: int|
                    0 <= x < old(self).display@.width ==> (#[trigger] r->0@[x]) as u32 == glyph_code(
                        old(self).display@.cells[old(self).index * old(self).display@.width + x],
                    )
            },
    {
        if self.index >= self.display.output_height() {
            return None;
        }
        let row = self.index;
        let w = self.display.output_width();
        proof {
            assert(row * w + w <= self.display@.width * self.display@.height) by (nonlinear_arith)
                requires
                    row < self.display@.height,
                    w == self.display@.width,
            ;
        }
        let start: usize = row * w;
        let mut line = String::new();
        let mut x: usize = 0;
        while x < w
            invariant
                self.display@.wf(),
                x <= w,
                w == self.display@.width,
                row < self.display@.height,
                start == row * w,
                start + w <= self.display@.cells.len(),
                line@.len() == x,
                forall|i: int|
                    0 <= i < x ==> (#[trigger] line@[i]) as u32 == glyph_code(
                        self.display@.cells[start + i],
                    ),
            decreases w - x,
        {
            let c = get_char(self.display.cells[start + x]);
            push_char(&mut line, c);
            x += 1;
        }
        self.index = row + 1;
        Some(line)
    }
}

} // verus!
