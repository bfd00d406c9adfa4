//! The text-mode renderer: 40 columns of 6-pixel cells, 24 rows of 8
//! scanlines, one palette index per pixel.

use vstd::prelude::*;
use crate::components::vdp::{TMS9918, VdpState, SCREEN_SIZE, VRAM_SIZE};

verus! {

/// Pixels in a scanline of the frame buffer.
pub const SCREEN_WIDTH: usize = 256;

/// Scanlines in a frame.
pub const SCREEN_HEIGHT: usize = 192;

/// Character cells in a text row.
pub const TEXT_COLUMNS: usize = 40;

/// Pixels in a character cell of text mode.
pub const CELL_WIDTH: usize = 6;

/// Pixels that a text scanline covers: 40 cells of 6.
pub const TEXT_WIDTH: usize = 240;

/// The palette index of text: white.
pub const FOREGROUND: u8 = 15;

/// The palette index behind text: medium blue.
pub const BACKGROUND: u8 = 1;

/// Where the pattern table starts in VRAM: register 2 times `0x400`.
pub open spec fn pattern_table_base(registers: Seq<u8>) -> int {
    registers[2] * 0x400
}

/// The pattern byte for the cell in `column` on scanline `y`: the character
/// code comes from the name table at the start of VRAM, the byte from the
/// code's eight bytes in the pattern table, taken at the line within the
/// cell. An address beyond VRAM counts modulo its size.
pub open spec fn cell_pattern(vram: Seq<u8>, registers: Seq<u8>, y: int, column: int) -> u8 {
    let code = vram[(y / 8) * 40 + column];
    vram[(pattern_table_base(registers) + code * 8 + y % 8) % 0x4000]
}

/// Whether pixel `i` of a cell with pattern byte `pattern` is lit: bit
/// `7 - i` of the pattern.
pub open spec fn pixel_lit(pattern: u8, i: int) -> bool {
    pattern & (0x80u8 >> (i as u8)) != 0
}

/// The palette index of pixel `x` of scanline `y`, for `x` below 240.
pub open spec fn text_pixel(
    vram: Seq<u8>,
    registers: Seq<u8>,
    y: int,
    x: int,
    fg: u8,
    bg: u8,
) -> u8 {
    if pixel_lit(cell_pattern(vram, registers, y, x / 6), x % 6) {
        fg
    } else {
        bg
    }
}

/// The frame buffer after scanline `y` has been rendered into it: the first
/// 240 pixels of row `y` are the text pixels, everything else is as before.
/// A scanline from 192 on gives no output.
pub open spec fn rendered_line(
    buffer: Seq<u8>,
    vram: Seq<u8>,
    registers: Seq<u8>,
    y: int,
    fg: u8,
    bg: u8,
) -> Seq<u8> {
    if 0 <= y < 192 {
        Seq::new(
            buffer.len(),
            |p: int|
                if y * 256 <= p < y * 256 + 240 {
                    text_pixel(vram, registers, y, p - y * 256, fg, bg)
                } else {
                    buffer[p]
                },
        )
    } else {
        buffer
    }
}

/// The frame buffer after the scanlines from `from` up to, not including,
/// `to` have been rendered into it, lowest first.
pub open spec fn rendered_lines(
    buffer: Seq<u8>,
    vram: Seq<u8>,
    registers: Seq<u8>,
    from: int,
    to: int,
    fg: u8,
    bg: u8,
) -> Seq<u8>
    decreases to - from,
{
    if from >= to {
        buffer
    } else {
        rendered_lines(
            rendered_line(buffer, vram, registers, from, fg, bg),
            vram,
            registers,
            from + 1,
            to,
            fg,
            bg,
        )
    }
}

/// Renders scanline `line` of text mode from `vram` into `buffer`.
pub fn render_text_line(
    vram: &[u8; VRAM_SIZE],
    registers: &[u8; 8],
    buffer: &mut [u8; SCREEN_SIZE],
    line: usize,
    fg: u8,
    bg: u8,
)
    ensures
        final(buffer)@ == rendered_line(old(buffer)@, vram@, registers@, line as int, fg, bg),
{
    if line >= SCREEN_HEIGHT {
        return ;
    }
    let base: usize = registers[2] as usize * 0x400;
    let cell_line: usize = line % 8;
    let name_start: usize = (line / 8) * TEXT_COLUMNS;
    let row_start: usize = line * SCREEN_WIDTH;
    let mut column: usize = 0;
    while column < TEXT_COLUMNS
        invariant
            column <= 40,
            line < 192,
            base == pattern_table_base(registers@),
            cell_line == line % 8,
            name_start == (line / 8) * 40,
            row_start == line * 256,
            forall|p: int|
                0 <= p < 49152 ==> #[trigger] buffer@[p] == (if row_start <= p < row_start + column
                    * 6 {
                    text_pixel(vram@, registers@, line as int, p - row_start, fg, bg)
                } else {
                    old(buffer)@[p]
                }),
        decreases 40 - column,
    {
        let code = vram[name_start + column];
        let pattern = vram[(base + code as usize * 8 + cell_line) % VRAM_SIZE];
        let cell_start: usize = row_start + column * CELL_WIDTH;
        let mut i: usize = 0;
        while i < CELL_WIDTH
            invariant
                i <= 6,
                column < 40,
                line < 192,
                row_start == line * 256,
                cell_start == row_start + column * 6,
                pattern == cell_pattern(vram@, registers@, line as int, column as int),
                forall|p: int|
                    0 <= p < 49152 ==> #[trigger] buffer@[p] == (if row_start <= p < cell_start
                        + i {
                        text_pixel(vram@, registers@, line as int, p - row_start, fg, bg)
                    } else {
                        old(buffer)@[p]
                    }),
            decreases 6 - i,
        {
            let mask: u8 = 0x80u8 >> (i as u8);
            let lit = pattern & mask != 0;
            assert(lit == pixel_lit(pattern, i as int));
            assert((cell_start + i - row_start) / 6 == column && (cell_start + i - row_start) % 6
                == i);
            buffer[cell_start + i] = if lit {
                fg
            } else {
                bg
            };
            i = i + 1;
        }
        column = column + 1;
    }
}

/// A renderer with a frame buffer of its own, drawing from a VDP that it
/// only reads.
pub struct Renderer<'a> {
    pub vdp: &'a TMS9918,
    pub screen_buffer: [u8; SCREEN_SIZE],
}

impl<'a> Renderer<'a> {
    /// A renderer for `vdp`, with an all-black buffer.
    pub fn new(vdp: &'a TMS9918) -> (renderer: Renderer<'a>)
        ensures
            renderer.vdp == vdp,
            renderer.screen_buffer@ == Seq::new(49152, |i: int| 0u8),
    {
        let screen_buffer = [0u8; SCREEN_SIZE];
        Renderer { vdp, screen_buffer }
    }

    /// Renders the scanlines from `y0` up to, not including, `y1 - y0`, in
    /// white on blue. The horizontal bounds play no part: text mode renders
    /// whole scanlines.
    pub fn draw(&mut self, _x0: u16, y0: u16, _x1: u16, y1: u16)
        requires
            y0 <= y1,
        ensures
            final(self).vdp == old(self).vdp,
            final(self).screen_buffer@ == rendered_lines(
                old(self).screen_buffer@,
                old(self).vdp@.vram,
                old(self).vdp@.registers,
                y0 as int,
                y1 - y0,
                15,
                1,
            ),
    {
        let fg = FOREGROUND;
        let bg = BACKGROUND;
        let height = y1 - y0;
        let mut y = y0;
        while y < height
            invariant
                self.vdp == old(self).vdp,
                fg == 15,
                bg == 1,
                height == y1 - y0,
                rendered_lines(
                    self.screen_buffer@,
                    self.vdp@.vram,
                    self.vdp@.registers,
                    y as int,
                    height as int,
                    fg,
                    bg,
                ) == rendered_lines(
                    old(self).screen_buffer@,
                    old(self).vdp@.vram,
                    old(self).vdp@.registers,
                    y0 as int,
                    height as int,
                    fg,
                    bg,
                ),
            decreases height - y,
        {
            self.render_text1(y as usize, fg, bg);
            y = y + 1;
        }
    }

    /// Renders scanline `line` of text mode into the renderer's buffer, with
    /// `fg` for lit pixels and `bg` for the others.
    pub fn render_text1(&mut self, line: usize, fg: u8, bg: u8)
        ensures
            final(self).vdp == old(self).vdp,
            final(self).screen_buffer@ == rendered_line(
                old(self).screen_buffer@,
                old(self).vdp@.vram,
                old(self).vdp@.registers,
                line as int,
                fg,
                bg,
            ),
    {
        render_text_line(&self.vdp.vram, &self.vdp.registers, &mut self.screen_buffer, line, fg, bg);
    }
}

impl TMS9918 {
    /// The pattern table: 256 characters of 8 bytes, from register 2 times
    /// `0x400` on. The table has to lie within VRAM.
    pub fn pattern_table(&self) -> (table: &[u8])
        requires
            self.registers@[2] * 0x400 + 0x800 <= 0x4000,
        ensures
            table@ == self.vram@.subrange(
                pattern_table_base(self.registers@),
                pattern_table_base(self.registers@) + 0x800,
            ),
    {
        let base_address = self.registers[2] as usize * 0x400;
        let pattern_table_size: usize = 256 * 8;
        vstd::slice::slice_subrange(self.vram.as_slice(), base_address, base_address + pattern_table_size)
    }

    /// Renders scanline `y` of text mode into the VDP's own frame buffer, in
    /// white on blue.
    pub fn render_scanline(&mut self, y: usize)
        ensures
            final(self)@ == (VdpState {
                screen_buffer: rendered_line(
                    old(self)@.screen_buffer,
                    old(self)@.vram,
                    old(self)@.registers,
                    y as int,
                    15,
                    1,
                ),
                ..old(self)@
            }),
    {
        render_text_line(&self.vram, &self.registers, &mut self.screen_buffer, y, FOREGROUND, BACKGROUND);
    }
}

/// Rendering a scanline in range writes the 240 text pixels of its row, each
/// one the foreground or the background, and touches no other pixel: not the
/// last 16 of the row and no other row. The buffer keeps its size.
pub proof fn lemma_rendered_line(
    buffer: Seq<u8>,
    vram: Seq<u8>,
    registers: Seq<u8>,
    y: int,
    fg: u8,
    bg: u8,
)
    requires
        buffer.len() == 49152,
        0 <= y < 192,
    ensures
        rendered_line(buffer, vram, registers, y, fg, bg).len() == 49152,
        forall|x: int|
            0 <= x < 240 ==> #[trigger] rendered_line(buffer, vram, registers, y, fg, bg)[y * 256
                + x] == text_pixel(vram, registers, y, x, fg, bg),
        forall|x: int|
            0 <= x < 240 ==> {
                let pixel = #[trigger] rendered_line(buffer, vram, registers, y, fg, bg)[y * 256
                    + x];
                pixel == fg || pixel == bg
            },
        forall|p: int|
            0 <= p < 49152 && !(y * 256 <= p < y * 256 + 240) ==> #[trigger] rendered_line(
                buffer,
                vram,
                registers,
                y,
                fg,
                bg,
            )[p] == buffer[p],
{
}

/// A scanline out of range produces no output.
pub proof fn lemma_rendered_line_out_of_range(
    buffer: Seq<u8>,
    vram: Seq<u8>,
    registers: Seq<u8>,
    y: int,
    fg: u8,
    bg: u8,
)
    requires
        y >= 192,
    ensures
        rendered_line(buffer, vram, registers, y, fg, bg) == buffer,
{
}

} // verus!
