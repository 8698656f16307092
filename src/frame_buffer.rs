//! The frame buffer: a 1024 x 768 screen of 32-bit pixels in word-addressed
//! video memory, a text cursor on its bottom line, and glyphs from the Noto
//! Sans Mono bitmap font.
use vstd::prelude::*;
use noto_sans_mono_bitmap::{get_bitmap, BitmapHeight, FontWeight};
use crate::exception::CpuIrqState;
use crate::mailbox::{Messege, MESSAGE_WORDS};
use crate::synchronization::{IRQSafeNullLock, Mutex};
use vstd::string::StrSliceExecFns;

verus! {

/// Screen width in pixels.
pub const BUFFER_WIDTH: usize = 1024;

/// Screen height in pixels.
pub const BUFFER_HEIGHT: usize = 768;

/// Horizontal advance of the text cursor per character.
pub const FONT_WIDTH: usize = 8;

/// Height of a text line.
pub const FONT_HEIGHT: usize = 16;

/// Width of a glyph of the font.
pub const GLYPH_WIDTH: usize = 9;

/// The largest pitch (bytes per screen line) that the buffer takes.
pub const MAX_PITCH: u32 = 0x10_0000;

/// The rows of pixel intensities of the glyph of `c` in the regular
/// 16-pixel Noto Sans Mono bitmap font, if the font has `c`.
pub uninterp spec fn glyph_of(c: char) -> Option<Seq<Seq<u8>>>;

/// Relies on `noto_sans_mono_bitmap::get_bitmap` with the regular weight
/// and the 16-pixel height: `None` for a character that the font lacks,
/// else the glyph's rows of intensities; every glyph of that font and size
/// has 16 rows of 9 pixels.
#[verifier::external_body]
fn glyph_bitmap(c: char) -> (r: Option<Vec<Vec<u8>>>)
    ensures
        match r {
            None => glyph_of(c) is None,
            Some(rows) => glyph_of(c) == Some(rows@.map_values(|row: Vec<u8>| row@)) && rows@.len()
                == FONT_HEIGHT && forall|i: int| 0 <= i < FONT_HEIGHT ==> (#[trigger] rows@[i])@.len() == GLYPH_WIDTH,
        },
{
    get_bitmap(c, FontWeight::Regular, BitmapHeight::Size16).map(
        |b| b.bitmap().iter().map(|row| row.to_vec()).collect(),
    )
}

/// A pixel colour.
#[derive(Clone, Copy, PartialEq, Eq, Structural, Debug)]
pub struct RGBColor {
    pub r: u8,
    pub g: u8,
    pub b: u8,
}

/// The video memory word of colour `c`: blue in bits 16..24, green in bits
/// 8..16, red in bits 0..8.
pub open spec fn pixel_word(c: RGBColor) -> u32 {
    ((c.b as u32) << 16u32) | ((c.g as u32) << 8u32) | (c.r as u32)
}

/// The colour that a video memory word holds, in the layout of
/// `pixel_word`.
pub open spec fn word_color(w: u32) -> RGBColor {
    RGBColor { b: ((w & 0xFF_0000) >> 16u32) as u8, g: ((w & 0xFF00) >> 8u32) as u8, r: (w & 0xFF) as u8 }
}

/// Reading a pixel gives back the colour written to it.
pub proof fn lemma_pixel_round_trip(c: RGBColor)
    ensures
        word_color(pixel_word(c)) == c,
{
    let (r, g, b) = (c.r, c.g, c.b);
    assert((((((b as u32) << 16u32) | ((g as u32) << 8u32) | (r as u32)) & 0xFF_0000) >> 16u32) as u8 == b)
        by (bit_vector);
    assert((((((b as u32) << 16u32) | ((g as u32) << 8u32) | (r as u32)) & 0xFF00) >> 8u32) as u8 == g)
        by (bit_vector);
    assert(((((b as u32) << 16u32) | ((g as u32) << 8u32) | (r as u32)) & 0xFF) as u8 == r) by (bit_vector);
}

/// A pixel of the screen has an index within video memory.
proof fn lemma_index_in_bounds(pw: int, y: int, x: int)
    requires
        0 <= y < BUFFER_HEIGHT,
        0 <= x < BUFFER_WIDTH,
        BUFFER_WIDTH <= pw,
    ensures
        0 <= y * pw + x < BUFFER_HEIGHT * pw,
{
    assert(0 <= y * pw + x < BUFFER_HEIGHT * pw) by (nonlinear_arith)
        requires
            0 <= y < BUFFER_HEIGHT,
            0 <= x < BUFFER_WIDTH,
            BUFFER_WIDTH <= pw,
    ;
}

/// Black is the zero word.
proof fn lemma_black_is_zero()
    ensures
        pixel_word(RGBColor { r: 0, g: 0, b: 0 }) == 0,
{
    assert(((0u8 as u32) << 16u32) | ((0u8 as u32) << 8u32) | (0u8 as u32) == 0u32) by (bit_vector);
}

/// Pixels of distinct positions within the screen's width have distinct
/// memory indices.
proof fn lemma_index_distinct(pw: int, y1: int, x1: int, y2: int, x2: int)
    requires
        0 <= x1 < pw,
        0 <= x2 < pw,
        0 <= y1,
        0 <= y2,
        y1 != y2 || x1 != x2,
    ensures
        y1 * pw + x1 != y2 * pw + x2,
{
    if y1 < y2 {
        assert((y1 + 1) * pw <= y2 * pw) by (nonlinear_arith)
            requires
                y1 + 1 <= y2,
                pw >= 0,
        ;
        assert((y1 + 1) * pw == y1 * pw + pw) by (nonlinear_arith);
    } else if y2 < y1 {
        assert((y2 + 1) * pw <= y1 * pw) by (nonlinear_arith)
            requires
                y2 + 1 <= y1,
                pw >= 0,
        ;
        assert((y2 + 1) * pw == y2 * pw + pw) by (nonlinear_arith);
    }
}

/// The word that a pixel copied through `read_pixel` and `write_pixel`
/// gets.
pub open spec fn repaint(w: u32) -> u32 {
    pixel_word(word_color(w))
}

/// The grey of intensity `i`.
pub open spec fn grey(i: u8) -> RGBColor {
    RGBColor { r: i, g: i, b: i }
}

/// The frame buffer's request words: physical and virtual size, depth,
/// pitch, and buffer allocation, as the firmware's property interface
/// takes them.
pub open spec fn init_request(fb: FrameBufferInner) -> Seq<u32> {
    seq![
        104u32, 0u32,
        0x4_8003, 8, 8, fb.phyis_width, fb.phyis_height,
        0x4_8004, 8, 8, fb.width, fb.heigth,
        0x4_8005, 4, 4, fb.depth,
        0x4_0008, 4, 4, fb.pitch,
        0x4_0001, 8, 8, 0, 0,
        0,
    ]
}

/// The frame buffer and its text cursor.
#[derive(Clone, Debug)]
pub struct FrameBufferInner {
    pub phyis_width: u32,
    pub phyis_height: u32,
    pub width: u32,
    pub heigth: u32,
    pub pitch: u32,
    pub depth: u32,
    pub _x_offset: u32,
    pub _y_offset: u32,
    pub addr: u32,
    pub size: u32,
    pub row: usize,
    pub col: usize,
    pub row_position: usize,
    pub column_position: usize,
    /// Video memory, one word per 32-bit pixel, line after line.
    pub memory: Vec<u32>,
}

/// Words per screen line of a buffer with `pitch` bytes per line.
pub open spec fn line_words(pitch: u32) -> int {
    pitch as int / 4
}

impl FrameBufferInner {
    /// The buffer can be drawn on: 32-bit pixels, lines of whole words
    /// that hold the screen's width, video memory for the whole screen, and
    /// the cursor on a line of the screen.
    pub open spec fn wf(&self) -> bool {
        &&& 25 <= self.depth <= 32
        &&& self.pitch % 4 == 0
        &&& BUFFER_WIDTH <= line_words(self.pitch)
        &&& self.pitch <= MAX_PITCH
        &&& self.memory@.len() == BUFFER_HEIGHT * line_words(self.pitch)
        &&& self.row_position + FONT_HEIGHT <= BUFFER_HEIGHT
        &&& self.column_position < BUFFER_WIDTH
    }

    /// The memory index of pixel `(y, x)`.
    pub open spec fn index(&self, y: int, x: int) -> int {
        y * line_words(self.pitch) + x
    }

    /// The word of pixel `(y, x)`.
    pub open spec fn pixel(&self, y: int, x: int) -> u32 {
        self.memory@[self.index(y, x)]
    }

    /// The buffer as configured before the firmware answers: 1024 x 768
    /// physical, 840 x 480 virtual, 32 bits per pixel, cursor at the start
    /// of the bottom line, no video memory yet.
    pub fn new() -> (r: Self)
        ensures
            r.phyis_width == BUFFER_WIDTH && r.phyis_height == BUFFER_HEIGHT,
            r.width == 840 && r.heigth == 480,
            r.depth == 32 && r.pitch == 0 && r.addr == 0 && r.size == 0,
            r.row_position == BUFFER_HEIGHT - FONT_HEIGHT && r.column_position == 0,
            r.memory@.len() == 0,
    {
        FrameBufferInner {
            phyis_width: 1024,
            phyis_height: 768,
            width: 840,
            heigth: 480,
            pitch: 0,
            depth: 32,
            _x_offset: 0,
            _y_offset: 0,
            addr: 0,
            size: 0,
            row: 0,
            col: 0,
            row_position: BUFFER_HEIGHT - FONT_HEIGHT,
            column_position: 0,
            memory: Vec::new(),
        }
    }

    /// Writes the request words of the frame buffer's set-up into `msg`.
    pub fn init_msg(&self, msg: &mut Messege)
        requires
            old(msg).data@.len() == MESSAGE_WORDS,
        ensures
            final(msg).channel == old(msg).channel,
            final(msg).data@ == init_request(*self) + old(msg).data@.subrange(26, MESSAGE_WORDS as int),
    {
        let words: [u32; 26] = [
            104, 0,
            0x4_8003, 8, 8, self.phyis_width, self.phyis_height,
            0x4_8004, 8, 8, self.width, self.heigth,
            0x4_8005, 4, 4, self.depth,
            0x4_0008, 4, 4, self.pitch,
            0x4_0001, 8, 8, 0, 0,
            0,
        ];
        let mut i: usize = 0;
        while i < 26
            invariant
                msg.channel == old(msg).channel,
                msg.data@.len() == MESSAGE_WORDS,
                words@ == init_request(*self),
                i <= 26,
                forall|j: int| 0 <= j < i ==> #[trigger] msg.data@[j] == words@[j],
                forall|j: int| 26 <= j < MESSAGE_WORDS ==> #[trigger] msg.data@[j] == old(msg).data@[j],
            decreases 26 - i,
        {
            msg.data[i] = words[i];
            i = i + 1;
        }
        assert(msg.data@ =~= init_request(*self) + old(msg).data@.subrange(26, MESSAGE_WORDS as int));
    }

    /// Takes the firmware's answer `msg`: depth, pitch, buffer address and
    /// size; provides video memory for the screen when the pitch is within
    /// `MAX_PITCH`.
    pub fn init(&mut self, msg: &Messege)
        requires
            msg.data@.len() == MESSAGE_WORDS,
        ensures
            final(self).depth == msg.data@[15],
            final(self).pitch == msg.data@[19],
            final(self).addr == msg.data@[23],
            final(self).size == msg.data@[24],
            final(self).row_position == old(self).row_position,
            final(self).column_position == old(self).column_position,
            msg.data@[19] <= MAX_PITCH ==> final(self).memory@.len() == BUFFER_HEIGHT * line_words(msg.data@[19]),
            forall|i: int| 0 <= i < final(self).memory@.len() ==> #[trigger] final(self).memory@[i] == 0,
    {
        self.depth = msg.data[15];
        self.pitch = msg.data[19];
        self.addr = msg.data[23];
        self.size = msg.data[24];
        let mut memory: Vec<u32> = Vec::new();
        if self.pitch <= MAX_PITCH {
            let total: usize = BUFFER_HEIGHT * ((self.pitch / 4) as usize);
            while memory.len() < total
                invariant
                    memory@.len() <= total,
                    forall|i: int| 0 <= i < memory@.len() ==> #[trigger] memory@[i] == 0,
                decreases total - memory@.len(),
            {
                memory.push(0);
            }
        }
        self.memory = memory;
    }

    /// Whether the buffer can be drawn on.
    pub fn is_ready(&self) -> (r: bool)
        ensures
            r == self.wf(),
    {
        25 <= self.depth && self.depth <= 32 && self.pitch % 4 == 0 && BUFFER_WIDTH <= (self.pitch / 4) as usize
            && self.pitch <= MAX_PITCH && self.memory.len() == BUFFER_HEIGHT * ((self.pitch / 4) as usize)
            && self.row_position <= BUFFER_HEIGHT - FONT_HEIGHT && self.column_position < BUFFER_WIDTH
    }

    /// The memory index of pixel `(y, x)`.
    fn index_of(&self, y: usize, x: usize) -> (r: usize)
        requires
            self.wf(),
            y < BUFFER_HEIGHT,
            x < BUFFER_WIDTH,
        ensures
            r == self.index(y as int, x as int),
            r < self.memory@.len(),
    {
        let pw = (self.pitch / 4) as usize;
        assert(y * pw + x < BUFFER_HEIGHT * pw) by (nonlinear_arith)
            requires y < BUFFER_HEIGHT, x < BUFFER_WIDTH, BUFFER_WIDTH <= pw;
        y * pw + x
    }

    /// The colour of pixel `(y, x)`.
    pub fn read_pixel(&self, y: usize, x: usize) -> (r: RGBColor)
        requires
            self.wf(),
            y < BUFFER_HEIGHT,
            x < BUFFER_WIDTH,
        ensures
            r == word_color(self.pixel(y as int, x as int)),
    {
        let ch = self.memory[self.index_of(y, x)];
        let b = (ch & 0xFF_0000) >> 16u32;
        let g = (ch & 0xFF00) >> 8u32;
        let r = ch & 0xFF;
        RGBColor { r: r as u8, g: g as u8, b: b as u8 }
    }

    /// Sets pixel `(y, x)` to colour `c`.
    pub fn write_pixel(&mut self, y: usize, x: usize, c: RGBColor)
        requires
            old(self).wf(),
            y < BUFFER_HEIGHT,
            x < BUFFER_WIDTH,
        ensures
            final(self).wf(),
            final(self).pitch == old(self).pitch,
            final(self).row_position == old(self).row_position,
            final(self).column_position == old(self).column_position,
            0 <= old(self).index(y as int, x as int) < old(self).memory@.len(),
            final(self).memory@ == old(self).memory@.update(old(self).index(y as int, x as int), pixel_word(c)),
    {
        let i = self.index_of(y, x);
        self.memory[i] = ((c.b as u32) << 16u32) | ((c.g as u32) << 8u32) | (c.r as u32);
    }

    /// Blanks screen line `y`.
    pub fn clear_row(&mut self, y: usize)
        requires
            old(self).wf(),
            y < BUFFER_HEIGHT,
        ensures
            final(self).wf(),
            final(self).pitch == old(self).pitch,
            final(self).row_position == old(self).row_position,
            final(self).column_position == old(self).column_position,
            forall|yy: int, xx: int|
                0 <= yy < BUFFER_HEIGHT && 0 <= xx < BUFFER_WIDTH ==> #[trigger] final(self).pixel(yy, xx) == if yy
                    == y {
                    0
                } else {
                    old(self).pixel(yy, xx)
                },
    {
        let mut col: usize = 0;
        while col < BUFFER_WIDTH
            invariant
                self.wf(),
                self.pitch == old(self).pitch,
                self.row_position == old(self).row_position,
                self.column_position == old(self).column_position,
                y < BUFFER_HEIGHT,
                col <= BUFFER_WIDTH,
                forall|yy: int, xx: int|
                    0 <= yy < BUFFER_HEIGHT && 0 <= xx < BUFFER_WIDTH ==> #[trigger] self.pixel(yy, xx) == if yy
                        == y && xx < col {
                        0
                    } else {
                        old(self).pixel(yy, xx)
                    },
            decreases BUFFER_WIDTH - col,
        {
            let ghost prev = *self;
            let color = RGBColor { r: 0, g: 0, b: 0 };
            self.write_pixel(y, col, color);
            proof {
                lemma_black_is_zero();
                assert forall|yy: int, xx: int|
                    0 <= yy < BUFFER_HEIGHT && 0 <= xx < BUFFER_WIDTH implies #[trigger] self.pixel(yy, xx) == if yy
                        == y && xx < col + 1 {
                        0
                    } else {
                        old(self).pixel(yy, xx)
                    } by {
                    if yy == y && xx == col {
                        assert(self.pixel(yy, xx) == pixel_word(color));
                    } else {
                        lemma_index_distinct(line_words(self.pitch), yy, xx, y as int, col as int);
                        lemma_index_in_bounds(line_words(self.pitch), yy, xx);
                        assert(prev.pixel(yy, xx) == if yy == y && xx < col { 0 } else { old(self).pixel(yy, xx) });
                    }
                }
            }
            col = col + 1;
        }
    }

    /// Draws `glyph` (16 rows of 9 intensities) in grey with its top left
    /// corner at `(y, x)`.
    pub fn draw_glyph(&mut self, y: usize, x: usize, glyph: &Vec<Vec<u8>>)
        requires
            old(self).wf(),
            glyph@.len() == FONT_HEIGHT,
            forall|i: int| 0 <= i < FONT_HEIGHT ==> (#[trigger] glyph@[i])@.len() == GLYPH_WIDTH,
            y + FONT_HEIGHT <= BUFFER_HEIGHT,
            x + GLYPH_WIDTH <= BUFFER_WIDTH,
        ensures
            final(self).wf(),
            final(self).pitch == old(self).pitch,
            final(self).row_position == old(self).row_position,
            final(self).column_position == old(self).column_position,
            forall|yy: int, xx: int|
                0 <= yy < BUFFER_HEIGHT && 0 <= xx < BUFFER_WIDTH ==> #[trigger] final(self).pixel(yy, xx) == if y
                    <= yy < y + FONT_HEIGHT && x <= xx < x + GLYPH_WIDTH {
                    pixel_word(grey(glyph@[yy - y]@[xx - x]))
                } else {
                    old(self).pixel(yy, xx)
                },
    {
        let mut row_i: usize = 0;
        while row_i < FONT_HEIGHT
            invariant
                self.wf(),
                self.pitch == old(self).pitch,
                self.row_position == old(self).row_position,
                self.column_position == old(self).column_position,
                glyph@.len() == FONT_HEIGHT,
                forall|i: int| 0 <= i < FONT_HEIGHT ==> (#[trigger] glyph@[i])@.len() == GLYPH_WIDTH,
                y + FONT_HEIGHT <= BUFFER_HEIGHT,
                x + GLYPH_WIDTH <= BUFFER_WIDTH,
                row_i <= FONT_HEIGHT,
                forall|yy: int, xx: int|
                    0 <= yy < BUFFER_HEIGHT && 0 <= xx < BUFFER_WIDTH ==> #[trigger] self.pixel(yy, xx) == if y
                        <= yy < y + row_i && x <= xx < x + GLYPH_WIDTH {
                        pixel_word(grey(glyph@[yy - y]@[xx - x]))
                    } else {
                        old(self).pixel(yy, xx)
                    },
            decreases FONT_HEIGHT - row_i,
        {
            let row = &glyph[row_i];
            let mut col_i: usize = 0;
            while col_i < GLYPH_WIDTH
                invariant
                    self.wf(),
                    self.pitch == old(self).pitch,
                    self.row_position == old(self).row_position,
                    self.column_position == old(self).column_position,
                    glyph@.len() == FONT_HEIGHT,
                    forall|i: int| 0 <= i < FONT_HEIGHT ==> (#[trigger] glyph@[i])@.len() == GLYPH_WIDTH,
                    *row == glyph@[row_i as int],
                    y + FONT_HEIGHT <= BUFFER_HEIGHT,
                    x + GLYPH_WIDTH <= BUFFER_WIDTH,
                    row_i < FONT_HEIGHT,
                    col_i <= GLYPH_WIDTH,
                    forall|yy: int, xx: int|
                        0 <= yy < BUFFER_HEIGHT && 0 <= xx < BUFFER_WIDTH ==> #[trigger] self.pixel(yy, xx) == if (y
                            <= yy < y + row_i && x <= xx < x + GLYPH_WIDTH) || (yy == y + row_i && x <= xx < x
                            + col_i) {
                            pixel_word(grey(glyph@[yy - y]@[xx - x]))
                        } else {
                            old(self).pixel(yy, xx)
                        },
                decreases GLYPH_WIDTH - col_i,
            {
                let intensity = row[col_i];
                let ghost prev = *self;
                self.write_pixel(y + row_i, x + col_i, RGBColor { r: intensity, g: intensity, b: intensity });
                proof {
                    assert forall|yy: int, xx: int|
                        0 <= yy < BUFFER_HEIGHT && 0 <= xx < BUFFER_WIDTH implies #[trigger] self.pixel(yy, xx)
                            == if (y <= yy < y + row_i && x <= xx < x + GLYPH_WIDTH) || (yy == y + row_i && x <= xx
                            < x + col_i + 1) {
                            pixel_word(grey(glyph@[yy - y]@[xx - x]))
                        } else {
                            old(self).pixel(yy, xx)
                        } by {
                        if yy != y + row_i || xx != x + col_i {
                            lemma_index_distinct(line_words(self.pitch), yy, xx, (y + row_i) as int, (x + col_i) as int);
                            lemma_index_in_bounds(line_words(self.pitch), yy, xx);
                            assert(prev.pixel(yy, xx) == if (y <= yy < y + row_i && x <= xx < x + GLYPH_WIDTH) || (yy
                                == y + row_i && x <= xx < x + col_i) {
                                pixel_word(grey(glyph@[yy - y]@[xx - x]))
                            } else {
                                old(self).pixel(yy, xx)
                            });
                        }
                    }
                }
                col_i = col_i + 1;
            }
            row_i = row_i + 1;
        }
    }

    /// Scrolls the screen up by one text line and blanks the bottom line;
    /// the cursor goes to the start of the line.
    pub fn new_line(&mut self)
        requires
            old(self).wf(),
        ensures
            final(self).wf(),
            final(self).pitch == old(self).pitch,
            final(self).row_position == old(self).row_position,
            final(self).column_position == 0,
            forall|yy: int, xx: int|
                0 <= yy < BUFFER_HEIGHT && 0 <= xx < BUFFER_WIDTH ==> #[trigger] final(self).pixel(yy, xx) == if yy
                    < BUFFER_HEIGHT - FONT_HEIGHT {
                    repaint(old(self).pixel(yy + FONT_HEIGHT, xx))
                } else {
                    0
                },
    {
        let mut row: usize = FONT_HEIGHT;
        while row < BUFFER_HEIGHT
            invariant
                self.wf(),
                self.pitch == old(self).pitch,
                self.row_position == old(self).row_position,
                self.column_position == old(self).column_position,
                FONT_HEIGHT <= row <= BUFFER_HEIGHT,
                forall|yy: int, xx: int|
                    0 <= yy < BUFFER_HEIGHT && 0 <= xx < BUFFER_WIDTH ==> #[trigger] self.pixel(yy, xx) == if yy
                        < row - FONT_HEIGHT {
                        repaint(old(self).pixel(yy + FONT_HEIGHT, xx))
                    } else {
                        old(self).pixel(yy, xx)
                    },
            decreases BUFFER_HEIGHT - row,
        {
            let mut col: usize = 0;
            while col < BUFFER_WIDTH
                invariant
                    self.wf(),
                    self.pitch == old(self).pitch,
                    self.row_position == old(self).row_position,
                    self.column_position == old(self).column_position,
                    FONT_HEIGHT <= row < BUFFER_HEIGHT,
                    col <= BUFFER_WIDTH,
                    forall|yy: int, xx: int|
                        0 <= yy < BUFFER_HEIGHT && 0 <= xx < BUFFER_WIDTH ==> #[trigger] self.pixel(yy, xx) == if yy
                            < row - FONT_HEIGHT || (yy == row - FONT_HEIGHT && xx < col) {
                            repaint(old(self).pixel(yy + FONT_HEIGHT, xx))
                        } else {
                            old(self).pixel(yy, xx)
                        },
                decreases BUFFER_WIDTH - col,
            {
                let color = self.read_pixel(row, col);
                let ghost prev = *self;
                self.write_pixel(row - FONT_HEIGHT, col, color);
                proof {
                    assert(prev.pixel(row as int, col as int) == old(self).pixel(row as int, col as int));
                    assert forall|yy: int, xx: int|
                        0 <= yy < BUFFER_HEIGHT && 0 <= xx < BUFFER_WIDTH implies #[trigger] self.pixel(yy, xx) == if yy
                            < row - FONT_HEIGHT || (yy == row - FONT_HEIGHT && xx < col + 1) {
                            repaint(old(self).pixel(yy + FONT_HEIGHT, xx))
                        } else {
                            old(self).pixel(yy, xx)
                        } by {
                        if yy != row - FONT_HEIGHT || xx != col {
                            lemma_index_distinct(line_words(self.pitch), yy, xx, row - FONT_HEIGHT, col as int);
                            lemma_index_in_bounds(line_words(self.pitch), yy, xx);
                            assert(prev.pixel(yy, xx) == if yy < row - FONT_HEIGHT || (yy == row - FONT_HEIGHT && xx
                                < col) {
                                repaint(old(self).pixel(yy + FONT_HEIGHT, xx))
                            } else {
                                old(self).pixel(yy, xx)
                            });
                        }
                    }
                }
                col = col + 1;
            }
            row = row + 1;
        }
        let mut blank: usize = BUFFER_HEIGHT - FONT_HEIGHT;
        while blank < BUFFER_HEIGHT
            invariant
                self.wf(),
                self.pitch == old(self).pitch,
                self.row_position == old(self).row_position,
                self.column_position == old(self).column_position,
                BUFFER_HEIGHT - FONT_HEIGHT <= blank <= BUFFER_HEIGHT,
                forall|yy: int, xx: int|
                    0 <= yy < BUFFER_HEIGHT && 0 <= xx < BUFFER_WIDTH ==> #[trigger] self.pixel(yy, xx) == if yy
                        < BUFFER_HEIGHT - FONT_HEIGHT {
                        repaint(old(self).pixel(yy + FONT_HEIGHT, xx))
                    } else if yy < blank {
                        0
                    } else {
                        old(self).pixel(yy, xx)
                    },
            decreases BUFFER_HEIGHT - blank,
        {
            let ghost prev = *self;
            self.clear_row(blank);
            proof {
                assert forall|yy: int, xx: int|
                    0 <= yy < BUFFER_HEIGHT && 0 <= xx < BUFFER_WIDTH implies #[trigger] self.pixel(yy, xx) == if yy
                        < BUFFER_HEIGHT - FONT_HEIGHT {
                        repaint(old(self).pixel(yy + FONT_HEIGHT, xx))
                    } else if yy < blank + 1 {
                        0
                    } else {
                        old(self).pixel(yy, xx)
                    } by {
                    assert(prev.pixel(yy, xx) == if yy < BUFFER_HEIGHT - FONT_HEIGHT {
                        repaint(old(self).pixel(yy + FONT_HEIGHT, xx))
                    } else if yy < blank {
                        0
                    } else {
                        old(self).pixel(yy, xx)
                    });
                }
            }
            blank = blank + 1;
        }
        let ghost scrolled = *self;
        self.column_position = 0;
        proof {
            assert forall|yy: int, xx: int|
                0 <= yy < BUFFER_HEIGHT && 0 <= xx < BUFFER_WIDTH implies #[trigger] self.pixel(yy, xx) == if yy
                    < BUFFER_HEIGHT - FONT_HEIGHT {
                    repaint(old(self).pixel(yy + FONT_HEIGHT, xx))
                } else {
                    0
                } by {
                assert(self.pixel(yy, xx) == scrolled.pixel(yy, xx));
            }
        }
    }

    /// Draws the glyph of `c` with its top left corner at `(y, x)`; returns
    /// whether the font has `c` (nothing is drawn if not).
    pub fn _write_char(&mut self, y: usize, x: usize, c: char) -> (r: bool)
        requires
            old(self).wf(),
            y + FONT_HEIGHT <= BUFFER_HEIGHT,
            x + GLYPH_WIDTH <= BUFFER_WIDTH,
        ensures
            final(self).wf(),
            final(self).pitch == old(self).pitch,
            final(self).row_position == old(self).row_position,
            final(self).column_position == old(self).column_position,
            r == glyph_of(c) is Some,
            !r ==> final(self).memory@ == old(self).memory@,
            r ==> forall|yy: int, xx: int|
                0 <= yy < BUFFER_HEIGHT && 0 <= xx < BUFFER_WIDTH ==> #[trigger] final(self).pixel(yy, xx) == if y
                    <= yy < y + FONT_HEIGHT && x <= xx < x + GLYPH_WIDTH {
                    pixel_word(grey(glyph_of(c)->Some_0[yy - y][xx - x]))
                } else {
                    old(self).pixel(yy, xx)
                },
    {
        match glyph_bitmap(c) {
            None => false,
            Some(glyph) => {
                self.draw_glyph(y, x, &glyph);
                proof {
                    assert forall|i: int, j: int|
                        0 <= i < FONT_HEIGHT && 0 <= j < GLYPH_WIDTH implies glyph_of(c)->Some_0[i][j]
                            == #[trigger] glyph@[i]@[j] by {
                        assert(glyph_of(c)->Some_0[i] == glyph@[i]@);
                    }
                }
                true
            },
        }
    }

    /// Writes `c` at the cursor: a newline scrolls; any other character
    /// first scrolls when the line is full, then is drawn and advances the
    /// cursor by one character width. Returns whether the font has `c`; a
    /// character that it lacks is not drawn and does not advance the cursor.
    pub fn write_char(&mut self, c: char) -> (r: bool)
        requires
            old(self).wf(),
        ensures
            final(self).wf(),
            final(self).pitch == old(self).pitch,
            final(self).row_position == old(self).row_position,
            c == '\n' ==> r && final(self).column_position == 0,
            c != '\n' ==> r == glyph_of(c) is Some,
            c != '\n' && old(self).column_position >= BUFFER_WIDTH - FONT_WIDTH ==> final(self).column_position == if r {
                FONT_WIDTH as int
            } else {
                0
            },
            c != '\n' && old(self).column_position < BUFFER_WIDTH - FONT_WIDTH ==> final(self).column_position == if r {
                old(self).column_position + FONT_WIDTH
            } else {
                old(self).column_position as int
            },
            c != '\n' && r ==> forall|i: int, j: int|
                0 <= i < FONT_HEIGHT && 0 <= j < GLYPH_WIDTH ==> #[trigger] final(self).pixel(
                    old(self).row_position + i,
                    final(self).column_position - FONT_WIDTH + j,
                ) == pixel_word(grey(glyph_of(c)->Some_0[i][j])),
    {
        if c == '\n' {
            self.new_line();
            return true;
        }
        if self.column_position >= BUFFER_WIDTH - FONT_WIDTH {
            self.new_line();
        }
        let x = self.column_position;
        let y = self.row_position;
        let drawn = self._write_char(y, x, c);
        if drawn {
            let ghost after_draw = *self;
            self.column_position = self.column_position + FONT_WIDTH;
            proof {
                assert forall|i: int, j: int|
                    0 <= i < FONT_HEIGHT && 0 <= j < GLYPH_WIDTH implies #[trigger] self.pixel(y + i, x + j)
                        == pixel_word(grey(glyph_of(c)->Some_0[i][j])) by {
                    assert(after_draw.pixel(y + i, x + j) == pixel_word(
                        grey(glyph_of(c)->Some_0[(y + i) - y][(x + j) - x]),
                    ));
                    assert(self.pixel(y + i, x + j) == after_draw.pixel(y + i, x + j));
                }
            }
        }
        drawn
    }
}

/// The frame buffer, reached under the IRQ-masking lock.
pub struct FrameBuffer {
    inner: IRQSafeNullLock<FrameBufferInner>,
}

impl FrameBuffer {
    pub closed spec fn inner_spec(&self) -> FrameBufferInner {
        self.inner.data()
    }

    /// The frame buffer over `inner`.
    pub fn new(inner: FrameBufferInner) -> (r: Self)
        ensures
            r.inner_spec() == inner,
    {
        FrameBuffer { inner: IRQSafeNullLock::new(inner) }
    }

    /// The driver's compatibility string.
    pub fn compatible(&self) -> (r: &'static str)
        ensures
            r == "VideoCore frame buffer",
    {
        "VideoCore frame buffer"
    }

    /// The colour of pixel `(y, x)`.
    pub fn read_pixel(&mut self, cpu: &mut CpuIrqState, y: usize, x: usize) -> (r: RGBColor)
        requires
            old(self).inner_spec().wf(),
            y < BUFFER_HEIGHT,
            x < BUFFER_WIDTH,
        ensures
            *final(cpu) == *old(cpu),
            r == word_color(old(self).inner_spec().pixel(y as int, x as int)),
            final(self).inner_spec().memory@ == old(self).inner_spec().memory@,
    {
        self.inner.lock(cpu, |buff: &mut FrameBufferInner| -> (r: RGBColor)
            requires
                buff.wf(),
            ensures
                r == word_color(old(buff).pixel(y as int, x as int)),
                final(buff).memory@ == old(buff).memory@,
            { buff.read_pixel(y, x) })
    }

    /// Sets pixel `(y, x)` to colour `c`.
    pub fn write_pixel(&mut self, cpu: &mut CpuIrqState, y: usize, x: usize, c: RGBColor)
        requires
            old(self).inner_spec().wf(),
            y < BUFFER_HEIGHT,
            x < BUFFER_WIDTH,
        ensures
            *final(cpu) == *old(cpu),
            final(self).inner_spec().wf(),
            final(self).inner_spec().memory@ == old(self).inner_spec().memory@.update(
                old(self).inner_spec().index(y as int, x as int),
                pixel_word(c),
            ),
    {
        self.inner.lock(cpu, |buff: &mut FrameBufferInner| -> (r: ())
            requires
                buff.wf(),
            ensures
                final(buff).wf(),
                final(buff).memory@ == old(buff).memory@.update(old(buff).index(y as int, x as int), pixel_word(c)),
            { buff.write_pixel(y, x, c) })
    }

    /// Writes `c` at the text cursor (see `FrameBufferInner::write_char`);
    /// the position arguments are not used.
    pub fn write_char(&mut self, cpu: &mut CpuIrqState, _y: usize, _x: usize, c: char) -> (r: bool)
        requires
            old(self).inner_spec().wf(),
        ensures
            *final(cpu) == *old(cpu),
            final(self).inner_spec().wf(),
            c == '\n' ==> r,
            c != '\n' ==> r == glyph_of(c) is Some,
    {
        self.inner.lock(cpu, |buff: &mut FrameBufferInner| -> (r: bool)
            requires
                buff.wf(),
            ensures
                final(buff).wf(),
                c == '\n' ==> r,
                c != '\n' ==> r == glyph_of(c) is Some,
            { buff.write_char(c) })
    }

    /// Blanks screen line `y`.
    pub fn clear_row(&mut self, cpu: &mut CpuIrqState, y: usize)
        requires
            old(self).inner_spec().wf(),
            y < BUFFER_HEIGHT,
        ensures
            *final(cpu) == *old(cpu),
            final(self).inner_spec().wf(),
            forall|xx: int| 0 <= xx < BUFFER_WIDTH ==> #[trigger] final(self).inner_spec().pixel(y as int, xx) == 0,
    {
        self.inner.lock(cpu, |buff: &mut FrameBufferInner| -> (r: ())
            requires
                buff.wf(),
                y < BUFFER_HEIGHT,
            ensures
                final(buff).wf(),
                forall|xx: int| 0 <= xx < BUFFER_WIDTH ==> #[trigger] final(buff).pixel(y as int, xx) == 0,
            { buff.clear_row(y) })
    }
}

/// White for a set pixel, black for a clear one.
pub open spec fn mono_color(b: bool) -> RGBColor {
    if b {
        RGBColor { r: 255, g: 255, b: 255 }
    } else {
        RGBColor { r: 0, g: 0, b: 0 }
    }
}

/// A text writer on the frame buffer that keeps its own column.
pub struct ScreenWriter {
    column_position: usize,
    frame_buffer: FrameBuffer,
}

impl ScreenWriter {
    pub closed spec fn column_spec(&self) -> usize {
        self.column_position
    }

    pub closed spec fn buffer(&self) -> FrameBuffer {
        self.frame_buffer
    }

    /// A writer at column 0 of `frame_buffer`.
    pub fn new(frame_buffer: FrameBuffer) -> (r: Self)
        ensures
            r.column_spec() == 0,
            r.buffer() == frame_buffer,
    {
        ScreenWriter { column_position: 0, frame_buffer }
    }

    /// The writer's column.
    pub fn column_position(&self) -> (r: usize)
        ensures
            r == self.column_spec(),
    {
        self.column_position
    }

    /// Writes `c`: a newline, or a character that does not fit on the line,
    /// starts a new line; any other character is written and advances the
    /// column by one character width.
    pub fn write_char(&mut self, cpu: &mut CpuIrqState, c: char)
        requires
            old(self).buffer().inner_spec().wf(),
        ensures
            *final(cpu) == *old(cpu),
            final(self).buffer().inner_spec().wf(),
            c == '\n' ==> final(self).column_spec() == 0,
            c != '\n' && old(self).column_spec() >= BUFFER_WIDTH - FONT_WIDTH ==> final(self).column_spec()
                == FONT_WIDTH,
            c != '\n' && old(self).column_spec() < BUFFER_WIDTH - FONT_WIDTH ==> final(self).column_spec()
                == old(self).column_spec() + FONT_WIDTH,
    {
        if c == '\n' {
            self.new_line();
            return ;
        }
        if self.column_position >= BUFFER_WIDTH - FONT_WIDTH {
            self.new_line();
        }
        self.frame_buffer.write_char(cpu, 0, self.column_position, c);
        self.column_position = self.column_position + FONT_WIDTH;
    }

    /// Writes the characters of `s` in order.
    pub fn write_string(&mut self, cpu: &mut CpuIrqState, s: &str)
        requires
            old(self).buffer().inner_spec().wf(),
        ensures
            *final(cpu) == *old(cpu),
            final(self).buffer().inner_spec().wf(),
    {
        let n = s.unicode_len();
        let mut i: usize = 0;
        while i < n
            invariant
                n == s@.len(),
                i <= n,
                self.buffer().inner_spec().wf(),
                *cpu == *old(cpu),
            decreases n - i,
        {
            let c = s.get_char(i);
            self.write_char(cpu, c);
            i = i + 1;
        }
    }

    /// Starts a new line: the column goes back to 0.
    pub fn new_line(&mut self)
        ensures
            final(self).column_spec() == 0,
            final(self).buffer() == old(self).buffer(),
    {
        self.column_position = 0;
    }

    /// Sets pixel `(y, x)` white if `b`, else black.
    pub fn write_pixel(&mut self, cpu: &mut CpuIrqState, y: usize, x: usize, b: bool)
        requires
            old(self).buffer().inner_spec().wf(),
            y < BUFFER_HEIGHT,
            x < BUFFER_WIDTH,
        ensures
            *final(cpu) == *old(cpu),
            final(self).column_spec() == old(self).column_spec(),
            final(self).buffer().inner_spec().memory@ == old(self).buffer().inner_spec().memory@.update(
                old(self).buffer().inner_spec().index(y as int, x as int),
                pixel_word(mono_color(b)),
            ),
    {
        let c = if b {
            RGBColor { r: 255, g: 255, b: 255 }
        } else {
            RGBColor { r: 0, g: 0, b: 0 }
        };
        self.frame_buffer.write_pixel(cpu, y, x, c)
    }
}

} // verus!
