//! Text-mode display writer: a 25x80 grid of character cells written
//! bottom-up, scrolling one row at a time. The grid here is an owned
//! buffer whose final contents the embedding kernel copies to the fixed
//! video memory address; the cell and colour arithmetic is what matters.

use vstd::prelude::*;
use vstd::string::StringSliceAdditionalSpecFns;
use vstd::view::View;

verus! {

pub const BUFFER_HEIGHT: usize = 25;

pub const BUFFER_WIDTH: usize = 80;

/// The sixteen hardware palette indices.
#[allow(dead_code)]
#[derive(Clone, Copy, Debug)]
pub enum Color {
    Black,
    Blue,
    Green,
    Cyan,
    Red,
    Magenta,
    Brown,
    LightGrey,
    DarkGrey,
    LightBlue,
    LightGreen,
    LightCyan,
    LightRed,
    LightMagenta,
    LightBrown,
    White,
}

/// The palette index a colour encodes to.
pub open spec fn spec_color_value(c: Color) -> u8 {
    match c {
        Color::Black => 0,
        Color::Blue => 1,
        Color::Green => 2,
        Color::Cyan => 3,
        Color::Red => 4,
        Color::Magenta => 5,
        Color::Brown => 6,
        Color::LightGrey => 7,
        Color::DarkGrey => 8,
        Color::LightBlue => 9,
        Color::LightGreen => 10,
        Color::LightCyan => 11,
        Color::LightRed => 12,
        Color::LightMagenta => 13,
        Color::LightBrown => 14,
        Color::White => 16,
    }
}

impl Color {
    pub fn value(self) -> (r: u8)
        ensures
            r == spec_color_value(self),
    {
        match self {
            Color::Black => 0,
            Color::Blue => 1,
            Color::Green => 2,
            Color::Cyan => 3,
            Color::Red => 4,
            Color::Magenta => 5,
            Color::Brown => 6,
            Color::LightGrey => 7,
            Color::DarkGrey => 8,
            Color::LightBlue => 9,
            Color::LightGreen => 10,
            Color::LightCyan => 11,
            Color::LightRed => 12,
            Color::LightMagenta => 13,
            Color::LightBrown => 14,
            Color::White => 16,
        }
    }
}

/// Foreground and background palette indices packed into one byte.
#[derive(Clone, Copy, Debug, PartialEq, Eq, Structural)]
pub struct ColorCode(pub u8);

impl ColorCode {
    pub fn new(fg: Color, bg: Color) -> (c: ColorCode)
        ensures
            c.0 == ((spec_color_value(bg) << 4) | spec_color_value(fg)),
    {
        ColorCode((bg.value() << 4) | fg.value())
    }
}

/// One character cell: the byte shown and its colour attribute.
#[derive(Clone, Copy, Debug, PartialEq, Eq, Structural)]
pub struct ScreenChar {
    pub ascii_character: u8,
    pub color_code: ColorCode,
}

/// The character grid, row-major: cell `(row, col)` lives at index
/// `row * BUFFER_WIDTH + col`.
pub struct Buffer {
    pub chars: Vec<ScreenChar>,
}

/// Writes characters into the last row of the grid, scrolling upward on
/// each newline.
pub struct Writer {
    pub column_position: usize,
    pub color_code: ColorCode,
    pub buffer: Buffer,
}

/// Mathematical image of a writer: the cursor column, the colour in use,
/// and the flat screen contents.
#[verifier::ext_equal]
pub struct WriterView {
    pub column_position: int,
    pub color_code: ColorCode,
    pub screen: Seq<ScreenChar>,
}

/// A space in the given colour.
pub open spec fn blank_char(color: ColorCode) -> ScreenChar {
    ScreenChar { ascii_character: 0x20, color_code: color }
}

/// The screen after scrolling: every row moves up one, and the bottom row
/// becomes blanks in the writer's colour.
pub open spec fn spec_scrolled(screen: Seq<ScreenChar>, color: ColorCode) -> Seq<ScreenChar> {
    screen.skip(BUFFER_WIDTH as int) + Seq::new(
        BUFFER_WIDTH as nat,
        |i: int| blank_char(color),
    )
}

/// A newline: scroll and return the cursor to column zero.
pub open spec fn spec_newline(v: WriterView) -> WriterView {
    WriterView {
        column_position: 0,
        color_code: v.color_code,
        screen: spec_scrolled(v.screen, v.color_code),
    }
}

/// Writing one byte: a newline scrolls; any other byte lands in the
/// bottom row at the cursor (after an implicit newline if the row is
/// full) and advances the cursor.
pub open spec fn spec_write_byte(v: WriterView, byte: u8) -> WriterView {
    if byte == 0x0A {
        spec_newline(v)
    } else {
        let v1 = if v.column_position >= BUFFER_WIDTH {
            spec_newline(v)
        } else {
            v
        };
        WriterView {
            column_position: v1.column_position + 1,
            color_code: v.color_code,
            screen: v1.screen.update(
                (BUFFER_HEIGHT - 1) * BUFFER_WIDTH + v1.column_position,
                ScreenChar { ascii_character: byte, color_code: v.color_code },
            ),
        }
    }
}

/// Bytes outside printable ASCII and newline are shown as 0xFE.
pub open spec fn spec_sanitize(b: u8) -> u8 {
    if (0x20 <= b && b <= 0x7E) || b == 0x0A {
        b
    } else {
        0xFE
    }
}

/// Writing a whole byte string: each byte sanitized, then written.
pub open spec fn spec_write_bytes(v: WriterView, s: Seq<u8>) -> WriterView
    decreases s.len(),
{
    if s.len() == 0 {
        v
    } else {
        spec_write_bytes(spec_write_byte(v, spec_sanitize(s[0])), s.drop_first())
    }
}

/// Appending one byte to a write is one more write-byte step.
proof fn lemma_write_bytes_snoc(v: WriterView, s: Seq<u8>, b: u8)
    ensures
        spec_write_bytes(v, s.push(b)) == spec_write_byte(spec_write_bytes(v, s), spec_sanitize(b)),
    decreases s.len(),
{
    if s.len() == 0 {
        assert(s.push(b)[0] == b);
        assert(s.push(b).drop_first() =~= Seq::<u8>::empty());
        let w = spec_write_byte(v, spec_sanitize(b));
        assert(spec_write_bytes(w, Seq::<u8>::empty()) == w);
        assert(spec_write_bytes(v, s) == v);
    } else {
        assert(s.push(b)[0] == s[0]);
        assert(s.push(b).drop_first() =~= s.drop_first().push(b));
        lemma_write_bytes_snoc(spec_write_byte(v, spec_sanitize(s[0])), s.drop_first(), b);
    }
}

impl View for Writer {
    type V = WriterView;

    open spec fn view(&self) -> WriterView {
        WriterView {
            column_position: self.column_position as int,
            color_code: self.color_code,
            screen: self.buffer.chars@,
        }
    }
}

impl Writer {
    /// The grid holds exactly one cell per position and the cursor never
    /// runs past the row width.
    pub open spec fn wf(self) -> bool {
        self.buffer.chars@.len() == BUFFER_HEIGHT * BUFFER_WIDTH && self.column_position
            <= BUFFER_WIDTH
    }

    /// A writer over a blank screen in the given colour.
    pub fn new(color_code: ColorCode) -> (w: Writer)
        ensures
            w.wf(),
            w@.column_position == 0,
            w@.color_code == color_code,
            w@.screen =~= Seq::new(
                (BUFFER_HEIGHT * BUFFER_WIDTH) as nat,
                |i: int| blank_char(color_code),
            ),
    {
        let blank = ScreenChar { ascii_character: 0x20, color_code };
        let mut chars: Vec<ScreenChar> = Vec::new();
        let mut i: usize = 0;
        while i < BUFFER_HEIGHT * BUFFER_WIDTH
            invariant
                i <= BUFFER_HEIGHT * BUFFER_WIDTH,
                chars@.len() == i,
                blank == blank_char(color_code),
                forall|k: int| 0 <= k < i ==> chars@[k] == blank_char(color_code),
            decreases BUFFER_HEIGHT * BUFFER_WIDTH - i,
        {
            chars.push(blank);
            i = i + 1;
        }
        Writer { column_position: 0, color_code, buffer: Buffer { chars } }
    }

    /// Write one byte: newline scrolls, any other byte lands at the cursor
    /// in the bottom row, after an implicit newline if the row is full.
    pub fn write_byte(&mut self, byte: u8)
        requires
            old(self).wf(),
        ensures
            final(self).wf(),
            final(self)@ == spec_write_byte(old(self)@, byte),
    {
        match byte {
            0x0A => self.new_line(),
            byte => {
                if self.column_position >= BUFFER_WIDTH {
                    self.new_line();
                }
                let row = BUFFER_HEIGHT - 1;
                let col = self.column_position;
                let color_code = self.color_code;
                self.buffer.chars[row * BUFFER_WIDTH + col] = ScreenChar {
                    ascii_character: byte,
                    color_code,
                };
                self.column_position = self.column_position + 1;
            },
        }
    }

    /// Scroll every row up one, blank the bottom row, return the cursor
    /// to column zero.
    fn new_line(&mut self)
        requires
            old(self).wf(),
        ensures
            final(self).wf(),
            final(self)@ == spec_newline(old(self)@),
    {
        let ghost screen0 = self.buffer.chars@;
        let mut i: usize = 0;
        while i < BUFFER_WIDTH
            invariant
                i <= BUFFER_WIDTH,
                screen0.len() == BUFFER_HEIGHT * BUFFER_WIDTH,
                self.buffer.chars@ =~= screen0.skip(i as int),
                self.column_position == old(self).column_position,
                self.color_code == old(self).color_code,
            decreases BUFFER_WIDTH - i,
        {
            self.buffer.chars.remove(0);
            proof {
                assert(screen0.skip(i as int).remove(0) =~= screen0.skip(i + 1));
            }
            i = i + 1;
        }
        let blank = ScreenChar { ascii_character: 0x20, color_code: self.color_code };
        let mut j: usize = 0;
        while j < BUFFER_WIDTH
            invariant
                j <= BUFFER_WIDTH,
                screen0.len() == BUFFER_HEIGHT * BUFFER_WIDTH,
                blank == blank_char(self.color_code),
                self.buffer.chars@ =~= screen0.skip(BUFFER_WIDTH as int) + Seq::new(
                    j as nat,
                    |k: int| blank_char(self.color_code),
                ),
                self.column_position == old(self).column_position,
                self.color_code == old(self).color_code,
            decreases BUFFER_WIDTH - j,
        {
            self.buffer.chars.push(blank);
            proof {
                assert(self.buffer.chars@ =~= screen0.skip(BUFFER_WIDTH as int) + Seq::new(
                    (j + 1) as nat,
                    |k: int| blank_char(self.color_code),
                ));
            }
            j = j + 1;
        }
        self.column_position = 0;
        proof {
            assert(final(self)@.screen =~= spec_scrolled(screen0, old(self).color_code));
        }
    }

    /// Blank one row in the writer's colour, leaving the rest untouched.
    pub fn clear_row(&mut self, row: usize)
        requires
            old(self).wf(),
            row < BUFFER_HEIGHT,
        ensures
            final(self).wf(),
            final(self)@.column_position == old(self)@.column_position,
            final(self)@.color_code == old(self)@.color_code,
            final(self)@.screen.len() == old(self)@.screen.len(),
            forall|k: int|
                row * BUFFER_WIDTH <= k < row * BUFFER_WIDTH + BUFFER_WIDTH
                    ==> final(self)@.screen[k] == blank_char(old(self).color_code),
            forall|k: int|
                0 <= k < old(self)@.screen.len() && !(row * BUFFER_WIDTH <= k < row * BUFFER_WIDTH
                    + BUFFER_WIDTH) ==> final(self)@.screen[k] == old(self)@.screen[k],
    {
        let blank = ScreenChar { ascii_character: 0x20, color_code: self.color_code };
        let mut col: usize = 0;
        while col < BUFFER_WIDTH
            invariant
                col <= BUFFER_WIDTH,
                row < BUFFER_HEIGHT,
                self.buffer.chars@.len() == BUFFER_HEIGHT * BUFFER_WIDTH,
                blank == blank_char(old(self).color_code),
                self.column_position == old(self).column_position,
                self.color_code == old(self).color_code,
                forall|k: int|
                    row * BUFFER_WIDTH <= k < row * BUFFER_WIDTH + col
                        ==> self.buffer.chars@[k] == blank_char(old(self).color_code),
                forall|k: int|
                    0 <= k < self.buffer.chars@.len() && !(row * BUFFER_WIDTH <= k < row
                        * BUFFER_WIDTH + col) ==> self.buffer.chars@[k] == old(
                        self,
                    ).buffer.chars@[k],
            decreases BUFFER_WIDTH - col,
        {
            proof {
                assert(row * BUFFER_WIDTH + col < BUFFER_HEIGHT * BUFFER_WIDTH) by (nonlinear_arith)
                    requires
                        row < BUFFER_HEIGHT,
                        col < BUFFER_WIDTH,
                        BUFFER_WIDTH == 80,
                        BUFFER_HEIGHT == 25,
                ;
            }
            self.buffer.chars[row * BUFFER_WIDTH + col] = blank;
            col = col + 1;
        }
    }

    /// Blank the whole screen in the writer's colour.
    pub fn clear(&mut self)
        requires
            old(self).wf(),
        ensures
            final(self).wf(),
            final(self)@.column_position == old(self)@.column_position,
            final(self)@.color_code == old(self)@.color_code,
            final(self)@.screen =~= Seq::new(
                (BUFFER_HEIGHT * BUFFER_WIDTH) as nat,
                |i: int| blank_char(old(self).color_code),
            ),
    {
        let mut row: usize = 0;
        while row < BUFFER_HEIGHT
            invariant
                row <= BUFFER_HEIGHT,
                self.wf(),
                self.column_position == old(self).column_position,
                self.color_code == old(self).color_code,
                forall|k: int|
                    0 <= k < row * BUFFER_WIDTH
                        ==> self.buffer.chars@[k] == blank_char(old(self).color_code),
                forall|k: int|
                    row * BUFFER_WIDTH <= k < BUFFER_HEIGHT * BUFFER_WIDTH
                        ==> self.buffer.chars@[k] == old(self).buffer.chars@[k],
            decreases BUFFER_HEIGHT - row,
        {
            self.clear_row(row);
            row = row + 1;
        }
    }

    /// Write a byte string: printable ASCII and newline pass through, any
    /// other byte is shown as 0xFE.
    pub fn write_bytes(&mut self, s: &[u8])
        requires
            old(self).wf(),
        ensures
            final(self).wf(),
            final(self)@ == spec_write_bytes(old(self)@, s@),
    {
        let ghost v0 = old(self)@;
        let mut i: usize = 0;
        while i < s.len()
            invariant
                i <= s@.len(),
                self.wf(),
                self@ == spec_write_bytes(v0, s@.take(i as int)),
            decreases s@.len() - i,
        {
            let byte = s[i];
            proof {
                lemma_write_bytes_snoc(v0, s@.take(i as int), byte);
                assert(s@.take(i + 1) =~= s@.take(i as int).push(byte));
            }
            match byte {
                0x20..=0x7E => self.write_byte(byte),
                0x0A => self.write_byte(byte),
                _ => self.write_byte(0xFE),
            }
            i = i + 1;
        }
        proof {
            assert(s@.take(s@.len() as int) =~= s@);
        }
    }

    /// Write a string, byte for byte, with the same sanitizing as
    /// `write_bytes`.
    pub fn write_string(&mut self, s: &str)
        requires
            old(self).wf(),
        ensures
            final(self).wf(),
            final(self)@ == spec_write_bytes(old(self)@, s.spec_bytes()),
    {
        self.write_bytes(s.as_bytes());
    }
}

/// Slot for the display writer once the video buffer is mapped.
pub struct VGAOutInner {
    pub vga: Option<Writer>,
}

/// The display sink the kernel prints diagnostics through.
pub struct VGAOut {
    pub inner: VGAOutInner,
}

impl VGAOut {
    fn new() -> (v: VGAOut)
        ensures
            v.inner.vga is None,
    {
        VGAOut { inner: VGAOutInner { vga: None } }
    }

    /// Bring the display sink up: a writer at column zero, red on white,
    /// over a blank screen.
    pub fn init() -> (out: VGAOut)
        ensures
            out.inner.vga matches Some(w) && w.wf() && w@.column_position == 0 && w@.color_code.0
                == ((spec_color_value(Color::White) << 4) | spec_color_value(Color::Red))
                && w@.screen =~= Seq::new(
                (BUFFER_HEIGHT * BUFFER_WIDTH) as nat,
                |i: int| blank_char(w@.color_code),
            ),
    {
        let mut out = VGAOut::new();
        out.inner.vga = Some(Writer::new(ColorCode::new(Color::Red, Color::White)));
        out
    }
}

} // verus!
