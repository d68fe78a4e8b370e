use lzos::Architecture;
use lzos::Color;
use lzos::ColorCode;
use lzos::MultibootHeader;
use lzos::ScreenChar;
use lzos::Testable;
use lzos::VGAOut;
use lzos::Writer;
use lzos::test_runner;

const WIDTH: usize = 80;
const HEIGHT: usize = 25;

fn cell(w: &Writer, row: usize, col: usize) -> ScreenChar {
    w.buffer.chars[row * WIDTH + col]
}

#[test]
fn color_code_packs_background_high() {
    assert_eq!(ColorCode::new(Color::Black, Color::Blue).0, 0x10);
    assert_eq!(ColorCode::new(Color::Red, Color::Cyan).0, 0x34);
    // White's palette index 16 overflows the 4-bit background field.
    assert_eq!(ColorCode::new(Color::Red, Color::White).0, 0x04);
}

#[test]
fn write_byte_lands_in_the_bottom_row() {
    let mut w = Writer::new(ColorCode::new(Color::Black, Color::Blue));
    w.write_byte(b'A');
    w.write_byte(b'B');
    assert_eq!(w.column_position, 2);
    assert_eq!(cell(&w, HEIGHT - 1, 0).ascii_character, b'A');
    assert_eq!(cell(&w, HEIGHT - 1, 1).ascii_character, b'B');
    assert_eq!(cell(&w, HEIGHT - 1, 0).color_code, w.color_code);
}

#[test]
fn newline_scrolls_one_row_up() {
    let mut w = Writer::new(ColorCode::new(Color::Black, Color::Blue));
    w.write_byte(b'A');
    w.write_byte(b'\n');
    assert_eq!(w.column_position, 0);
    assert_eq!(cell(&w, HEIGHT - 2, 0).ascii_character, b'A');
    for col in 0..WIDTH {
        assert_eq!(cell(&w, HEIGHT - 1, col).ascii_character, b' ');
    }
}

#[test]
fn full_row_wraps_before_the_next_byte() {
    let mut w = Writer::new(ColorCode::new(Color::Black, Color::Blue));
    for _ in 0..WIDTH {
        w.write_byte(b'x');
    }
    assert_eq!(w.column_position, WIDTH);
    w.write_byte(b'y');
    assert_eq!(w.column_position, 1);
    assert_eq!(cell(&w, HEIGHT - 2, 0).ascii_character, b'x');
    assert_eq!(cell(&w, HEIGHT - 2, WIDTH - 1).ascii_character, b'x');
    assert_eq!(cell(&w, HEIGHT - 1, 0).ascii_character, b'y');
}

#[test]
fn clear_row_blanks_exactly_one_row() {
    let mut w = Writer::new(ColorCode::new(Color::Black, Color::Blue));
    w.write_byte(b'A');
    w.write_byte(b'\n');
    w.write_byte(b'B');
    w.clear_row(HEIGHT - 1);
    assert_eq!(cell(&w, HEIGHT - 2, 0).ascii_character, b'A');
    assert_eq!(cell(&w, HEIGHT - 1, 0).ascii_character, b' ');
}

#[test]
fn clear_blanks_the_whole_screen() {
    let mut w = Writer::new(ColorCode::new(Color::Black, Color::Blue));
    for _ in 0..5 {
        w.write_byte(b'Z');
        w.write_byte(b'\n');
    }
    w.clear();
    for row in 0..HEIGHT {
        for col in 0..WIDTH {
            assert_eq!(cell(&w, row, col).ascii_character, b' ');
        }
    }
}

#[test]
fn write_bytes_sanitizes_unprintable_bytes() {
    let mut w = Writer::new(ColorCode::new(Color::Black, Color::Blue));
    w.write_bytes(&[b'H', 0x01, b'i']);
    assert_eq!(cell(&w, HEIGHT - 1, 0).ascii_character, b'H');
    assert_eq!(cell(&w, HEIGHT - 1, 1).ascii_character, 0xFE);
    assert_eq!(cell(&w, HEIGHT - 1, 2).ascii_character, b'i');
}

#[test]
fn write_string_behaves_like_write_bytes() {
    let mut w = Writer::new(ColorCode::new(Color::Black, Color::Blue));
    w.write_string("ok\nhi");
    assert_eq!(w.column_position, 2);
    assert_eq!(cell(&w, HEIGHT - 2, 0).ascii_character, b'o');
    assert_eq!(cell(&w, HEIGHT - 2, 1).ascii_character, b'k');
    assert_eq!(cell(&w, HEIGHT - 1, 0).ascii_character, b'h');
    assert_eq!(cell(&w, HEIGHT - 1, 1).ascii_character, b'i');
}

#[test]
fn vga_out_comes_up_red_on_white() {
    let out = VGAOut::init();
    let w = out.inner.vga.expect("writer present after init");
    assert_eq!(w.column_position, 0);
    assert_eq!(w.color_code.0, 0x04);
}

#[test]
fn multiboot_header_checksum_balances() {
    let magic: u32 = 0xE852_50D6;
    let length: u32 = 24;
    let checksum = 0u32.wrapping_sub(magic).wrapping_sub(0).wrapping_sub(length);
    let header = MultibootHeader {
        magic,
        architecture: Architecture::I386,
        header_length: length,
        checksum,
    };
    assert!(header.is_valid());
    let wrong = MultibootHeader { checksum: checksum.wrapping_add(1), ..header };
    assert!(!wrong.is_valid());
    let bad_magic = MultibootHeader { magic: 0xDEAD_BEEF, ..header };
    assert!(!bad_magic.is_valid());
}

#[test]
fn architecture_codes_match_the_header_encoding() {
    assert_eq!(Architecture::I386.code(), 0);
    assert_eq!(Architecture::MIPS32.code(), 4);
}

struct CountingTest {
    hits: std::cell::Cell<u32>,
}

impl Testable for CountingTest {
    fn run(&self) {
        self.hits.set(self.hits.get() + 1);
    }
}

#[test]
fn test_runner_runs_every_test_once() {
    let tests = [
        CountingTest { hits: std::cell::Cell::new(0) },
        CountingTest { hits: std::cell::Cell::new(0) },
    ];
    test_runner(&tests);
    assert_eq!(tests[0].hits.get(), 1);
    assert_eq!(tests[1].hits.get(), 1);
    let empty: [CountingTest; 0] = [];
    test_runner(&empty);
}
