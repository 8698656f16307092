use noto_sans_mono_bitmap::{get_bitmap, BitmapHeight, FontWeight};
use rpi_kernel::exception::CpuIrqState;
use rpi_kernel::frame_buffer::{FrameBuffer, FrameBufferInner, RGBColor, ScreenWriter};
use rpi_kernel::mailbox::{MailBoxError, MailBoxInner, MailBoxRegisters, Messeage, Messege};

fn ready_buffer() -> FrameBufferInner {
    let mut fb = FrameBufferInner::new();
    let mut msg = Messege::new(8);
    fb.init_msg(&mut msg);
    msg.data[15] = 32;
    msg.data[19] = 4096;
    msg.data[23] = 0x3C10_0000;
    msg.data[24] = 0x30_0000;
    fb.init(&msg);
    assert!(fb.is_ready());
    fb
}

#[test]
fn frame_buffer_request_words() {
    let fb = FrameBufferInner::new();
    let mut msg = Messege::new(8);
    msg.data[30] = 7;
    fb.init_msg(&mut msg);
    assert_eq!(msg.data[0], 104);
    assert_eq!(&msg.data[2..7], &[0x4_8003, 8, 8, 1024, 768]);
    assert_eq!(&msg.data[7..12], &[0x4_8004, 8, 8, 840, 480]);
    assert_eq!(&msg.data[12..16], &[0x4_8005, 4, 4, 32]);
    assert_eq!(&msg.data[16..20], &[0x4_0008, 4, 4, 0]);
    assert_eq!(&msg.data[20..26], &[0x4_0001, 8, 8, 0, 0, 0]);
    assert_eq!(msg.data[30], 7);
    assert_eq!(msg.channel, 8);
    assert!(!fb.is_ready());
}

#[test]
fn pixel_write_then_read() {
    let mut fb = ready_buffer();
    let c = RGBColor { r: 1, g: 2, b: 3 };
    fb.write_pixel(10, 20, c);
    assert_eq!(fb.read_pixel(10, 20), c);
    assert_eq!(fb.memory[10 * 1024 + 20], 0x03_0201);
    fb.clear_row(10);
    assert_eq!(fb.read_pixel(10, 20), RGBColor { r: 0, g: 0, b: 0 });
}

#[test]
fn glyph_matches_font() {
    let mut fb = ready_buffer();
    assert!(fb.write_char('A'));
    assert_eq!(fb.column_position, 8);
    let glyph = get_bitmap('A', FontWeight::Regular, BitmapHeight::Size16).unwrap();
    let mut lit = 0;
    for (i, row) in glyph.bitmap().iter().enumerate() {
        for (j, v) in row.iter().enumerate() {
            assert_eq!(fb.read_pixel(752 + i, j), RGBColor { r: *v, g: *v, b: *v });
            if *v != 0 {
                lit += 1;
            }
        }
    }
    assert!(lit > 0);
}

#[test]
fn unknown_char_is_not_drawn() {
    let mut fb = ready_buffer();
    assert!(!fb.write_char('\u{4E00}'));
    assert_eq!(fb.column_position, 0);
}

#[test]
fn full_line_wraps_and_newline_scrolls() {
    let mut fb = ready_buffer();
    fb.write_pixel(20, 5, RGBColor { r: 9, g: 8, b: 7 });
    fb.write_pixel(767, 5, RGBColor { r: 1, g: 1, b: 1 });
    fb.column_position = 1016;
    assert!(fb.write_char('x'));
    assert_eq!(fb.column_position, 8);
    assert_eq!(fb.read_pixel(4, 5), RGBColor { r: 9, g: 8, b: 7 });
    assert!(fb.write_char('\n'));
    assert_eq!(fb.column_position, 0);
    assert_eq!(fb.read_pixel(767, 5), RGBColor { r: 0, g: 0, b: 0 });
}

#[test]
fn locked_buffer_and_screen_writer() {
    let mut cpu = CpuIrqState::new(0);
    let mut fb = FrameBuffer::new(ready_buffer());
    fb.write_pixel(&mut cpu, 1, 1, RGBColor { r: 5, g: 6, b: 7 });
    assert_eq!(fb.read_pixel(&mut cpu, 1, 1), RGBColor { r: 5, g: 6, b: 7 });
    fb.clear_row(&mut cpu, 1);
    assert_eq!(fb.read_pixel(&mut cpu, 1, 1), RGBColor { r: 0, g: 0, b: 0 });
    assert!(fb.write_char(&mut cpu, 0, 0, 'k'));
    let mut w = ScreenWriter::new(fb);
    w.write_char(&mut cpu, 'a');
    assert_eq!(w.column_position(), 8);
    w.write_pixel(&mut cpu, 3, 3, true);
    w.write_string(&mut cpu, "hi");
    assert_eq!(w.column_position(), 24);
    w.write_char(&mut cpu, '\n');
    assert_eq!(w.column_position(), 0);
    assert_eq!(cpu.daif(), 0);
}

#[test]
fn mailbox_request_word() {
    assert_eq!(MailBoxInner::request_word(0x0008_0010, 8), Ok(0xC008_0018));
    assert_eq!(MailBoxInner::request_word(0x0008_0014, 8), Err(MailBoxError::NotAligned));
}

#[test]
fn mailbox_status_and_response() {
    let mut mb = MailBoxInner::new(MailBoxRegisters { read: 0, status: 0x8000_0000, write: 0 });
    assert!(!mb.can_write());
    assert!(mb.can_read());
    mb.set_incoming(0xC008_0018, 0x4000_0000);
    assert!(mb.can_write());
    assert!(!mb.can_read());
    mb.send(0xC008_0018);
    assert_eq!(mb.registers().write, 0xC008_0018);
    let mut msg = Messege::new(8);
    assert!(!mb.response_ready(0xC008_0018, &msg));
    msg.data[1] = 0x8000_0000;
    assert!(mb.response_ready(0xC008_0018, &msg));
}

#[test]
fn raw_mailbox_word() {
    assert_eq!(Messeage::new(0x1000, 1).encode(), Ok(0x1001));
    assert_eq!(Messeage::new(0x1004, 1).encode(), Err(MailBoxError::NotAligned));
}
