use eei_vfd::buffer_len;
use eei_vfd::color::Color;
use eei_vfd::gp1287bi::{Display256x50, HEIGHT, NUM_DISPLAY_BITS, WIDTH};
use eei_vfd::graphics::{
    draw_pixel, BufferSizeError, Display, DisplayRotation, Pixel, Point, VarDisplay,
};

fn px(x: i32, y: i32, c: Color) -> Pixel {
    Pixel(Point { x, y }, c)
}

fn surface(width: u32, height: u32, background: Color) -> VarDisplay {
    let len = buffer_len(width as usize, height as usize);
    VarDisplay::new(width, height, vec![background.get_byte_value(); len]).unwrap()
}

#[test]
fn buffer_len_rounds_up() {
    assert_eq!(buffer_len(8, 1), 1);
    assert_eq!(buffer_len(9, 2), 4);
    assert_eq!(buffer_len(128, 296), 4736);
    assert_eq!(buffer_len(56, 256), NUM_DISPLAY_BITS as usize);
    assert_eq!(buffer_len(0, 10), 0);
}

#[test]
fn horizontal_line_rotate0() {
    let mut d = surface(128, 296, Color::Green);
    let line: Vec<Pixel> = (0..=7).map(|x| px(x, 0, Color::Dark)).collect();
    d.draw_iter(&line);
    let buf = d.buffer();
    assert_eq!(buf[0], Color::Dark.get_byte_value());
    assert!(buf[1..].iter().all(|&b| b == Color::Green.get_byte_value()));
}

#[test]
fn vertical_line_rotate90() {
    let mut d = surface(128, 296, Color::Green);
    d.set_rotation(DisplayRotation::Rotate90);
    let line: Vec<Pixel> = (120..=295).map(|y| px(0, y, Color::Dark)).collect();
    d.draw_iter(&line);
    let buf = d.buffer();
    assert_eq!(buf[0], Color::Dark.get_byte_value());
    assert!(buf[1..].iter().all(|&b| b == Color::Green.get_byte_value()));
}

#[test]
fn rotate180_and_rotate270_positions() {
    let mut d = surface(16, 4, Color::Dark);
    d.set_rotation(DisplayRotation::Rotate180);
    d.draw_iter(&vec![px(0, 0, Color::Green)]);
    // (0, 0) lands on (15, 3): last byte, last bit
    assert_eq!(d.buffer(), &[0, 0, 0, 0, 0, 0, 0, 0x01][..]);

    let mut d = surface(16, 4, Color::Dark);
    d.set_rotation(DisplayRotation::Rotate270);
    d.draw_iter(&vec![px(1, 9, Color::Green)]);
    // (1, 9) lands on (9, 2): byte 1 + 2 * 2, bit 0x80 >> 1
    assert_eq!(d.buffer(), &[0, 0, 0, 0, 0, 0x40, 0, 0][..]);
}

#[test]
fn draw_rotate0_sets_msb_first() {
    let mut d = surface(16, 2, Color::Dark);
    d.draw_iter(&vec![px(0, 0, Color::Green), px(9, 1, Color::Green)]);
    assert_eq!(d.buffer(), &[0x80, 0, 0, 0x40][..]);
}

#[test]
fn dark_then_green_restores() {
    let mut d = surface(16, 2, Color::Green);
    let before = d.buffer().to_vec();
    d.draw_iter(&vec![px(3, 1, Color::Dark)]);
    assert_eq!(d.buffer()[2], 0xff & !0x10);
    d.draw_iter(&vec![px(3, 1, Color::Green)]);
    assert_eq!(d.buffer(), &before[..]);
}

#[test]
fn drawing_twice_is_idempotent() {
    let mut once = surface(16, 2, Color::Green);
    once.draw_iter(&vec![px(5, 0, Color::Dark)]);
    let mut twice = surface(16, 2, Color::Green);
    twice.draw_iter(&vec![px(5, 0, Color::Dark), px(5, 0, Color::Dark)]);
    assert_eq!(once.buffer(), twice.buffer());
}

#[test]
fn clear_buffer_fills_bytes() {
    let mut d = surface(20, 3, Color::Dark);
    d.draw_iter(&vec![px(1, 1, Color::Green)]);
    d.clear_buffer(Color::Green);
    assert!(d.buffer().iter().all(|&b| b == 0xFF));
    d.clear_buffer(Color::Dark);
    assert!(d.buffer().iter().all(|&b| b == 0x00));
    assert_eq!(d.buffer().len(), 9);
}

#[test]
fn short_buffer_is_refused() {
    let r = VarDisplay::new(128, 296, vec![0u8; 4735]);
    assert_eq!(
        r.err(),
        Some(BufferSizeError { required: 4736, actual: 4735 })
    );
    assert!(VarDisplay::new(128, 296, vec![0u8; 4736]).is_ok());
    assert!(VarDisplay::new(9, 1, vec![0u8; 1]).is_err());
}

#[test]
fn out_of_bounds_is_clipped() {
    let mut d = surface(16, 4, Color::Green);
    let before = d.buffer().to_vec();
    d.draw_iter(&vec![
        px(-1, 0, Color::Dark),
        px(0, -1, Color::Dark),
        px(16, 0, Color::Dark),
        px(0, 4, Color::Dark),
    ]);
    assert_eq!(d.buffer(), &before[..]);

    let mut buf = vec![0xffu8; 8];
    draw_pixel(&mut buf, 16, 4, DisplayRotation::Rotate0, px(16, 0, Color::Dark));
    assert_eq!(buf, vec![0xffu8; 8]);
}

#[test]
fn rotate90_swaps_bounds() {
    let mut d = surface(8, 16, Color::Green);
    d.set_rotation(DisplayRotation::Rotate90);
    assert_eq!(d.rotation(), DisplayRotation::Rotate90);
    // under a quarter turn x runs to height and y to width
    d.draw_iter(&vec![px(15, 0, Color::Dark), px(0, 8, Color::Dark)]);
    // (15, 0) lands on (7, 15): last byte, last bit
    assert_eq!(d.buffer()[15], 0xfe);
    assert!(d.buffer()[..15].iter().all(|&b| b == 0xff));
}

#[test]
fn full_panel_buffer() {
    let mut d = Display256x50::default();
    assert_eq!(d.size(), (WIDTH, HEIGHT));
    assert_eq!(d.buffer().len(), NUM_DISPLAY_BITS as usize);
    assert!(d.buffer().iter().all(|&b| b == 0x00));
    assert_eq!(d.rotation(), DisplayRotation::Rotate0);
    d.draw_iter(&vec![px(55, 255, Color::Green)]);
    assert_eq!(d.buffer()[NUM_DISPLAY_BITS as usize - 1], 0x01);
}
