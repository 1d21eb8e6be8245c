use chip8::screen::Screen;

fn pixel(pixels: &[u8], row: usize, col: usize) -> u8 {
    pixels[row * 64 + col]
}

#[test]
fn new_screen_is_blank() {
    let screen = Screen::new();
    let pixels = screen.get_pixels();
    assert_eq!(pixels.len(), 2048);
    assert!(pixels.iter().all(|&p| p == 0x00));
}

#[test]
fn draw_sets_pixels_from_sprite_bits() {
    let mut screen = Screen::new();
    // One row, 0xA5 = 1010_0101: columns 0, 2, 5, 7.
    let collided = screen.draw(0, 0, &[0xA5]);
    assert!(!collided);
    let pixels = screen.get_pixels();
    assert_eq!(pixel(&pixels, 0, 0), 0xFF);
    assert_eq!(pixel(&pixels, 0, 1), 0x00);
    assert_eq!(pixel(&pixels, 0, 2), 0xFF);
    assert_eq!(pixel(&pixels, 0, 3), 0x00);
    assert_eq!(pixel(&pixels, 0, 4), 0x00);
    assert_eq!(pixel(&pixels, 0, 5), 0xFF);
    assert_eq!(pixel(&pixels, 0, 6), 0x00);
    assert_eq!(pixel(&pixels, 0, 7), 0xFF);
    assert_eq!(pixel(&pixels, 1, 0), 0x00);
}

#[test]
fn draw_at_offset_lands_rows_below_each_other() {
    let mut screen = Screen::new();
    screen.draw(10, 5, &[0x80, 0x40]);
    let pixels = screen.get_pixels();
    assert_eq!(pixel(&pixels, 5, 10), 0xFF);
    assert_eq!(pixel(&pixels, 6, 11), 0xFF);
    assert_eq!(pixel(&pixels, 5, 11), 0x00);
    assert_eq!(pixel(&pixels, 6, 10), 0x00);
}

#[test]
fn drawing_twice_restores_the_screen_and_collides() {
    let mut screen = Screen::new();
    let sprite = [0xF0, 0x90, 0x90, 0x90, 0xF0];
    let first = screen.draw(5, 7, &sprite);
    assert!(!first);
    let second = screen.draw(5, 7, &sprite);
    assert!(second);
    let pixels = screen.get_pixels();
    assert!(pixels.iter().all(|&p| p == 0x00));
}

#[test]
fn overlapping_draw_toggles_and_reports_collision() {
    let mut screen = Screen::new();
    screen.draw(0, 0, &[0b1100_0000]);
    let collided = screen.draw(1, 0, &[0b1100_0000]);
    assert!(collided);
    let pixels = screen.get_pixels();
    // Column 0 stays on, column 1 toggles off, column 2 turns on.
    assert_eq!(pixel(&pixels, 0, 0), 0xFF);
    assert_eq!(pixel(&pixels, 0, 1), 0x00);
    assert_eq!(pixel(&pixels, 0, 2), 0xFF);
}

#[test]
fn draw_wraps_columns_and_rows() {
    let mut screen = Screen::new();
    let collided = screen.draw(60, 30, &[0xFF, 0xFF, 0xFF]);
    assert!(!collided);
    let pixels = screen.get_pixels();
    // Columns 60-67 wrap into 60-63 and 0-3; rows 30-32 wrap into
    // 30, 31 and 0.
    for &row in &[30usize, 31, 0] {
        for col in 60..64 {
            assert_eq!(pixel(&pixels, row, col), 0xFF);
        }
        for col in 0..4 {
            assert_eq!(pixel(&pixels, row, col), 0xFF);
        }
        for col in 4..60 {
            assert_eq!(pixel(&pixels, row, col), 0x00);
        }
    }
    for row in 1..30 {
        for col in 0..64 {
            assert_eq!(pixel(&pixels, row, col), 0x00);
        }
    }
}

#[test]
fn clear_turns_every_pixel_off() {
    let mut screen = Screen::new();
    screen.draw(3, 4, &[0xFF]);
    screen.clear();
    let pixels = screen.get_pixels();
    assert!(pixels.iter().all(|&p| p == 0x00));
}

#[test]
fn empty_sprite_draws_nothing() {
    let mut screen = Screen::new();
    let collided = screen.draw(0, 0, &[]);
    assert!(!collided);
    assert!(screen.get_pixels().iter().all(|&p| p == 0x00));
}

#[test]
fn zero_bits_do_not_collide() {
    let mut screen = Screen::new();
    screen.draw(0, 0, &[0xFF]);
    // A sprite with no set bits toggles nothing and reports no
    // collision even over lit pixels.
    let collided = screen.draw(0, 0, &[0x00]);
    assert!(!collided);
}
