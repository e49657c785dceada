use chip8::screen::Screen;

#[test]
fn new_screen_is_blank() {
    let screen = Screen::new();
    assert_eq!(screen.rows(), &[0u64; 32]);
    assert!(!screen.pixel(0, 0));
}

#[test]
fn default_screen_is_blank() {
    let screen = Screen::default();
    assert_eq!(screen.rows(), &[0u64; 32]);
}

#[test]
fn clone_keeps_the_pixels() {
    let mut screen = Screen::new();
    screen.draw_sprite(&[0x3C, 0x42], 20, 9);
    let copy = screen.clone();
    assert_eq!(copy.rows(), screen.rows());
    screen.clear();
    assert_eq!(copy.rows()[9], 0x3Cu64 << 36);
    assert_eq!(copy.rows()[10], 0x42u64 << 36);
}

#[test]
fn draw_full_row_at_origin_then_again() {
    let mut screen = Screen::new();
    let collision = screen.draw_sprite(&[0xFF], 0, 0);
    assert!(!collision);
    assert_eq!(screen.rows()[0], 0xFFu64 << 56);
    assert_eq!(screen.rows()[0], 0xFF00_0000_0000_0000);
    assert!(screen.rows()[1..].iter().all(|row| *row == 0));

    let collision = screen.draw_sprite(&[0xFF], 0, 0);
    assert!(collision);
    assert_eq!(screen.rows(), &[0u64; 32]);
}

#[test]
fn draw_is_clipped_at_the_bottom() {
    let mut screen = Screen::new();
    let collision = screen.draw_sprite(&[0x80, 0x40, 0x20, 0x10, 0x08], 0, 30);
    assert!(!collision);
    let rows = screen.rows();
    assert!(rows[..30].iter().all(|row| *row == 0));
    assert_eq!(rows[30], 0x80u64 << 56);
    assert_eq!(rows[31], 0x40u64 << 56);
}

#[test]
fn draw_is_clipped_at_the_right() {
    let mut screen = Screen::new();
    screen.draw_sprite(&[0xFF], 60, 3);
    assert_eq!(screen.rows()[3], 0x0F);
    screen.draw_sprite(&[0b1010_0101], 63, 4);
    assert_eq!(screen.rows()[4], 0x01);
    screen.draw_sprite(&[0b0110_0101], 63, 5);
    assert_eq!(screen.rows()[5], 0x00);
}

#[test]
fn draw_at_last_full_column_and_next() {
    let mut screen = Screen::new();
    screen.draw_sprite(&[0xA5], 56, 0);
    assert_eq!(screen.rows()[0], 0xA5);
    screen.draw_sprite(&[0xA5], 57, 1);
    assert_eq!(screen.rows()[1], 0x52);
    screen.draw_sprite(&[0xA5], 55, 2);
    assert_eq!(screen.rows()[2], 0x14A);
}

#[test]
fn draw_off_screen_changes_nothing() {
    let mut screen = Screen::new();
    screen.draw_sprite(&[0xFF, 0xFF], 10, 10);
    let before = *screen.rows();
    assert!(!screen.draw_sprite(&[0xFF, 0xFF], 64, 10));
    assert!(!screen.draw_sprite(&[0xFF, 0xFF], 255, 10));
    assert!(!screen.draw_sprite(&[0xFF, 0xFF], 10, 32));
    assert!(!screen.draw_sprite(&[0xFF, 0xFF], 10, 255));
    assert!(!screen.draw_sprite(&[], 10, 10));
    assert_eq!(screen.rows(), &before);
}

#[test]
fn draw_longer_than_the_display() {
    let mut screen = Screen::new();
    let sprite = [0x80u8; 40];
    assert!(!screen.draw_sprite(&sprite, 0, 0));
    assert!(screen.rows().iter().all(|row| *row == 0x80u64 << 56));
}

#[test]
fn collision_needs_a_common_pixel() {
    let mut screen = Screen::new();
    screen.draw_sprite(&[0xF0], 0, 0);
    assert!(!screen.draw_sprite(&[0xF0], 4, 0));
    assert_eq!(screen.rows()[0], 0xFFu64 << 56);
    assert!(screen.draw_sprite(&[0x01, 0x01], 0, 0));
    assert_eq!(screen.rows()[0], 0xFEu64 << 56);
    assert_eq!(screen.rows()[1], 0x01u64 << 56);
}

#[test]
fn collision_in_any_row_counts() {
    let mut screen = Screen::new();
    screen.draw_sprite(&[0x80], 5, 7);
    assert!(screen.draw_sprite(&[0x00, 0x00, 0x80], 5, 5));
    assert_eq!(screen.rows()[7], 0);
}

#[test]
fn collision_in_clipped_row_does_not_count() {
    let mut screen = Screen::new();
    screen.draw_sprite(&[0x80], 0, 0);
    assert!(!screen.draw_sprite(&[0x00, 0x80], 0, 31));
    assert_eq!(screen.rows()[0], 0x80u64 << 56);
}

#[test]
fn clear_turns_everything_off() {
    let mut screen = Screen::new();
    screen.draw_sprite(&[0xFF; 32], 0, 0);
    screen.draw_sprite(&[0xFF; 32], 56, 0);
    assert!(screen.rows().iter().all(|row| *row != 0));
    screen.clear();
    assert_eq!(screen.rows(), &[0u64; 32]);
}

#[test]
fn pixel_reads_columns_from_the_left() {
    let mut screen = Screen::new();
    screen.draw_sprite(&[0b1001_0000], 8, 2);
    assert!(screen.pixel(2, 8));
    assert!(!screen.pixel(2, 9));
    assert!(!screen.pixel(2, 10));
    assert!(screen.pixel(2, 11));
    assert!(!screen.pixel(2, 7));
    assert!(!screen.pixel(1, 8));
    screen.draw_sprite(&[0x01], 56, 31);
    assert!(screen.pixel(31, 63));
    assert!(!screen.pixel(31, 62));
}

#[test]
fn pixel_outside_the_display_is_off() {
    let mut screen = Screen::new();
    screen.draw_sprite(&[0xFF; 32], 0, 0);
    screen.draw_sprite(&[0xFF; 32], 56, 0);
    assert!(!screen.pixel(32, 0));
    assert!(!screen.pixel(0, 64));
    assert!(!screen.pixel(usize::MAX, usize::MAX));
}

#[test]
fn drawing_flips_exactly_the_sprite_pixels() {
    let mut screen = Screen::new();
    screen.draw_sprite(&[0xC3, 0x3C, 0xFF], 3, 4);
    let before = screen.clone();
    let sprite = [0b1011_0001u8, 0b0100_1110];
    screen.draw_sprite(&sprite, 5, 5);
    for row in 0..32usize {
        for column in 0..64usize {
            let in_sprite = (5..7).contains(&row)
                && (5..13).contains(&column)
                && (sprite[row - 5] >> (7 - (column - 5))) & 1 == 1;
            assert_eq!(screen.pixel(row, column), before.pixel(row, column) != in_sprite);
        }
    }
}
