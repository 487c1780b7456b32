use epd_waveshare_uart::color::EpdColor;
use epd_waveshare_uart::epd4in3::graphics::Display4in3;
use epd_waveshare_uart::epd4in3::{DEFAULT_BACKGROUND_COLOR, HEIGHT, WIDTH};
use epd_waveshare_uart::graphics::{find_position, outside_display, DisplayRotation, VarDisplay};

#[test]
fn buffer_clear() {
    let buffer = vec![EpdColor::Black; WIDTH as usize * HEIGHT as usize];
    let mut display = VarDisplay::new(WIDTH, HEIGHT, buffer);

    for &byte in display.buffer().iter() {
        assert_eq!(byte, EpdColor::Black);
    }

    display.clear_buffer(EpdColor::Gray);

    for &byte in display.buffer().iter() {
        assert_eq!(byte, EpdColor::Gray);
    }
}

#[test]
fn rotation_overflow() {
    let width = WIDTH as u32;
    let height = HEIGHT as u32;
    test_rotation_overflow(width, height, DisplayRotation::Rotate0);
}

fn test_rotation_overflow(width: u32, height: u32, rotation2: DisplayRotation) {
    let max_value = width * height;
    for x in 0..(width + height) {
        //limit x because it runs too long
        for y in 0..(u32::max_value()) {
            if outside_display(x, y, width, height, rotation2) {
                break;
            } else {
                let idx = find_position(x, y, width, height, rotation2);
                assert!(idx < max_value as usize);
            }
        }
    }
}

#[test]
fn graphics_graphics_rotation_0() {
    let width = 296;
    let height = 128;

    let buffer = vec![DEFAULT_BACKGROUND_COLOR; 128 * 296];
    let mut display = VarDisplay::new(width, height, buffer);

    // the line from (0, 0) to (7, 0)
    for x in 0..=7 {
        display.draw_pixel(x, 0, EpdColor::Black);
    }

    let buffer = display.buffer();

    assert_eq!(buffer[0], EpdColor::Black);

    for &byte in buffer.iter().skip(8) {
        assert_eq!(byte, DEFAULT_BACKGROUND_COLOR);
    }
}

#[test]
fn graphics_size() {
    let display = Display4in3::default();
    assert_eq!(display.buffer().len(), 120000);
}

#[test]
fn graphics_default() {
    let display = Display4in3::default();
    for &byte in display.buffer() {
        assert_eq!(byte, DEFAULT_BACKGROUND_COLOR.get_byte_value());
    }
}

#[test]
fn every_rotation_maps_onto_distinct_cells() {
    let (width, height) = (7u32, 5u32);
    for rotation in [
        DisplayRotation::Rotate0,
        DisplayRotation::Rotate90,
        DisplayRotation::Rotate180,
        DisplayRotation::Rotate270,
    ] {
        let mut seen = vec![false; (width * height) as usize];
        let mut count = 0;
        for x in 0..20 {
            for y in 0..20 {
                if !outside_display(x, y, width, height, rotation) {
                    let idx = find_position(x, y, width, height, rotation);
                    assert!(idx < (width * height) as usize);
                    assert!(!seen[idx]);
                    seen[idx] = true;
                    count += 1;
                }
            }
        }
        assert_eq!(count, width * height);
    }
}

#[test]
fn corner_positions() {
    let (w, h) = (800u32, 600u32);
    assert_eq!(find_position(0, 0, w, h, DisplayRotation::Rotate0), 0);
    assert_eq!(find_position(1, 1, w, h, DisplayRotation::Rotate0), 801);
    assert_eq!(find_position(0, 0, w, h, DisplayRotation::Rotate90), 799);
    assert_eq!(find_position(799, 599, w, h, DisplayRotation::Rotate180), 0);
    assert_eq!(find_position(599, 0, w, h, DisplayRotation::Rotate270), 0);
    assert_eq!(find_position(0, 0, w, h, DisplayRotation::Rotate270), 479200);
}

#[test]
fn outside_follows_rotation() {
    assert!(outside_display(800, 0, 800, 600, DisplayRotation::Rotate0));
    assert!(!outside_display(599, 0, 800, 600, DisplayRotation::Rotate90));
    assert!(outside_display(600, 0, 800, 600, DisplayRotation::Rotate270));
    assert!(!outside_display(0, 799, 800, 600, DisplayRotation::Rotate270));
    assert!(outside_display(0, 600, 800, 600, DisplayRotation::Rotate180));
}

#[test]
fn off_panel_pixels_are_dropped() {
    let mut display = VarDisplay::new(4, 3, vec![EpdColor::White; 12]);
    display.draw_pixel(4, 0, EpdColor::Black);
    display.draw_pixel(0, 3, EpdColor::Black);
    assert!(display.buffer().iter().all(|&c| c == EpdColor::White));
    display.set_rotation(DisplayRotation::Rotate90);
    assert_eq!(display.rotation(), DisplayRotation::Rotate90);
    display.draw_pixel(2, 0, EpdColor::Gray);
    assert_eq!(display.buffer()[3 + 4 * 2], EpdColor::Gray);
}
