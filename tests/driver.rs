use epd_waveshare_uart::color::EpdColor;
use epd_waveshare_uart::command::{point, set_color};
use epd_waveshare_uart::epd4in3::{
    UpdateAction, UpdateCursor, DEFAULT_BACKGROUND_COLOR, EPD4in3, HEIGHT, WIDTH,
};
use epd_waveshare_uart::interface::{reset_sequence, wake_sequence, PinStep};

#[test]
fn epd_size() {
    assert_eq!(WIDTH, 800);
    assert_eq!(HEIGHT, 600);
    assert_eq!(DEFAULT_BACKGROUND_COLOR, EpdColor::White);
}

#[test]
fn new_driver_colors() {
    let epd = EPD4in3::new();
    assert_eq!(epd.background_color(), EpdColor::White);
    assert_eq!(epd.foreground_color(), EpdColor::Black);
    assert_eq!(epd.width(), 800);
    assert_eq!(epd.height(), 600);
}

#[test]
fn background_buffer_sends_nothing() {
    let mut epd = EPD4in3::new();
    let buffer = vec![EpdColor::White; 800 * 600];
    let mut cursor = UpdateCursor::new();
    assert!(matches!(epd.next_update(&buffer, &mut cursor), UpdateAction::Done));
    assert_eq!(cursor.index(), 800 * 600);

    epd.set_background_color(EpdColor::Gray);
    let buffer = vec![EpdColor::Gray; 10];
    let mut cursor = UpdateCursor::new();
    assert!(matches!(epd.next_update(&buffer, &mut cursor), UpdateAction::Done));
}

/// Takes the frames of a `Send`, and records the pen color as the caller does
/// once the color frame has been written.
fn send_parts(epd: &mut EPD4in3, action: UpdateAction) -> (Option<Vec<u8>>, Vec<u8>, usize) {
    match action {
        UpdateAction::Send { color, pen, point, ack_len } => {
            let color = color.map(|f| f.get_bytes().to_vec());
            if color.is_some() {
                epd.set_foreground_color(pen);
            }
            (color, point.get_bytes().to_vec(), ack_len)
        }
        UpdateAction::Done => panic!("expected frames to send"),
    }
}

fn step(
    epd: &mut EPD4in3,
    buffer: &[EpdColor],
    cursor: &mut UpdateCursor,
) -> (Option<Vec<u8>>, Vec<u8>, usize) {
    let action = epd.next_update(buffer, cursor);
    send_parts(epd, action)
}

#[test]
fn pixel_with_new_color_switches_pen() {
    let mut epd = EPD4in3::new();
    let mut buffer = vec![EpdColor::White; 800 * 600];
    buffer[801] = EpdColor::Gray;
    buffer[805] = EpdColor::Gray;
    buffer[900] = EpdColor::Black;
    let mut cursor = UpdateCursor::new();

    let (color, pt, ack_len) = step(&mut epd, &buffer, &mut cursor);
    assert_eq!(cursor.index(), 801);
    assert_eq!(
        color.unwrap(),
        set_color(EpdColor::Gray, EpdColor::White).unwrap().get_bytes().to_vec()
    );
    assert_eq!(pt, point(1, 1).unwrap().get_bytes().to_vec());
    assert_eq!(ack_len, 4);
    assert_eq!(epd.foreground_color(), EpdColor::Gray);
    cursor.acknowledge(&[0x4f, 0x4b, 0x4f, 0x4b]);
    assert_eq!(cursor.index(), 802);

    let (color, pt, ack_len) = step(&mut epd, &buffer, &mut cursor);
    assert_eq!(cursor.index(), 805);
    assert!(color.is_none());
    assert_eq!(pt, point(5, 1).unwrap().get_bytes().to_vec());
    assert_eq!(ack_len, 2);
    cursor.acknowledge(&[1, 1]);

    let (color, pt, _) = step(&mut epd, &buffer, &mut cursor);
    assert_eq!(cursor.index(), 900);
    assert_eq!(
        color.unwrap(),
        set_color(EpdColor::Black, EpdColor::White).unwrap().get_bytes().to_vec()
    );
    assert_eq!(pt, point(100, 1).unwrap().get_bytes().to_vec());
    cursor.acknowledge(&[1, 1, 1, 1]);

    assert!(matches!(epd.next_update(&buffer, &mut cursor), UpdateAction::Done));
}

#[test]
fn zero_answers_resend_the_pixel() {
    let mut epd = EPD4in3::new();
    let buffer = vec![EpdColor::Black, EpdColor::White];
    let mut cursor = UpdateCursor::new();

    let mut attempts = 0;
    while cursor.index() == 0 {
        let (color, pt, ack_len) = step(&mut epd, &buffer, &mut cursor);
        assert!(color.is_none());
        assert_eq!(ack_len, 2);
        assert_eq!(pt, point(0, 0).unwrap().get_bytes().to_vec());
        assert_eq!(cursor.retries(), attempts);
        cursor.acknowledge(&[0, 0]);
        attempts += 1;
    }
    // each failed answer counts once: the pixel gets ten attempts
    assert_eq!(attempts, 10);
    assert_eq!(cursor.retries(), 0);
    assert!(matches!(epd.next_update(&buffer, &mut cursor), UpdateAction::Done));
}

#[test]
fn one_zero_byte_fails_the_attempt() {
    let epd = EPD4in3::new();
    let buffer = vec![EpdColor::Gray];
    let mut cursor = UpdateCursor::new();
    let _ = epd.next_update(&buffer, &mut cursor);
    cursor.acknowledge(&[1, 1, 0, 1]);
    assert_eq!(cursor.index(), 0);
    assert_eq!(cursor.retries(), 1);
    cursor.acknowledge(&[1, 1, 1, 1]);
    assert_eq!(cursor.index(), 1);
}

#[test]
fn pen_color_waits_for_the_write() {
    let epd = EPD4in3::new();
    let buffer = vec![EpdColor::Gray];
    let mut cursor = UpdateCursor::new();
    match epd.next_update(&buffer, &mut cursor) {
        UpdateAction::Send { color, pen, .. } => {
            assert!(color.is_some());
            assert_eq!(pen, EpdColor::Gray);
        }
        UpdateAction::Done => panic!("expected frames to send"),
    }
    // nothing was written: the driver still believes the old pen color
    assert_eq!(epd.foreground_color(), EpdColor::Black);
    // so the next attempt switches the color again
    match epd.next_update(&buffer, &mut cursor) {
        UpdateAction::Send { color, ack_len, .. } => {
            assert!(color.is_some());
            assert_eq!(ack_len, 4);
        }
        UpdateAction::Done => panic!("expected frames to send"),
    }
}

#[test]
fn control_line_timings() {
    assert_eq!(
        reset_sequence(),
        vec![
            PinStep::SetLow,
            PinStep::DelayMs(255),
            PinStep::SetHigh,
            PinStep::DelayMs(3000),
            PinStep::SetLow,
            PinStep::DelayMs(255),
        ]
    );
    assert_eq!(
        wake_sequence(),
        vec![
            PinStep::SetLow,
            PinStep::DelayMs(255),
            PinStep::SetHigh,
            PinStep::DelayMs(255),
            PinStep::SetLow,
            PinStep::DelayMs(255),
        ]
    );
}
