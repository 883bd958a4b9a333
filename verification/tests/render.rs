use boomer::error::Error;
use boomer::geometry::{Point, UNITS_PER_PIXEL};
use boomer::image::{Size, SourceImage, BYTES_PER_PIXEL};
use boomer::render::{compose_frame, scaled_size, Blit, Color, Disc, Frame, HIGHLIGHT_RADIUS};
use boomer::router::{handle_event, Event, HIGHLIGHT_KEY};
use boomer::state::TransformState;

const GRAY: Color = Color { red: 10, green: 10, blue: 10, alpha: 100 };

fn size(width: u32, height: u32) -> Size {
    Size { width, height }
}

fn state_at(scale: u8) -> TransformState {
    let mut state = TransformState::new();
    state.set_scale(scale);
    state
}

#[test]
fn unscaled_image_is_drawn_unshifted() {
    let state = TransformState::new();
    let source = size(1920, 1080);
    let scaled = scaled_size(source, &state);
    assert_eq!(scaled, Some(source));
    let frame = compose_frame(source, scaled, &state);
    assert_eq!(frame.image, Some(Blit { size: source, position: Point { x: 0, y: 0 } }));
    assert_eq!(frame.highlight, None);
    assert_eq!(frame.background, GRAY);
}

#[test]
fn unscaled_image_of_odd_size_is_drawn_unshifted() {
    let state = TransformState::new();
    let source = size(1, 7);
    let scaled = scaled_size(source, &state);
    let frame = compose_frame(source, scaled, &state);
    assert_eq!(frame.image, Some(Blit { size: source, position: Point { x: 0, y: 0 } }));
}

#[test]
fn scaled_size_is_the_size_times_the_scale() {
    let source = size(1920, 1080);
    assert_eq!(scaled_size(source, &state_at(12)), Some(size(2304, 1296)));
    assert_eq!(scaled_size(source, &state_at(1)), Some(size(192, 108)));
    assert_eq!(scaled_size(source, &state_at(30)), Some(size(5760, 3240)));
    assert_eq!(scaled_size(source, &state_at(5)), Some(size(960, 540)));
}

#[test]
fn scaled_size_drops_the_fraction() {
    assert_eq!(scaled_size(size(15, 19), &state_at(1)), Some(size(1, 1)));
    assert_eq!(scaled_size(size(15, 19), &state_at(7)), Some(size(10, 13)));
    assert_eq!(scaled_size(size(3, 3), &state_at(15)), Some(size(4, 4)));
}

#[test]
fn no_scaled_size_where_a_side_would_vanish() {
    assert_eq!(scaled_size(size(5, 100), &state_at(1)), None);
    assert_eq!(scaled_size(size(100, 9), &state_at(1)), None);
    assert_eq!(scaled_size(size(9, 9), &state_at(1)), None);
    assert_eq!(scaled_size(size(10, 10), &state_at(1)), Some(size(1, 1)));
    assert_eq!(scaled_size(size(0, 10), &state_at(10)), None);
}

#[test]
fn no_scaled_size_where_a_side_would_not_fit() {
    assert_eq!(scaled_size(size(u32::MAX, 10), &state_at(10)), Some(size(u32::MAX, 10)));
    assert_eq!(scaled_size(size(u32::MAX, 10), &state_at(11)), None);
    assert_eq!(scaled_size(size(10, u32::MAX), &state_at(30)), None);
    assert_eq!(scaled_size(size(u32::MAX, u32::MAX), &state_at(9)), Some(size(3865470565, 3865470565)));
}

#[test]
fn zoomed_image_stays_centred() {
    let source = size(1920, 1080);
    let state = state_at(12);
    let frame = compose_frame(source, scaled_size(source, &state), &state);
    let blit = frame.image.unwrap();
    assert_eq!(blit.size, size(2304, 1296));
    assert_eq!(blit.position, Point { x: -192 * UNITS_PER_PIXEL, y: -108 * UNITS_PER_PIXEL });
    assert_eq!(blit.position, Point { x: -49152, y: -27648 });

    let state = state_at(5);
    let frame = compose_frame(source, scaled_size(source, &state), &state);
    let blit = frame.image.unwrap();
    assert_eq!(blit.position, Point { x: 480 * UNITS_PER_PIXEL, y: 270 * UNITS_PER_PIXEL });
}

#[test]
fn growth_by_an_odd_number_of_pixels_is_halved_exactly() {
    let source = size(3, 3);
    let state = state_at(15);
    let frame = compose_frame(source, Some(size(4, 6)), &state);
    assert_eq!(frame.image.unwrap().position, Point { x: -128, y: -384 });
}

#[test]
fn height_is_centred_by_the_height() {
    let source = size(100, 400);
    let state = state_at(20);
    let frame = compose_frame(source, scaled_size(source, &state), &state);
    let blit = frame.image.unwrap();
    assert_eq!(blit.size, size(200, 800));
    assert_eq!(blit.position, Point { x: -50 * 256, y: -200 * 256 });
}

#[test]
fn pan_moves_the_image_the_opposite_way() {
    let source = size(1920, 1080);
    let mut state = state_at(12);
    state.set_offset(Point { x: 1000, y: -2000 });
    let frame = compose_frame(source, scaled_size(source, &state), &state);
    assert_eq!(frame.image.unwrap().position, Point { x: -49152 - 1000, y: -27648 + 2000 });
}

#[test]
fn image_position_at_the_ends_of_the_pan() {
    let source = size(1, 1);
    let mut state = state_at(10);
    state.set_offset(Point { x: i64::MAX, y: i64::MIN });
    let frame = compose_frame(source, Some(size(u32::MAX, u32::MAX)), &state);
    let grown = (u32::MAX as i64 - 1) * 128;
    assert_eq!(
        frame.image.unwrap().position,
        Point { x: -grown - (1i64 << 62), y: -grown + (1i64 << 62) }
    );
}

#[test]
fn spotlight_is_a_disc_at_the_pointer() {
    let source = size(640, 480);
    let mut state = TransformState::new();
    handle_event(&mut state, Event::Motion(Point { x: 25600, y: 12800 }));
    let dark = compose_frame(source, scaled_size(source, &state), &state);
    handle_event(&mut state, Event::KeyPress(HIGHLIGHT_KEY));
    let lit = compose_frame(source, scaled_size(source, &state), &state);
    assert_eq!(dark.highlight, None);
    assert_eq!(
        lit.highlight,
        Some(Disc {
            center: Point { x: 25600, y: 12800 },
            radius: 17920,
            color: Color { red: 100, green: 100, blue: 100, alpha: 40 },
        })
    );
    assert_eq!(HIGHLIGHT_RADIUS, 70 * UNITS_PER_PIXEL);
    assert_eq!(lit.background, dark.background);
    assert_eq!(lit.image, dark.image);
    assert_eq!(Frame { highlight: None, ..lit }, dark);
}

#[test]
fn spotlight_follows_the_pointer() {
    let source = size(640, 480);
    let mut state = TransformState::new();
    handle_event(&mut state, Event::KeyPress(HIGHLIGHT_KEY));
    handle_event(&mut state, Event::Motion(Point { x: -5, y: 9 }));
    let frame = compose_frame(source, Some(source), &state);
    assert_eq!(frame.highlight.unwrap().center, Point { x: -5, y: 9 });
    handle_event(&mut state, Event::KeyRelease(HIGHLIGHT_KEY));
    let frame = compose_frame(source, Some(source), &state);
    assert_eq!(frame.highlight, None);
}

#[test]
fn frame_without_scaled_image_is_the_background_alone() {
    let source = size(640, 480);
    let mut state = TransformState::new();
    state.set_highlight_active(true);
    state.set_offset(Point { x: 77, y: 88 });
    let frame = compose_frame(source, None, &state);
    assert_eq!(frame, Frame { background: GRAY, image: None, highlight: None });
}

#[test]
fn source_image_keeps_size_and_pixels() {
    let pixels: Vec<u8> = (0..24).collect();
    let image = SourceImage::new(3, 2, pixels.clone()).unwrap();
    assert_eq!(image.size(), size(3, 2));
    assert_eq!(image.pixels(), &pixels);
    assert_eq!(BYTES_PER_PIXEL, 4);
}

#[test]
fn source_image_needs_positive_sides() {
    assert_eq!(SourceImage::new(0, 2, Vec::new()).err(), Some(Error::Image));
    assert_eq!(SourceImage::new(2, 0, Vec::new()).err(), Some(Error::Image));
    assert_eq!(SourceImage::new(0, 0, Vec::new()).err(), Some(Error::Image));
}

#[test]
fn source_image_needs_four_bytes_for_each_pixel() {
    assert_eq!(SourceImage::new(3, 2, vec![0u8; 23]).err(), Some(Error::Image));
    assert_eq!(SourceImage::new(3, 2, vec![0u8; 25]).err(), Some(Error::Image));
    assert_eq!(SourceImage::new(3, 2, vec![0u8; 6]).err(), Some(Error::Image));
    assert_eq!(SourceImage::new(u32::MAX, u32::MAX, vec![0u8; 4]).err(), Some(Error::Image));
    assert!(SourceImage::new(1, 1, vec![0u8; 4]).is_ok());
}

#[test]
fn events_that_request_no_frame_leave_the_frame() {
    let source = size(800, 600);
    let mut state = state_at(14);
    state.set_offset(Point { x: 300, y: -40 });
    let idle = [
        Event::Motion(Point { x: 9000, y: 1000 }),
        Event::ButtonPress(1),
        Event::Motion(Point { x: 9000, y: 1000 }),
        Event::ButtonPress(3),
        Event::ButtonRelease(1),
        Event::KeyPress(24),
        Event::KeyRelease(9),
        Event::Scroll(boomer::router::ScrollDirection::Left),
        Event::KeyPress(9),
    ];
    let before = compose_frame(source, scaled_size(source, &state), &state);
    for event in idle {
        let action = handle_event(&mut state, event);
        assert_ne!(action, boomer::router::Action::Render);
        let after = compose_frame(source, scaled_size(source, &state), &state);
        assert_eq!(after, before);
    }
}
