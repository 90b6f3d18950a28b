//! Pixel-level behavior of the compositing blend and the canvas model.

use ui_overlay::canvas::Canvas;
use ui_overlay::color::{over, transparent, Rgba};

fn rgba(r: u8, g: u8, b: u8, a: u8) -> Rgba {
    Rgba { r, g, b, a }
}

#[test]
fn opaque_source_replaces_destination() {
    let red = rgba(255, 0, 0, 255);
    let blue = rgba(0, 0, 255, 255);
    assert_eq!(over(red, blue), red);
}

#[test]
fn transparent_source_keeps_destination() {
    let blue = rgba(0, 0, 255, 255);
    assert_eq!(over(transparent(), blue), blue);
    let green = rgba(0, 255, 0, 255);
    assert_eq!(over(transparent(), green), green);
}

#[test]
fn semi_transparent_source_blends_exactly() {
    // Premultiplied half-covering red over opaque blue:
    // r = 100 + 0 * 127 / 255 = 100
    // b = 0 + 255 * 127 / 255 = 127
    // a = 128 + 255 * 127 / 255 = 255
    let src = rgba(100, 0, 0, 128);
    let dst = rgba(0, 0, 255, 255);
    assert_eq!(over(src, dst), rgba(100, 0, 127, 255));
}

#[test]
fn blend_clamps_at_channel_maximum() {
    // A zero-alpha source with bright channels keeps the destination whole,
    // so channels would exceed 255 and must clamp.
    let src = rgba(200, 200, 200, 0);
    let dst = rgba(200, 200, 200, 255);
    assert_eq!(over(src, dst), rgba(255, 255, 255, 255));
}

#[test]
fn alpha_round_trip_single_pixel() {
    // Transparent clear, one opaque red pixel, composited onto solid blue:
    // that pixel is red, every other pixel stays blue.
    let red = rgba(255, 0, 0, 255);
    let blue = rgba(0, 0, 255, 255);
    let mut scene = Canvas::new(4, 4, blue);
    let mut ui = Canvas::new(4, 4, transparent());
    ui.set_pixel(2, 1, red);
    scene.composite_over(&ui);
    for y in 0..4u32 {
        for x in 0..4u32 {
            if x == 2 && y == 1 {
                assert_eq!(scene.pixel(x, y), red);
            } else {
                assert_eq!(scene.pixel(x, y), blue);
            }
        }
    }
}

#[test]
fn ordering_scenario_white_square_over_green() {
    // A scene painted full green, a UI layer with a 10 by 10 opaque white
    // square at the origin: the composite shows white exactly there and
    // green everywhere else.
    let green = rgba(0, 255, 0, 255);
    let white = rgba(255, 255, 255, 255);
    let mut scene = Canvas::new(20, 20, green);
    let mut ui = Canvas::new(20, 20, transparent());
    ui.fill_rect(0, 0, 10, 10, white);
    scene.composite_over(&ui);
    for y in 0..20u32 {
        for x in 0..20u32 {
            if x < 10 && y < 10 {
                assert_eq!(scene.pixel(x, y), white);
            } else {
                assert_eq!(scene.pixel(x, y), green);
            }
        }
    }
}

#[test]
fn clear_overwrites_every_pixel() {
    let green = rgba(0, 255, 0, 255);
    let blue = rgba(0, 0, 255, 255);
    let mut canvas = Canvas::new(3, 5, green);
    canvas.clear(blue);
    for y in 0..5u32 {
        for x in 0..3u32 {
            assert_eq!(canvas.pixel(x, y), blue);
        }
    }
}
