use action_radar::canvas::set_pixel;
use action_radar::icon::{bar_height, create_tray_icon_image, draw_bar};

const INACTIVE: [u8; 4] = [148, 163, 184, 220];
const AMBER: [u8; 4] = [245, 158, 11, 255];
const RED: [u8; 4] = [239, 68, 68, 255];
const BLUE: [u8; 4] = [14, 165, 233, 255];
const BASELINE: [u8; 4] = [100, 116, 139, 120];
const CLEAR: [u8; 4] = [0, 0, 0, 0];

fn pixel(rgba: &[u8], x: usize, y: usize) -> [u8; 4] {
    let i = (y * 18 + x) * 4;
    [rgba[i], rgba[i + 1], rgba[i + 2], rgba[i + 3]]
}

#[test]
fn bar_heights_follow_the_steps() {
    assert_eq!(bar_height(0), 5);
    assert_eq!(bar_height(1), 8);
    assert_eq!(bar_height(2), 11);
    assert_eq!(bar_height(3), 13);
    assert_eq!(bar_height(100), 13);
    assert_eq!(bar_height(u32::MAX), 13);
}

#[test]
fn height_for_many_equals_height_for_three() {
    assert_eq!(bar_height(3), bar_height(100));
    assert_eq!(create_tray_icon_image(3, 3, 3), create_tray_icon_image(100, 4, 1000));
    assert_eq!(create_tray_icon_image(2, 3, 0), create_tray_icon_image(2, 77, 0));
    assert_ne!(create_tray_icon_image(2, 0, 0), create_tray_icon_image(3, 0, 0));
}

#[test]
fn icon_is_deterministic() {
    let a = create_tray_icon_image(1, 2, 5);
    let b = create_tray_icon_image(1, 2, 5);
    assert_eq!(a, b);
    assert_eq!(a.len(), 18 * 18 * 4);
}

#[test]
fn zero_state_icon_has_short_inactive_bars_and_baseline() {
    let rgba = create_tray_icon_image(0, 0, 0);
    assert_eq!(rgba.len(), 1296);
    // A bar of height 5 spans rows 11 to 15.
    assert_eq!(pixel(&rgba, 2, 11), INACTIVE);
    assert_eq!(pixel(&rgba, 1, 11), CLEAR);
    assert_eq!(pixel(&rgba, 4, 11), CLEAR);
    assert_eq!(pixel(&rgba, 1, 12), INACTIVE);
    assert_eq!(pixel(&rgba, 2, 10), CLEAR);
    assert_eq!(pixel(&rgba, 1, 15), CLEAR);
    assert_eq!(pixel(&rgba, 4, 15), CLEAR);
    assert_eq!(pixel(&rgba, 3, 15), INACTIVE);
    assert_eq!(pixel(&rgba, 8, 13), INACTIVE);
    assert_eq!(pixel(&rgba, 14, 13), INACTIVE);
    for x in 1..17 {
        assert_eq!(pixel(&rgba, x, 16), BASELINE);
    }
    assert_eq!(pixel(&rgba, 0, 16), CLEAR);
    assert_eq!(pixel(&rgba, 17, 16), CLEAR);
    assert_eq!(pixel(&rgba, 5, 13), CLEAR);
    assert_eq!(pixel(&rgba, 0, 0), CLEAR);
    assert_eq!(pixel(&rgba, 17, 17), CLEAR);
}

#[test]
fn active_bars_take_their_category_colour() {
    let rgba = create_tray_icon_image(1, 2, 3);
    // Heights 8, 11 and 13: tops at rows 8, 5 and 3.
    assert_eq!(pixel(&rgba, 2, 8), AMBER);
    assert_eq!(pixel(&rgba, 2, 7), CLEAR);
    assert_eq!(pixel(&rgba, 8, 5), RED);
    assert_eq!(pixel(&rgba, 7, 5), CLEAR);
    assert_eq!(pixel(&rgba, 7, 6), RED);
    assert_eq!(pixel(&rgba, 8, 4), CLEAR);
    assert_eq!(pixel(&rgba, 15, 3), BLUE);
    assert_eq!(pixel(&rgba, 16, 3), CLEAR);
    assert_eq!(pixel(&rgba, 16, 4), BLUE);
    assert_eq!(pixel(&rgba, 14, 2), CLEAR);
}

#[test]
fn set_pixel_writes_four_bytes() {
    let mut rgba = vec![7u8; 3 * 2 * 4];
    set_pixel(&mut rgba, 3, 1, 1, [1, 2, 3, 4]);
    let mut expected = vec![7u8; 24];
    expected[16] = 1;
    expected[17] = 2;
    expected[18] = 3;
    expected[19] = 4;
    assert_eq!(rgba, expected);
}

#[test]
fn draw_bar_leaves_corners_and_other_pixels() {
    let mut rgba = vec![9u8; 6 * 17 * 4];
    draw_bar(&mut rgba, 6, 2, 0, [1, 1, 1, 1], [2, 2, 2, 2]);
    let at = |x: usize, y: usize| -> [u8; 4] {
        let i = (y * 6 + x) * 4;
        [rgba[i], rgba[i + 1], rgba[i + 2], rgba[i + 3]]
    };
    assert_eq!(at(3, 11), [2, 2, 2, 2]);
    assert_eq!(at(2, 11), [9, 9, 9, 9]);
    assert_eq!(at(5, 15), [9, 9, 9, 9]);
    assert_eq!(at(2, 13), [2, 2, 2, 2]);
    assert_eq!(at(1, 13), [9, 9, 9, 9]);
    assert_eq!(at(3, 10), [9, 9, 9, 9]);
    assert_eq!(at(3, 16), [9, 9, 9, 9]);
}
