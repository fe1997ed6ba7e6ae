use image_viewer::screen::{taskbar_height, Rect, DEFAULT_TASKBAR_HEIGHT};

#[test]
fn taskbar_height_is_the_height_of_its_rectangle() {
    let bounds = Rect { left: 0, top: 1040, right: 1920, bottom: 1080 };
    assert_eq!(taskbar_height(1, bounds), 40);
    let tall = Rect { left: 0, top: 1000, right: 1920, bottom: 1080 };
    assert_eq!(taskbar_height(usize::MAX, tall), 80);
}

#[test]
fn taskbar_height_falls_back_to_the_default() {
    let bounds = Rect { left: 0, top: 1000, right: 1920, bottom: 1080 };
    assert_eq!(taskbar_height(0, bounds), 40);
    assert_eq!(DEFAULT_TASKBAR_HEIGHT, 40);
}

#[test]
fn taskbar_height_does_not_overflow() {
    let bounds = Rect { left: 0, top: i32::MIN, right: 0, bottom: i32::MAX };
    assert_eq!(taskbar_height(1, bounds), 4_294_967_295);
    let upside_down = Rect { left: 0, top: i32::MAX, right: 0, bottom: i32::MIN };
    assert_eq!(taskbar_height(1, upside_down), -4_294_967_295);
}
