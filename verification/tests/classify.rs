use open_legato::classify::{InputDeviceInfo, classify_device_name, select_stylus_device};

fn device(name: &str, is_pen: bool, is_touch: bool) -> InputDeviceInfo {
    InputDeviceInfo {
        name: name.to_string(),
        path: format!("/dev/input/event{}", name.len()),
        is_pen,
        is_touch,
    }
}

#[test]
fn pen_names_are_classified_as_pen() {
    assert_eq!(classify_device_name(b"Wacom Pen"), (true, false));
    // A name may earn both flags: "Stylus" marks a pen while the
    // vendor token "ELAN" marks a touch surface.
    assert_eq!(classify_device_name(b"ELAN9008:00 04F3:2C82 Stylus"), (true, true));
}

#[test]
fn classification_is_case_insensitive() {
    assert_eq!(classify_device_name(b"WACOM PEN"), (true, false));
    assert_eq!(classify_device_name(b"StYlUs"), (true, false));
    assert_eq!(classify_device_name(b"TOUCHSCREEN"), (false, true));
}

#[test]
fn touch_names_are_classified_as_touch() {
    assert_eq!(classify_device_name(b"ELAN9008:00 04F3:2C82 Touchscreen"), (false, true));
    assert_eq!(classify_device_name(b"FTS3528:00 2808:1015 UNKNOWN finger sensor"), (false, true));
    assert_eq!(classify_device_name(b"elan9008:00"), (false, true));
}

#[test]
fn touchpad_and_mouse_suppress_touch() {
    assert_eq!(classify_device_name(b"Synaptics Touchpad"), (false, false));
    assert_eq!(classify_device_name(b"Logitech USB Optical Mouse"), (false, false));
    assert_eq!(classify_device_name(b"Finger Mouse"), (false, false));
}

#[test]
fn unrelated_names_get_no_flag() {
    assert_eq!(classify_device_name(b"AT Translated Set 2 keyboard"), (false, false));
    assert_eq!(classify_device_name(b""), (false, false));
}

#[test]
fn selector_prefers_first_pen() {
    let devices = vec![
        device("touchscreen", false, true),
        device("pen one", true, false),
        device("pen two", true, false),
    ];
    assert_eq!(select_stylus_device(&devices), Some(1));
}

#[test]
fn selector_falls_back_to_first_touch() {
    let devices = vec![
        device("keyboard", false, false),
        device("touchscreen a", false, true),
        device("touchscreen b", false, true),
    ];
    assert_eq!(select_stylus_device(&devices), Some(1));
}

#[test]
fn selector_returns_none_without_candidates() {
    let devices = vec![device("keyboard", false, false), device("mouse", false, false)];
    assert_eq!(select_stylus_device(&devices), None);
    assert_eq!(select_stylus_device(&Vec::new()), None);
}
