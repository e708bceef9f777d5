use to_rust_a_gauge::render::{dim_color, fill_level, wheel, ActuatorFrame, Rgb};
use to_rust_a_gauge::render::{render_frame, NUM_LEDS};

fn rgb(r: u8, g: u8, b: u8) -> Rgb {
    Rgb { r, g, b }
}

#[test]
fn frame_always_has_one_color_per_cell() {
    for value in [0u32, 1, 236, 237, 4500, 8999, 9000, 20000, u32::MAX] {
        for backlight_on in [false, true] {
            let mut frame = ActuatorFrame::new();
            render_frame(&mut frame, value, backlight_on);
            assert_eq!(frame.cells.len(), NUM_LEDS);
        }
    }
}

#[test]
fn rendering_is_idempotent() {
    let mut a = ActuatorFrame::new();
    let mut b = ActuatorFrame::new();
    render_frame(&mut a, 7321, false);
    render_frame(&mut b, 7321, false);
    assert_eq!(a.cells, b.cells);
    assert_eq!(a.stepper_target, b.stepper_target);
    // A second render over a stale frame gives the same cells again.
    render_frame(&mut a, 7321, false);
    assert_eq!(a.cells, b.cells);
}

#[test]
fn fill_level_boundaries() {
    assert_eq!(fill_level(0), 0);
    assert_eq!(fill_level(236), 0);
    assert_eq!(fill_level(237), 1);
    assert_eq!(fill_level(4500), 10);
    assert_eq!(fill_level(8999), 19);
    assert_eq!(fill_level(9000), 19);
    assert_eq!(fill_level(u32::MAX), 19);
    assert!(fill_level(u32::MAX) < NUM_LEDS);
}

#[test]
fn value_zero_colors_only_position_zero_and_label_zone() {
    let mut frame = ActuatorFrame::new();
    render_frame(&mut frame, 0, true);
    for i in 0..NUM_LEDS {
        let offset = (i + 9) % NUM_LEDS;
        if offset == 0 {
            assert_eq!(frame.cells[i], wheel(0));
        } else if offset >= 19 {
            assert_eq!(frame.cells[i], rgb(255, 255, 255));
        } else {
            assert_eq!(frame.cells[i], rgb(0, 0, 0));
        }
    }
}

#[test]
fn wheel_segment_boundaries() {
    // Pre-reflection input 128 is the red/green boundary; 43 and 214 reflect
    // onto the decode boundaries 85 and 170.
    assert_eq!(wheel(128), rgb(255, 0, 0));
    assert_eq!(wheel(43), rgb(0, 255, 0));
    assert_eq!(wheel(214), rgb(0, 0, 255));
    for c in [wheel(128), wheel(43), wheel(214)] {
        let channels = [c.r, c.g, c.b];
        assert!(channels.contains(&255));
        assert_eq!(channels.iter().filter(|&&x| x == 0).count(), 2);
    }
}

#[test]
fn wheel_exact_values() {
    assert_eq!(wheel(127), rgb(252, 3, 0));
    assert_eq!(wheel(0), rgb(0, 126, 129));
    assert_eq!(wheel(120), rgb(231, 24, 0));
    assert_eq!(wheel(252), rgb(0, 114, 141));
}

#[test]
fn dim_factor_halves_channels_when_backlight_off() {
    assert_eq!(dim_color(rgb(255, 255, 255), false), rgb(127, 127, 127));
    assert_eq!(dim_color(rgb(255, 255, 255), true), rgb(255, 255, 255));
    assert_eq!(dim_color(rgb(195, 0, 61), false), rgb(97, 0, 30));
}

#[test]
fn half_domain_backlight_off_scenario() {
    // Telemetry 4500 over a 9000 domain maximum, backlight off: fill level
    // round(19 * 4500 / 9000) = 10, hue cells at half brightness, label zone
    // white at half brightness, the rest off.
    let mut frame = ActuatorFrame::new();
    render_frame(&mut frame, 4500, false);
    assert_eq!(frame.stepper_target, 4500);
    // offsets 9 and 10 land on physical cells 0 and 1
    assert_eq!(frame.cells[0], rgb(97, 30, 0));
    assert_eq!(frame.cells[1], rgb(115, 12, 0));
    // offsets 11..=18 are off
    for i in 2..=9 {
        assert_eq!(frame.cells[i], rgb(0, 0, 0));
    }
    // offsets 19..=23 are the label zone, white at half brightness
    for i in 10..=14 {
        assert_eq!(frame.cells[i], rgb(127, 127, 127));
    }
    // offsets 0..=8 wrap onto cells 15..=23, hue-colored at half brightness
    assert_eq!(frame.cells[15], rgb(0, 63, 64));
    assert_eq!(frame.cells[19], rgb(7, 120, 0));
    assert_eq!(frame.cells[23], rgb(79, 48, 0));
}

#[test]
fn backlight_on_renders_at_full_brightness() {
    let mut frame = ActuatorFrame::new();
    render_frame(&mut frame, 4500, true);
    assert_eq!(frame.cells[0], rgb(195, 60, 0));
    assert_eq!(frame.cells[10], rgb(255, 255, 255));
}
