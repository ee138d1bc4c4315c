use gc_viewer::controller::{
    clamp, update_controllers, Button, Controller, A_BUTTON, BUTTONS, B_BUTTON, L_BUTTON,
    START_BUTTON, Y_BUTTON,
};

#[test]
fn clamp_keeps_points_inside_the_circle() {
    assert_eq!(clamp(10, 10), (10, 10));
    assert_eq!(clamp(48, 64), (48, 64));
    assert_eq!(clamp(0, -80), (0, -80));
}

#[test]
fn clamp_scales_points_outside_the_circle() {
    assert_eq!(clamp(100, 0), (80, 0));
    assert_eq!(clamp(-100, 0), (-80, 0));
    assert_eq!(clamp(60, 80), (48, 64));
    assert_eq!(clamp(127, 127), (56, 56));
    assert_eq!(clamp(-128, -128), (-56, -56));
    assert_eq!(clamp(-128, 127), (-56, 56));
}

#[test]
fn buttons_decode_from_their_bits() {
    assert_eq!((A_BUTTON.index(), A_BUTTON.mask()), (0, 0x1));
    assert_eq!((L_BUTTON.index(), L_BUTTON.mask()), (1, 0x8));
    assert_eq!(START_BUTTON.name(), "START");
    assert_eq!(BUTTONS.len(), 12);
    let mut c = Controller::new();
    c.from_buffer(&[0x09, 0x08, 128, 128, 128, 128, 0, 0]);
    assert!(c.is_down(&A_BUTTON));
    assert!(c.is_down(&Y_BUTTON));
    assert!(c.is_down(&L_BUTTON));
    assert!(!c.is_down(&B_BUTTON));
    assert_eq!(c.pressed_buttons(), vec!["A".to_string(), "Y".to_string(), "L".to_string()]);
}

#[test]
fn edges_between_reports() {
    let mut c = Controller::new();
    c.from_buffer(&[0x01, 0, 128, 128, 128, 128, 0, 0]);
    assert!(c.just_pressed(&A_BUTTON));
    c.from_buffer(&[0x03, 0, 128, 128, 128, 128, 0, 0]);
    assert!(!c.just_pressed(&A_BUTTON));
    assert!(c.just_pressed(&B_BUTTON));
    assert_eq!(c.buttons_just_pressed(), vec![Button::B]);
    c.from_buffer(&[0x02, 0, 128, 128, 128, 128, 0, 0]);
    assert_eq!(c.buttons_just_released(), vec![Button::A]);
    assert!(c.buttons_just_pressed().is_empty());
}

#[test]
fn first_live_report_sets_neutral_position() {
    let mut c = Controller::new();
    c.from_buffer(&[0, 0, 130, 125, 128, 128, 0, 0]);
    assert_eq!(c.stick_raw(), (2, -3));
    assert_eq!(c.stick_pos(), (0, 0));
    c.from_buffer(&[0, 0, 200, 100, 255, 0, 0, 0]);
    assert_eq!(c.stick_raw(), (72, -28));
    assert_eq!(c.stick_pos(), (70, -25));
    assert_eq!(c.c_stick_raw(), (127, -128));
    assert_eq!(c.c_stick_pos(), (127, -128));
    assert_eq!(c.stick_clamp(), (70, -25));
}

#[test]
fn stick_offsets_saturate() {
    let mut c = Controller::new();
    c.from_buffer(&[0, 0, 10, 250, 128, 128, 0, 0]);
    c.from_buffer(&[0, 0, 255, 0, 128, 128, 0, 0]);
    assert_eq!(c.stick_raw(), (127, -128));
    assert_eq!(c.stick_pos(), (127, -128));
    assert_eq!(c.stick_clamp(), (56, -56));
    assert_eq!(c.c_stick_clamp(), (0, 0));
}

#[test]
fn report_is_split_between_ports() {
    let mut report = [0u8; 37];
    report[2] = 0x01;
    report[11] = 0x02;
    report[20 + 2] = 140;
    report[29 + 1] = 0x04;
    let mut pads = [Controller::new(); 4];
    update_controllers(&mut pads, &report);
    assert!(pads[0].is_down(&A_BUTTON));
    assert!(pads[1].is_down(&B_BUTTON));
    assert_eq!(pads[2].buffer[2], 140);
    assert!(pads[3].is_down(&gc_viewer::controller::R_BUTTON));
    assert_eq!(pads[0].buffer_last, [0u8; 8]);
}
