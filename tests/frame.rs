use wave_crafter::frame::write_frame;

#[test]
fn mono_frame_takes_left() {
    let mut f = [0.0f32];
    write_frame(&mut f, 0.25, -0.75);
    assert_eq!(f, [0.25]);
}

#[test]
fn stereo_frame_takes_both() {
    let mut f = [0i16; 2];
    write_frame(&mut f, 7, -9);
    assert_eq!(f, [7, -9]);
}

#[test]
fn extra_channels_untouched() {
    let mut f = [5u16, 5, 5, 5];
    write_frame(&mut f, 1, 2);
    assert_eq!(f, [1, 2, 5, 5]);
}
