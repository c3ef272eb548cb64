use channel_scatter::camera::{AnimationSpec, CameraError, Orientation};

#[test]
fn standard_spec_has_180_frames_at_33_ms() {
    let s = AnimationSpec::standard();
    assert_eq!(s.frame_count(), 180);
    assert_eq!(s.frame_delay_ms(), Some(33));
    assert_eq!(s.canvas_width, 1280);
    assert_eq!(s.canvas_height, 720);
}

#[test]
fn first_frame_is_at_the_start_angles() {
    let s = AnimationSpec::standard();
    let o = s.orientation(0).unwrap();
    assert_eq!(
        o,
        Orientation { pitch_numer: 0, yaw_numer: 200 * 180, denom: 180, scale_milli: 800 }
    );
}

#[test]
fn last_frame_is_one_step_short_of_the_end() {
    let s = AnimationSpec::standard();
    let o = s.orientation(179).unwrap();
    assert_eq!(o.pitch_numer, 700 * 180 - 700);
    assert_eq!(o.yaw_numer, 5000 * 180 - 4800);
    assert_eq!(o.denom, 180);
}

#[test]
fn middle_frame_value() {
    let s = AnimationSpec::standard();
    let o = s.orientation(90).unwrap();
    // half way: pitch 350 mrad, yaw 2600 mrad
    assert_eq!(o.pitch_numer, 350 * 180);
    assert_eq!(o.yaw_numer, 2600 * 180);
}

#[test]
fn pitch_never_decreases_along_the_path() {
    let s = AnimationSpec::standard();
    let path = s.camera_path().unwrap();
    assert_eq!(path.len(), 180);
    for i in 1..path.len() {
        assert!(path[i - 1].pitch_numer <= path[i].pitch_numer);
        assert_eq!(path[i].pitch_numer - path[i - 1].pitch_numer, 700);
        assert_eq!(path[i], s.orientation(i as u32).unwrap());
    }
}

#[test]
fn descending_path_steps_down() {
    let mut s = AnimationSpec::standard();
    s.pitch_start_mrad = 1000;
    s.pitch_end_mrad = -1000;
    s.duration_seconds = 1;
    s.frames_per_second = 4;
    let path = s.camera_path().unwrap();
    let p: Vec<i128> = path.iter().map(|o| o.pitch_numer).collect();
    assert_eq!(p, vec![4000, 2000, 0, -2000]);
}

#[test]
fn zero_frames_is_refused() {
    let mut s = AnimationSpec::standard();
    s.duration_seconds = 0;
    assert_eq!(s.frame_count(), 0);
    assert_eq!(s.orientation(0), Err(CameraError::NoFrames));
    assert_eq!(s.camera_path(), Err(CameraError::NoFrames));
    let mut t = AnimationSpec::standard();
    t.frames_per_second = 0;
    assert_eq!(t.frame_delay_ms(), None);
    assert_eq!(t.orientation(3), Err(CameraError::NoFrames));
}

#[test]
fn frame_past_the_end_is_refused() {
    let s = AnimationSpec::standard();
    assert_eq!(s.orientation(180), Err(CameraError::FrameOutOfRange));
    assert_eq!(s.orientation(u32::MAX), Err(CameraError::FrameOutOfRange));
}

#[test]
fn extreme_angles_do_not_overflow() {
    let s = AnimationSpec {
        duration_seconds: u16::MAX,
        frames_per_second: u16::MAX,
        pitch_start_mrad: i32::MIN,
        pitch_end_mrad: i32::MAX,
        yaw_start_mrad: i32::MAX,
        yaw_end_mrad: i32::MIN,
        scale_milli: 1,
        canvas_width: 1,
        canvas_height: 1,
        point_radius_tenths: 1,
    };
    let n = s.frame_count();
    assert_eq!(n, 65535u32 * 65535);
    let o = s.orientation(n - 1).unwrap();
    let diff = i32::MAX as i128 - i32::MIN as i128;
    assert_eq!(o.pitch_numer, i32::MIN as i128 * n as i128 + diff * (n - 1) as i128);
    assert_eq!(o.yaw_numer, i32::MAX as i128 * n as i128 - diff * (n - 1) as i128);
}

#[test]
fn two_runs_give_the_same_path() {
    let s = AnimationSpec::standard();
    assert_eq!(s.camera_path().unwrap(), s.camera_path().unwrap());
}
