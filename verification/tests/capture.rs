use lg_hue_sync::capture::convert_luma_to_gray;
use lg_hue_sync::capture::convert_nv12_to_rgb;
use lg_hue_sync::capture::copy_plane;
use lg_hue_sync::capture::create_capture;
use lg_hue_sync::capture::Capture;
use lg_hue_sync::capture::DileVtCapture;
use lg_hue_sync::capture::Geometry;
use lg_hue_sync::capture::MockCapture;
use lg_hue_sync::color::RgbColor;
use lg_hue_sync::dile::DileVtPixelFormat;
use lg_hue_sync::frame::colors_changed;
use lg_hue_sync::frame::frame_average;

fn bt709(y: u8, u: u8, v: u8) -> [u8; 4] {
    let u = u as i32 - 128;
    let v = v as i32 - 128;
    let c = (y as i32 - 16).max(0);
    [
        ((298 * c + 459 * v + 128) >> 8).clamp(0, 255) as u8,
        ((298 * c - 55 * u - 136 * v + 128) >> 8).clamp(0, 255) as u8,
        ((298 * c + 541 * u + 128) >> 8).clamp(0, 255) as u8,
        255,
    ]
}

#[test]
fn every_nv12_sample_is_converted_exactly() {
    let geometry = Geometry { width: 1, height: 1, stride: 2 };
    let mut rgb = vec![0u8; 4];
    for y in 0..=255u8 {
        for u in (0..=255u8).step_by(5) {
            for v in (0..=255u8).step_by(3) {
                convert_nv12_to_rgb(geometry, &[y, 0], &[u, v], &mut rgb);
                assert_eq!(rgb, bt709(y, u, v), "{} {} {}", y, u, v);
            }
        }
    }
}

#[test]
fn chroma_is_shared_by_four_pixels() {
    let geometry = Geometry { width: 3, height: 3, stride: 4 };
    let y_plane: Vec<u8> = (0..12).map(|i| 20 * i).collect();
    let uv_plane = [100, 150, 60, 200, 30, 90, 210, 250];
    let mut rgb = vec![0u8; 36];
    convert_nv12_to_rgb(geometry, &y_plane, &uv_plane, &mut rgb);
    for y in 0..3usize {
        for x in 0..3usize {
            let uv = (y / 2) * 4 + (x / 2) * 2;
            let expected = bt709(y_plane[y * 4 + x], uv_plane[uv], uv_plane[uv + 1]);
            assert_eq!(&rgb[(y * 3 + x) * 4..][..4], &expected);
        }
    }
}

#[test]
fn video_black_and_white_lose_their_headroom() {
    assert_eq!(bt709(16, 128, 128), [0, 0, 0, 255]);
    let geometry = Geometry { width: 1, height: 1, stride: 2 };
    let mut rgb = vec![9u8; 4];
    convert_nv12_to_rgb(geometry, &[16], &[128, 128], &mut rgb);
    assert_eq!(rgb, [0, 0, 0, 255]);
    convert_nv12_to_rgb(geometry, &[235], &[128, 128], &mut rgb);
    assert_eq!(rgb, [255, 255, 255, 255]);
}

#[test]
fn primaries_come_out_as_red_green_and_blue() {
    let geometry = Geometry { width: 1, height: 1, stride: 2 };
    let mut rgb = vec![9u8; 4];
    convert_nv12_to_rgb(geometry, &[63], &[102, 240], &mut rgb);
    assert_eq!(rgb, [255, 1, 0, 255]);
    convert_nv12_to_rgb(geometry, &[173], &[42, 26], &mut rgb);
    assert_eq!(rgb, [0, 255, 1, 255]);
    convert_nv12_to_rgb(geometry, &[32], &[240, 118], &mut rgb);
    assert_eq!(rgb, [1, 0, 255, 255]);
}

#[test]
fn luma_alone_is_shown_in_grey() {
    let geometry = Geometry { width: 2, height: 2, stride: 3 };
    let mut rgb = vec![0u8; 16];
    convert_luma_to_gray(geometry, &[10, 20, 99, 30, 40], &mut rgb);
    assert_eq!(
        rgb,
        [10, 10, 10, 255, 20, 20, 20, 255, 30, 30, 30, 255, 40, 40, 40, 255]
    );
}

#[test]
fn rgb_planes_are_taken_as_they_are() {
    let mut rgb = vec![0u8; 4];
    copy_plane(&[1, 2, 3, 4, 5], &mut rgb);
    assert_eq!(rgb, [1, 2, 3, 4]);
}

#[test]
fn the_driver_keeps_its_last_picture_without_a_buffer() {
    let geometry = Geometry { width: 1, height: 2, stride: 2 };
    let mut capture = DileVtCapture::new(geometry, Some(DileVtPixelFormat::Yuv420SemiPlanar), 3);
    assert_eq!(capture.resolution(), (1, 2));
    assert_eq!(capture.buffer_index(7), 1);
    let planes: [&[u8]; 2] = [&[16, 0, 235, 0], &[128, 128]];
    assert!(capture.can_convert(&planes));
    assert!(capture.can_convert(&[&[0; 3], &[0; 2]]));
    assert!(!capture.can_convert(&[&[0; 2], &[0; 2]]));
    assert!(!capture.can_convert(&[&[0; 3], &[0; 1]]));
    assert!(!capture.can_convert(&[&[0; 3]]));
    assert_eq!(capture.acquire_frame(Some(&planes)).data, &[0, 0, 0, 255, 255, 255, 255, 255]);
    let frame = capture.acquire_frame(None);
    assert_eq!(frame.data, &[0, 0, 0, 255, 255, 255, 255, 255]);
    assert_eq!((frame.width, frame.height, frame.is_bgra), (1, 2, false));

    let mut unknown = DileVtCapture::new(geometry, None, 1);
    let luma: [&[u8]; 1] = [&[7, 0, 8, 0]];
    assert_eq!(unknown.acquire_frame(Some(&luma)).data, &[7, 7, 7, 255, 8, 8, 8, 255]);
    assert!(unknown.can_convert(&[&[0; 3]]) && !unknown.can_convert(&[]));
    let mut raw = DileVtCapture::new(geometry, Some(DileVtPixelFormat::Rgb), 1);
    assert!(raw.can_convert(&[&[0; 8]]) && !raw.can_convert(&[&[0; 7]]));
    let bytes: [&[u8]; 1] = [&[1, 2, 3, 4, 5, 6, 7, 8]];
    assert_eq!(raw.acquire_frame(Some(&bytes)).data, &[1, 2, 3, 4, 5, 6, 7, 8]);
}

#[test]
fn the_stand_in_is_a_rainbow_or_black_on_a_television() {
    let columns = [RgbColor::new(1, 2, 3), RgbColor::new(4, 5, 6)];
    let mut rainbow = MockCapture::new(2, 2, false);
    assert_eq!(
        rainbow.acquire_frame(&columns).data,
        &[1, 2, 3, 255, 4, 5, 6, 255, 1, 2, 3, 255, 4, 5, 6, 255]
    );
    assert_eq!(rainbow.resolution(), (2, 2));
    let mut black = MockCapture::new(2, 1, true);
    assert_eq!(black.acquire_frame(&columns).data, &[0; 8]);
}

#[test]
fn the_stand_in_is_used_only_without_hardware() {
    let real: Capture<u8> = create_capture(Ok::<u8, ()>(1), 4, 4, false);
    assert!(real.is_real_hardware());
    let stand_in: Capture<u8> = create_capture(Err::<u8, ()>(()), 4, 2, true);
    assert!(!stand_in.is_real_hardware());
    assert!(matches!(stand_in, Capture::Mock(mock) if mock.resolution() == (4, 2)));
}

#[test]
fn averages_every_eighth_pixel() {
    let mut data = vec![0u8; 16 * 9 * 4];
    for (x, y, value) in [(0, 0, 10u8), (8, 0, 20), (0, 8, 30), (8, 8, 41)] {
        let offset = (y * 16 + x) * 4;
        data[offset] = value;
        data[offset + 1] = 2 * value;
        data[offset + 2] = 3 * value;
    }
    assert_eq!(frame_average(&data, 16, 9, false), RgbColor::new(25, 50, 75));
    assert_eq!(frame_average(&data, 16, 9, true), RgbColor::new(75, 50, 25));
}

#[test]
fn averages_what_there_is_of_a_short_frame() {
    assert_eq!(frame_average(&[5, 6, 7], 16, 16, false), RgbColor::new(5, 6, 7));
    assert_eq!(frame_average(&[5, 6], 16, 16, false), RgbColor::new(0, 0, 0));
    assert_eq!(frame_average(&[5, 6, 7, 8], 0, 0, false), RgbColor::new(0, 0, 0));
}

/// The distance of two colours on a scale from zero to one.
fn distance(left: RgbColor, right: RgbColor) -> f32 {
    let part = |a: u8, b: u8| {
        let difference = (a as f32 - b as f32) / 255.0;
        difference * difference
    };
    ((part(left.r, right.r) + part(left.g, right.g) + part(left.b, right.b)) / 3.0).sqrt()
}

#[test]
fn duplicate_output_frames_are_suppressed_but_meaningful_changes_pass() {
    let differs = |left: RgbColor, right: RgbColor| distance(left, right) >= 0.005;
    let previous = vec![RgbColor::new(10, 20, 30)];
    assert!(!colors_changed(&previous, &previous, differs));
    assert!(colors_changed(&previous, &[RgbColor::new(13, 20, 30)], differs));
}

#[test]
fn a_frame_of_another_length_is_a_change() {
    let never = |_: RgbColor, _: RgbColor| false;
    let one = [RgbColor::new(1, 1, 1)];
    assert!(colors_changed(&[], &one, never));
    assert!(!colors_changed(&[], &[], never));
    assert!(!colors_changed(&one, &[RgbColor::new(9, 9, 9)], never));
}
