use channel_scatter::channel::Channel;
use channel_scatter::cloud::{build_clouds, channel_cloud, extract};
use channel_scatter::raster::{ImageError, ImageInfo, PixelSample};

fn two_by_two() -> ImageInfo {
    // (0,0) red, (1,0) green, (0,1) blue, (1,1) white
    let rgb = vec![255, 0, 0, 0, 255, 0, 0, 0, 255, 255, 255, 255];
    ImageInfo::from_rgb(2, 2, &rgb).unwrap()
}

fn sorted(mut v: Vec<(u32, u32, u32)>) -> Vec<(u32, u32, u32)> {
    v.sort();
    v
}

#[test]
fn two_by_two_red_cloud() {
    let info = two_by_two();
    let red = channel_cloud(&info, Channel::Red);
    assert_eq!(
        sorted(red),
        sorted(vec![(0, 2, 255), (1, 2, 0), (0, 1, 0), (1, 1, 255)])
    );
}

#[test]
fn two_by_two_blue_cloud() {
    let info = two_by_two();
    let blue = channel_cloud(&info, Channel::Blue);
    assert_eq!(
        sorted(blue),
        sorted(vec![(0, 2, 0), (1, 2, 0), (0, 1, 255), (1, 1, 255)])
    );
}

#[test]
fn two_by_two_green_cloud_in_pixel_order() {
    let info = two_by_two();
    let green = channel_cloud(&info, Channel::Green);
    assert_eq!(green, vec![(0, 2, 0), (1, 2, 255), (0, 1, 0), (1, 1, 255)]);
}

#[test]
fn samples_keep_image_coordinates() {
    let info = two_by_two();
    assert_eq!(info.width(), 2);
    assert_eq!(info.height(), 2);
    assert_eq!(
        info.samples()[2],
        PixelSample { x: 0, y: 1, r: 0, g: 0, b: 255 }
    );
}

#[test]
fn cloud_has_one_point_per_pixel_inside_the_plot() {
    let (w, h) = (3u32, 2u32);
    let rgb: Vec<u8> = (0..(3 * w * h)).map(|i| (i * 13 % 256) as u8).collect();
    let info = ImageInfo::from_rgb(w, h, &rgb).unwrap();
    for c in Channel::all() {
        let cloud = channel_cloud(&info, c);
        assert_eq!(cloud.len(), (w * h) as usize);
        for &(x, y, v) in &cloud {
            assert!(x < w);
            assert!(y >= 1 && y <= h);
            assert!(v <= 255);
        }
    }
}

#[test]
fn flip_round_trips() {
    let (w, h) = (4u32, 3u32);
    let rgb: Vec<u8> = (0..(3 * w * h)).map(|i| i as u8).collect();
    let info = ImageInfo::from_rgb(w, h, &rgb).unwrap();
    let cloud = channel_cloud(&info, Channel::Red);
    for y0 in 0..h {
        for x0 in 0..w {
            let p = cloud[(y0 * w + x0) as usize];
            assert_eq!(p.0, x0);
            assert_eq!(p.1, h - y0);
            assert_eq!(h - p.1, y0);
            assert_eq!(p.2, rgb[(3 * (y0 * w + x0)) as usize] as u32);
        }
    }
}

#[test]
fn same_pixels_give_same_clouds() {
    let rgb: Vec<u8> = (0..18).map(|i| (i * 7) as u8).collect();
    let a = ImageInfo::from_rgb(3, 2, &rgb).unwrap();
    let b = ImageInfo::from_rgb(3, 2, &rgb).unwrap();
    assert_eq!(a.samples(), b.samples());
    for c in Channel::all() {
        assert_eq!(channel_cloud(&a, c), channel_cloud(&b, c));
    }
}

#[test]
fn all_clouds_match_single_channel_clouds() {
    let info = two_by_two();
    let clouds = build_clouds(&info);
    for c in Channel::all() {
        assert_eq!(clouds.get(c), &channel_cloud(&info, c));
    }
    assert_eq!(clouds.red, vec![(0, 2, 255), (1, 2, 0), (0, 1, 0), (1, 1, 255)]);
}

#[test]
fn wrong_buffer_length_is_refused() {
    let rgb = vec![1u8, 2, 3, 4, 5];
    assert!(matches!(
        ImageInfo::from_rgb(1, 2, &rgb),
        Err(ImageError::LengthMismatch)
    ));
    assert!(matches!(
        ImageInfo::from_rgb(2, 2, &vec![0u8; 13]),
        Err(ImageError::LengthMismatch)
    ));
}

#[test]
fn empty_image_has_empty_clouds() {
    let info = ImageInfo::from_rgb(0, 5, &Vec::new()).unwrap();
    assert!(channel_cloud(&info, Channel::Green).is_empty());
    let info = ImageInfo::from_rgb(7, 0, &Vec::new()).unwrap();
    assert!(channel_cloud(&info, Channel::Blue).is_empty());
}

#[test]
fn extract_picks_the_channel_byte() {
    let s = PixelSample { x: 0, y: 0, r: 10, g: 20, b: 30 };
    assert_eq!(extract(&s, Channel::Red), 10);
    assert_eq!(extract(&s, Channel::Green), 20);
    assert_eq!(extract(&s, Channel::Blue), 30);
}
