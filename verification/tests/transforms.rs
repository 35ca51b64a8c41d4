use rgba_transforms::ImageData;
use rgba_transforms::apply_grayscale;
use rgba_transforms::apply_lanczos3;
use rgba_transforms::test_lanczos3;

fn buffer_from(width: usize, height: usize, bytes: Vec<u8>) -> ImageData {
    assert_eq!(bytes.len(), width * height * 4);
    let mut b = ImageData::new(width, height);
    b.set_bytes(bytes);
    b
}

fn uniform(width: usize, height: usize, pixel: [u8; 4]) -> ImageData {
    let mut bytes = Vec::new();
    for _ in 0..width * height {
        bytes.extend_from_slice(&pixel);
    }
    buffer_from(width, height, bytes)
}

#[test]
fn raw_view_length_matches_geometry() {
    let b = ImageData::new(3, 2);
    assert_eq!(b.width(), 3);
    assert_eq!(b.height(), 2);
    assert_eq!(b.data().len(), 3 * 2 * 4);
    assert!(b.data().iter().all(|&x| x == 0));

    let empty = ImageData::new(0, 5);
    assert_eq!(empty.data().len(), 0);
}

#[test]
fn set_bytes_replaces_contents() {
    let mut b = ImageData::new(1, 1);
    b.set_bytes(vec![9, 8, 7, 6]);
    assert_eq!(b.data().as_slice(), &[9, 8, 7, 6]);
    assert_eq!(b.width(), 1);
    assert_eq!(b.height(), 1);
}

#[test]
fn grayscale_two_by_two_scenario() {
    let mut b = buffer_from(
        2,
        2,
        vec![
            255, 0, 0, 255, //
            0, 255, 0, 255, //
            0, 0, 255, 255, //
            255, 255, 255, 255,
        ],
    );
    apply_grayscale(&mut b);
    assert_eq!(
        b.data().as_slice(),
        &[
            54, 54, 54, 255, //
            182, 182, 182, 255, //
            18, 18, 18, 255, //
            255, 255, 255, 255,
        ]
    );
}

#[test]
fn grayscale_truncates_toward_zero() {
    // 0.2126 * 200 + 0.7152 * 255 = 224.896: truncation stores 224, not 225.
    let mut b = buffer_from(1, 1, vec![200, 255, 0, 7]);
    apply_grayscale(&mut b);
    assert_eq!(b.data().as_slice(), &[224, 224, 224, 7]);
}

#[test]
fn grayscale_is_idempotent() {
    let bytes = vec![
        10, 200, 30, 40, //
        255, 0, 128, 0, //
        1, 2, 3, 4, //
        90, 80, 70, 60,
    ];
    let mut once = buffer_from(2, 2, bytes.clone());
    apply_grayscale(&mut once);
    let mut twice = buffer_from(2, 2, bytes);
    apply_grayscale(&mut twice);
    apply_grayscale(&mut twice);
    assert_eq!(once.data(), twice.data());
}

#[test]
fn grayscale_preserves_alpha_and_equalizes_channels() {
    let mut b = buffer_from(
        2,
        2,
        vec![
            11, 22, 33, 44, //
            55, 66, 77, 88, //
            99, 110, 121, 132, //
            143, 154, 165, 176,
        ],
    );
    apply_grayscale(&mut b);
    let out = b.data();
    for p in 0..4 {
        assert_eq!(out[4 * p], out[4 * p + 1]);
        assert_eq!(out[4 * p + 1], out[4 * p + 2]);
    }
    assert_eq!(out[3], 44);
    assert_eq!(out[7], 88);
    assert_eq!(out[11], 132);
    assert_eq!(out[15], 176);
}

#[test]
fn resize_output_length_matches_target_geometry() {
    let b = uniform(4, 4, [10, 20, 30, 40]);
    let r = apply_lanczos3(&b, 7, 3);
    assert_eq!(r.width(), 7);
    assert_eq!(r.height(), 3);
    assert_eq!(r.data().len(), 7 * 3 * 4);
}

#[test]
fn resize_is_deterministic() {
    let mut bytes = Vec::new();
    for i in 0..6 * 5 * 4 {
        bytes.push((i * 37 % 256) as u8);
    }
    let a = buffer_from(6, 5, bytes.clone());
    let b = buffer_from(6, 5, bytes);
    let ra = apply_lanczos3(&a, 9, 2);
    let rb = apply_lanczos3(&b, 9, 2);
    assert_eq!(ra.data(), rb.data());
}

#[test]
fn resize_uniform_color_is_a_fixed_point() {
    let b = uniform(4, 4, [200, 100, 50, 255]);
    let r = apply_lanczos3(&b, 8, 8);
    assert_eq!(r.width(), 8);
    assert_eq!(r.height(), 8);
    assert_eq!(r.data().len(), 8 * 8 * 4);
    for p in 0..8 * 8 {
        assert_eq!(&r.data()[4 * p..4 * p + 4], &[200, 100, 50, 255]);
    }
}

#[test]
fn resize_to_same_geometry_is_a_near_identity() {
    // A gradient source; interior pixels must come back within +/- 2.
    let mut bytes = Vec::new();
    for y in 0..8 {
        for x in 0..8 {
            bytes.extend_from_slice(&[(x * 30) as u8, (y * 30) as u8, 128, 255]);
        }
    }
    let b = buffer_from(8, 8, bytes.clone());
    let r = apply_lanczos3(&b, 8, 8);
    for y in 2..6usize {
        for x in 2..6usize {
            for c in 0..4 {
                let i = (y * 8 + x) * 4 + c;
                let got = i32::from(r.data()[i]);
                let want = i32::from(bytes[i]);
                assert!((got - want).abs() <= 2, "byte {i}: {got} vs {want}");
            }
        }
    }
}

#[test]
fn resize_downscale_recombines_pixels() {
    // Downscaling a half-black, half-white image must blend, not echo the
    // input bytes or stay zero.
    let mut bytes = Vec::new();
    for y in 0..4 {
        for _x in 0..4 {
            let v = if y < 2 { 0 } else { 255 };
            bytes.extend_from_slice(&[v, v, v, 255]);
        }
    }
    let b = buffer_from(4, 4, bytes);
    let r = apply_lanczos3(&b, 1, 1);
    assert_eq!(r.data().len(), 4);
    let gray = r.data()[0];
    assert!(gray > 60 && gray < 200, "blended value out of range: {gray}");
    assert_eq!(r.data()[3], 255);
}

#[test]
fn resize_zero_target_policy_is_axis_independent() {
    let b = uniform(100, 100, [1, 2, 3, 4]);
    let zero_w = apply_lanczos3(&b, 0, 50);
    assert_eq!(zero_w.width(), 0);
    assert_eq!(zero_w.height(), 50);
    assert_eq!(zero_w.data().len(), 0);
    let zero_h = apply_lanczos3(&b, 50, 0);
    assert_eq!(zero_h.width(), 50);
    assert_eq!(zero_h.height(), 0);
    assert_eq!(zero_h.data().len(), 0);
}

#[test]
fn resize_empty_source_yields_zero_filled_target() {
    let b = ImageData::new(0, 0);
    let r = apply_lanczos3(&b, 3, 3);
    assert_eq!(r.width(), 3);
    assert_eq!(r.height(), 3);
    assert_eq!(r.data().as_slice(), &[0u8; 36]);
}

#[test]
fn round_trip_returns_original_geometry() {
    let mut bytes = Vec::new();
    for i in 0..4 * 4 * 4 {
        bytes.push((i * 11 % 256) as u8);
    }
    let b = buffer_from(4, 4, bytes);
    let ratio: f32 = 1.5;
    let up_w = (b.width() as f32 * ratio).floor() as u32;
    let up_h = (b.height() as f32 * ratio).floor() as u32;
    assert_eq!((up_w, up_h), (6, 6));
    let r = test_lanczos3(&b, up_w, up_h);
    assert_eq!(r.width(), 4);
    assert_eq!(r.height(), 4);
    assert_eq!(r.data().len(), 4 * 4 * 4);
}

#[test]
fn round_trip_with_zero_ratio_keeps_geometry() {
    let b = uniform(5, 4, [9, 9, 9, 9]);
    let r = test_lanczos3(&b, 0, 0);
    assert_eq!(r.width(), 5);
    assert_eq!(r.height(), 4);
    assert_eq!(r.data().as_slice(), &[0u8; 5 * 4 * 4]);
}
