use camshot::convert::clamp;
use camshot::convert::convert_yuyv_to_rgb;

/// The reference studio-range transform, written independently with the
/// arithmetic right shift of the reference formulas.
fn reference_pixel(y: i32, u: i32, v: i32) -> (u8, u8, u8) {
    let c = y - 16;
    let d = u - 128;
    let e = v - 128;
    let r = (298 * c + 409 * e + 128) >> 8;
    let g = (298 * c - 100 * d - 208 * e + 128) >> 8;
    let b = (298 * c + 516 * d + 128) >> 8;
    (
        r.clamp(0, 255) as u8,
        g.clamp(0, 255) as u8,
        b.clamp(0, 255) as u8,
    )
}

#[test]
fn white_fixture_yields_pure_white() {
    let out = convert_yuyv_to_rgb(&[235, 128, 235, 128], 2, 1);
    assert_eq!(out, vec![255, 255, 255, 255, 255, 255]);
}

#[test]
fn black_fixture_yields_pure_black() {
    let out = convert_yuyv_to_rgb(&[16, 128, 16, 128], 2, 1);
    assert_eq!(out, vec![0, 0, 0, 0, 0, 0]);
}

#[test]
fn transform_matches_reference_over_byte_range() {
    let mut buffer = Vec::new();
    let mut expected = Vec::new();
    for y0 in (0u32..256).step_by(3) {
        for u in (0u32..256).step_by(7) {
            for v in (0u32..256).step_by(11) {
                let y1 = 255 - y0;
                buffer.push(y0 as u8);
                buffer.push(u as u8);
                buffer.push(y1 as u8);
                buffer.push(v as u8);
                let (r0, g0, b0) = reference_pixel(y0 as i32, u as i32, v as i32);
                let (r1, g1, b1) = reference_pixel(y1 as i32, u as i32, v as i32);
                expected.extend_from_slice(&[r0, g0, b0, r1, g1, b1]);
            }
        }
    }
    let out = convert_yuyv_to_rgb(&buffer, 2, (buffer.len() / 4) as u32);
    assert_eq!(out, expected);
}

#[test]
fn transform_matches_reference_on_each_full_byte_axis() {
    // Every value 0..=255 of each input byte, the other bytes held at
    // representative points (mid-range and both extremes).
    let anchors = [0u8, 128, 255];
    let mut buffer = Vec::new();
    let mut expected = Vec::new();
    for &a in &anchors {
        for sweep in 0..4usize {
            for b in 0u32..256 {
                let mut group = [a, a, a, a];
                group[sweep] = b as u8;
                buffer.extend_from_slice(&group);
                let [y0, u, y1, v] = group;
                let (r0, g0, b0) = reference_pixel(y0 as i32, u as i32, v as i32);
                let (r1, g1, b1) = reference_pixel(y1 as i32, u as i32, v as i32);
                expected.extend_from_slice(&[r0, g0, b0, r1, g1, b1]);
            }
        }
    }
    let out = convert_yuyv_to_rgb(&buffer, 2, (buffer.len() / 4) as u32);
    assert_eq!(out, expected);
}

#[test]
fn transform_clamps_at_both_bounds() {
    // Strongest blue response: high U drives B far above 255.
    let out = convert_yuyv_to_rgb(&[255, 255, 255, 0], 2, 1);
    assert_eq!(out[2], 255);
    // Lowest luma with extreme chroma drives G far below 0.
    let out = convert_yuyv_to_rgb(&[0, 255, 0, 255], 2, 1);
    assert_eq!(out[1], 0);
}

#[test]
fn monochrome_input_yields_gray_pixels() {
    let mut buffer = Vec::new();
    for y in 0u32..256 {
        buffer.push(y as u8);
        buffer.push(128);
        buffer.push((255 - y) as u8);
        buffer.push(128);
    }
    let out = convert_yuyv_to_rgb(&buffer, 2, 256);
    assert_eq!(out.len() % 3, 0);
    for px in out.chunks_exact(3) {
        assert_eq!(px[0], px[1]);
        assert_eq!(px[1], px[2]);
    }
}

#[test]
fn output_length_is_one_and_a_half_times_input() {
    for groups in [0usize, 1, 2, 10, 640 * 480 / 2] {
        let buffer = vec![100u8; groups * 4];
        let out = convert_yuyv_to_rgb(&buffer, 2, groups as u32);
        assert_eq!(2 * out.len(), 3 * buffer.len());
    }
}

#[test]
fn trailing_partial_group_is_dropped() {
    let buffer = [235, 128, 235, 128, 16, 128];
    let out = convert_yuyv_to_rgb(&buffer, 2, 1);
    assert_eq!(out.len(), 6);
}

#[test]
fn conversion_is_idempotent() {
    let buffer: Vec<u8> = (0..=255u8).cycle().take(4 * 1000).collect();
    let first = convert_yuyv_to_rgb(&buffer, 2, 1000);
    let second = convert_yuyv_to_rgb(&buffer, 2, 1000);
    assert_eq!(first, second);
}

#[test]
fn clamp_bounds() {
    assert_eq!(clamp(-5, 0, 255), 0);
    assert_eq!(clamp(300, 0, 255), 255);
    assert_eq!(clamp(42, 0, 255), 42);
    assert_eq!(clamp(0, 0, 255), 0);
    assert_eq!(clamp(255, 0, 255), 255);
}
