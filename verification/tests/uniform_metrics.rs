use smaa::uniforms::{float32_bits_u32, float32_recip_u32, floor_log2_u32, rne_div_u64, rt_uniform_data};

#[test]
fn rne_rounds_to_nearest_ties_to_even() {
    assert_eq!(rne_div_u64(6, 2), 3);
    assert_eq!(rne_div_u64(7, 2), 4); // 3.5 ties to even 4
    assert_eq!(rne_div_u64(5, 2), 2); // 2.5 ties to even 2
    assert_eq!(rne_div_u64(9, 2), 4); // 4.5 ties to even 4
    assert_eq!(rne_div_u64(11, 2), 6); // 5.5 ties to even 6
    assert_eq!(rne_div_u64(10, 3), 3);
    assert_eq!(rne_div_u64(11, 3), 4);
    assert_eq!(rne_div_u64(1, 1), 1);
    assert_eq!(rne_div_u64(0, 5), 0);
}

#[test]
fn floor_log2_brackets_its_argument() {
    assert_eq!(floor_log2_u32(1), 0);
    assert_eq!(floor_log2_u32(2), 1);
    assert_eq!(floor_log2_u32(3), 1);
    assert_eq!(floor_log2_u32(4), 2);
    assert_eq!(floor_log2_u32(1023), 9);
    assert_eq!(floor_log2_u32(1024), 10);
    assert_eq!(floor_log2_u32(u32::MAX), 31);
}

#[test]
fn binary32_bits_match_hardware_conversion_small() {
    for w in 1u32..=4096 {
        assert_eq!(float32_bits_u32(w), (w as f32).to_bits(), "conversion of {w}");
        assert_eq!(
            float32_recip_u32(w),
            (1.0f32 / (w as f32)).to_bits(),
            "reciprocal of {w}"
        );
    }
}

#[test]
fn binary32_bits_match_hardware_conversion_edges() {
    let cases: &[u32] = &[
        1,
        2,
        3,
        255,
        256,
        257,
        640,
        480,
        1080,
        1920,
        2160,
        3840,
        65535,
        65536,
        65537,
        (1 << 24) - 1,
        1 << 24,
        (1 << 24) + 1,
        (1 << 25) - 1, // rounds up to a power of two
        (1 << 25) + 3,
        (1 << 30) + 12345,
        u32::MAX / 2,
        u32::MAX - 1,
        u32::MAX, // rounds up to 2^32
    ];
    for &w in cases {
        assert_eq!(float32_bits_u32(w), (w as f32).to_bits(), "conversion of {w}");
        assert_eq!(
            float32_recip_u32(w),
            (1.0f32 / (w as f32)).to_bits(),
            "reciprocal of {w}"
        );
    }
}

#[test]
fn binary32_bits_match_hardware_conversion_powers_of_two() {
    for k in 0..32u32 {
        let p = 1u32 << k;
        for w in [p.wrapping_sub(1), p, p.wrapping_add(1)] {
            if w == 0 {
                continue;
            }
            assert_eq!(float32_bits_u32(w), (w as f32).to_bits(), "conversion of {w}");
            assert_eq!(
                float32_recip_u32(w),
                (1.0f32 / (w as f32)).to_bits(),
                "reciprocal of {w}"
            );
        }
    }
}

#[test]
fn binary32_bits_match_hardware_conversion_sweep() {
    // A multiplicative Weyl sequence spread over the whole 32-bit range.
    let mut w: u32 = 1;
    for _ in 0..200_000 {
        w = w.wrapping_mul(2654435761).wrapping_add(12345);
        if w == 0 {
            continue;
        }
        assert_eq!(float32_bits_u32(w), (w as f32).to_bits(), "conversion of {w}");
        assert_eq!(
            float32_recip_u32(w),
            (1.0f32 / (w as f32)).to_bits(),
            "reciprocal of {w}"
        );
    }
}

#[test]
fn binary32_bits_of_zero() {
    assert_eq!(float32_bits_u32(0), 0.0f32.to_bits());
}

#[test]
fn uniform_data_is_the_four_metrics_little_endian() {
    let data = rt_uniform_data(640, 480);
    assert_eq!(data.len(), 16);
    let mut expected = Vec::new();
    expected.extend_from_slice(&(1.0f32 / 640.0).to_le_bytes());
    expected.extend_from_slice(&(1.0f32 / 480.0).to_le_bytes());
    expected.extend_from_slice(&640.0f32.to_le_bytes());
    expected.extend_from_slice(&480.0f32.to_le_bytes());
    assert_eq!(data, expected);
}

#[test]
fn uniform_data_exact_bytes_for_a_power_of_two() {
    // 1/256 is exactly 0x3B800000 and 256 exactly 0x43800000.
    let data = rt_uniform_data(256, 256);
    let quarter = [0x00u8, 0x00, 0x80, 0x3B];
    let size = [0x00u8, 0x00, 0x80, 0x43];
    assert_eq!(&data[0..4], &quarter);
    assert_eq!(&data[4..8], &quarter);
    assert_eq!(&data[8..12], &size);
    assert_eq!(&data[12..16], &size);
}

#[test]
fn uniform_data_differs_per_resolution() {
    assert_ne!(rt_uniform_data(640, 480), rt_uniform_data(641, 480));
    assert_ne!(rt_uniform_data(640, 480), rt_uniform_data(640, 481));
    assert_eq!(rt_uniform_data(640, 480), rt_uniform_data(640, 480));
}
