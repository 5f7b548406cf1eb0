use libwayshot::convert::{
    abgr2101010_to_rgba16, abgr8888_to_rgba8, argb8888_to_rgba8, bgr888_to_rgb8,
    pixel_abgr2101010_to_rgba16,
};

fn word_bytes(a: u32, r: u32, g: u32, b: u32) -> [u8; 4] {
    ((a << 30) | (b << 20) | (g << 10) | r).to_le_bytes()
}

#[test]
fn abgr8888_copies_bytes() {
    let data = [1u8, 2, 3, 4, 5, 6, 7, 8];
    assert_eq!(abgr8888_to_rgba8(&data), Some(data.to_vec()));
}

#[test]
fn argb8888_swaps_red_and_blue() {
    let data = [0x10u8, 0x20, 0x30, 0xFF];
    assert_eq!(argb8888_to_rgba8(&data), Some(vec![0x30, 0x20, 0x10, 0xFF]));
}

#[test]
fn bgr888_copies_bytes() {
    let data = [9u8, 8, 7, 6, 5, 4, 3, 2];
    assert_eq!(bgr888_to_rgb8(&data), Some(data.to_vec()));
}

#[test]
fn empty_buffers_convert_to_empty() {
    assert_eq!(abgr8888_to_rgba8(&[]), Some(vec![]));
    assert_eq!(argb8888_to_rgba8(&[]), Some(vec![]));
    assert_eq!(bgr888_to_rgb8(&[]), Some(vec![]));
    assert_eq!(abgr2101010_to_rgba16(&[]), Some(vec![]));
}

#[test]
fn partial_pixels_are_rejected() {
    for len in [1usize, 2, 3, 5, 7, 9] {
        let data = vec![0xABu8; len];
        assert_eq!(abgr8888_to_rgba8(&data), None);
        assert_eq!(argb8888_to_rgba8(&data), None);
        assert_eq!(bgr888_to_rgb8(&data), None);
        assert_eq!(abgr2101010_to_rgba16(&data), None);
    }
}

#[test]
fn swapping_twice_restores_the_bytes() {
    let data: Vec<u8> = (0u8..64).map(|b| b.wrapping_mul(37)).collect();
    let once = argb8888_to_rgba8(&data).unwrap();
    let twice = argb8888_to_rgba8(&once).unwrap();
    assert_eq!(twice, data);
}

#[test]
fn conversions_are_deterministic() {
    let data: Vec<u8> = (0u8..32).collect();
    assert_eq!(abgr8888_to_rgba8(&data), abgr8888_to_rgba8(&data.clone()));
    assert_eq!(argb8888_to_rgba8(&data), argb8888_to_rgba8(&data.clone()));
    assert_eq!(bgr888_to_rgb8(&data), bgr888_to_rgb8(&data.clone()));
    assert_eq!(abgr2101010_to_rgba16(&data), abgr2101010_to_rgba16(&data.clone()));
}

#[test]
fn ten_bit_pixel_is_widened() {
    let bytes = word_bytes(1, 1, 2, 3);
    assert_eq!(pixel_abgr2101010_to_rgba16(&bytes), [1 << 14, 1 << 6, 2 << 6, 3 << 6]);
}

#[test]
fn ten_bit_full_scale() {
    let bytes = [0xFFu8; 4];
    assert_eq!(pixel_abgr2101010_to_rgba16(&bytes), [0xC000, 0xFFC0, 0xFFC0, 0xFFC0]);
}

#[test]
fn ten_bit_buffer_keeps_pixel_order() {
    let mut data = Vec::new();
    data.extend_from_slice(&word_bytes(3, 1023, 0, 512));
    data.extend_from_slice(&word_bytes(0, 0, 1023, 1));
    assert_eq!(
        abgr2101010_to_rgba16(&data),
        Some(vec![0xC000, 1023 << 6, 0, 512 << 6, 0, 0, 1023 << 6, 1 << 6])
    );
}

#[test]
fn ten_bit_channels_stay_in_range() {
    for w in [0u32, 1, 0x3FF, 0xFFFF_FFFF, 0x8000_0000, 0x1234_5678, 0xDEAD_BEEF] {
        let out = pixel_abgr2101010_to_rgba16(&w.to_le_bytes());
        assert_eq!(out[0] as u32, (w >> 30) << 14);
        assert_eq!(out[1] as u32, (w & 0x3FF) << 6);
        assert_eq!(out[2] as u32, ((w >> 10) & 0x3FF) << 6);
        assert_eq!(out[3] as u32, ((w >> 20) & 0x3FF) << 6);
    }
}
