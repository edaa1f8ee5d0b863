use glctx::swizzle::{swizzle_bgra_rgba, swizzle_scalar};

#[test]
fn test_swizzle_correctness() {
    // Create a buffer with 64 pixels. Pattern: [R, G, B, A] = [1, 2, 3, 4]
    let mut data = vec![0u8; 64 * 4];
    for i in 0..64 {
        data[i * 4 + 0] = 1; // B (expected) / R (input)
        data[i * 4 + 1] = 2; // G
        data[i * 4 + 2] = 3; // R (expected) / B (input)
        data[i * 4 + 3] = 4; // A
    }

    swizzle_bgra_rgba(&mut data);

    for i in 0..64 {
        assert_eq!(data[i * 4 + 0], 3, "Red/Blue not swapped at pixel {}", i);
        assert_eq!(data[i * 4 + 1], 2, "Green touched at pixel {}", i);
        assert_eq!(data[i * 4 + 2], 1, "Blue/Red not swapped at pixel {}", i);
        assert_eq!(data[i * 4 + 3], 4, "Alpha touched at pixel {}", i);
    }
}

#[test]
fn test_swizzle_alignment_edge_cases() {
    // Test with non-SIMD-aligned lengths (e.g. 1 pixel)
    let mut data = vec![10, 20, 30, 40];
    swizzle_bgra_rgba(&mut data);
    assert_eq!(data, vec![30, 20, 10, 40]);
}

#[test]
fn swizzle_twice_restores_input() {
    let original: Vec<u8> = (0u8..40).collect();
    let mut data = original.clone();
    swizzle_bgra_rgba(&mut data);
    assert_ne!(data, original);
    swizzle_bgra_rgba(&mut data);
    assert_eq!(data, original);
}

#[test]
fn swizzle_leaves_partial_pixel_alone() {
    let mut data = vec![1u8, 2, 3, 4, 5, 6];
    swizzle_scalar(&mut data);
    assert_eq!(data, vec![3, 2, 1, 4, 5, 6]);
}

#[test]
fn swizzle_empty_buffer() {
    let mut data: Vec<u8> = Vec::new();
    swizzle_bgra_rgba(&mut data);
    assert!(data.is_empty());
}
