use orbterm::surface::invert;

#[test]
fn invert_flips_the_color_bits_inside_the_rectangle() {
    let mut pixels = vec![0xFF000000u32; 12];
    invert(&mut pixels, 4, 3, 1, 1, 2, 1);
    for y in 0..3 {
        for x in 0..4 {
            let expected = if y == 1 && (x == 1 || x == 2) { 0xFFFFFFFF } else { 0xFF000000 };
            assert_eq!(pixels[y * 4 + x], expected);
        }
    }
}

#[test]
fn invert_keeps_the_top_byte() {
    let mut pixels = vec![0x12345678u32];
    invert(&mut pixels, 1, 1, 0, 0, 1, 1);
    assert_eq!(pixels, vec![0x12CBA987]);
}

#[test]
fn invert_twice_restores_the_surface() {
    let before: Vec<u32> = (0..30).map(|k| k * 0x01010101).collect();
    let mut pixels = before.clone();
    invert(&mut pixels, 6, 5, 2, 1, 3, 3);
    assert_ne!(pixels, before);
    invert(&mut pixels, 6, 5, 2, 1, 3, 3);
    assert_eq!(pixels, before);
}

#[test]
fn invert_is_cut_to_the_surface() {
    let mut pixels = vec![0u32; 6];
    invert(&mut pixels, 3, 2, 2, 1, 100, 100);
    assert_eq!(pixels, vec![0, 0, 0, 0, 0, 0x00FFFFFF]);
    invert(&mut pixels, 3, 2, 3, 0, 1, 1);
    invert(&mut pixels, 3, 2, 0, 2, 1, 1);
    invert(&mut pixels, 3, 2, usize::MAX, usize::MAX, usize::MAX, usize::MAX);
    assert_eq!(pixels, vec![0, 0, 0, 0, 0, 0x00FFFFFF]);
    let mut none: Vec<u32> = Vec::new();
    invert(&mut none, 0, 0, 0, 0, 5, 5);
    assert!(none.is_empty());
}
