use monster_player::ascii::{ascii_lines, cover_to_ascii, shade_of};

fn png_bytes(w: u32, h: u32, f: impl Fn(u32, u32) -> u8) -> Vec<u8> {
    let img = image::GrayImage::from_fn(w, h, |x, y| image::Luma([f(x, y)]));
    let mut out = std::io::Cursor::new(Vec::new());
    img.write_to(&mut out, image::ImageFormat::Png).unwrap();
    out.into_inner()
}

#[test]
fn shades_from_blank_to_dense() {
    assert_eq!(shade_of(0), ' ');
    assert_eq!(shade_of(28), ' ');
    assert_eq!(shade_of(29), '.');
    assert_eq!(shade_of(128), '=');
    assert_eq!(shade_of(254), '%');
    assert_eq!(shade_of(255), '@');
}

#[test]
fn integer_shading_matches_the_float_formula() {
    let chars = b" .:-=+*#%@";
    for p in 0..=255u8 {
        let idx = (p as f32 / 255.0 * 9.0) as usize;
        assert_eq!(shade_of(p), chars[idx] as char);
    }
}

#[test]
fn lines_from_grey_levels() {
    let levels = vec![0, 255, 128, 29, 0, 0];
    assert_eq!(ascii_lines(&levels, 3, 2), vec![" @=", ".  "]);
    assert!(ascii_lines(&Vec::new(), 4, 0).is_empty());
}

#[test]
fn cover_drawn_in_characters() {
    let data = png_bytes(4, 4, |_, _| 255);
    let lines = cover_to_ascii(&data, 2, 2).expect("decodable");
    assert_eq!(lines, vec!["@@", "@@"]);
    let black = png_bytes(3, 3, |_, _| 0);
    assert_eq!(cover_to_ascii(&black, 3, 1).unwrap(), vec!["   "]);
}

#[test]
fn undecodable_cover() {
    assert!(cover_to_ascii(&vec![1, 2, 3, 4], 8, 4).is_none());
}
