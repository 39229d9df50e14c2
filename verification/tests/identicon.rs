use identicon_rs::raster::rasterize;
use identicon_rs::Identicon;
use identicon_rs::RGB;

fn background() -> RGB {
    RGB { red: 240, green: 240, blue: 240 }
}

fn flatten(buffer: &[RGB]) -> Vec<u8> {
    let mut bytes = Vec::with_capacity(buffer.len() * 3);
    for px in buffer {
        bytes.push(px.red);
        bytes.push(px.green);
        bytes.push(px.blue);
    }
    bytes
}

#[test]
fn digest_matches_reference_hash() {
    let identicon = Identicon::new("identicon");
    let digest = identicon.digest();

    let expected = hmac_sha256::Hash::hash(b"identicon").to_vec();
    assert_eq!(expected, digest);

    let recorded: Vec<u8> = vec![
        144, 227, 90, 180, 100, 38, 127, 0, 240, 231, 184, 113, 137, 191, 160, 235, 149, 3, 156,
        202, 117, 172, 237, 246, 119, 192, 218, 31, 188, 133, 224, 53,
    ];
    assert_eq!(recorded, digest);
}

#[test]
fn generation_is_deterministic() {
    let fg = RGB { red: 10, green: 200, blue: 30 };
    let first = Identicon::new("a deterministic input").generate(fg);
    let second = Identicon::new("a deterministic input").generate(fg);

    assert_eq!(first, second);
}

#[test]
fn buffer_geometry() {
    let fg = RGB { red: 0, green: 0, blue: 0 };
    for input in ["", "x", "identicon", "a much longer input string than the others"] {
        let identicon = Identicon::new(input);
        assert_eq!(560, identicon.size());
        assert_eq!(560 * 560, identicon.generate(fg).len());
    }
}

#[test]
fn buffer_holds_exactly_two_colors() {
    let fg = RGB { red: 194, green: 145, blue: 216 };
    let identicon = Identicon::new("identicon");
    let buffer = identicon.generate(fg);

    let mut fg_count = 0usize;
    let mut bg_count = 0usize;
    for px in &buffer {
        if *px == fg {
            fg_count += 1;
        } else {
            assert_eq!(background(), *px);
            bg_count += 1;
        }
    }
    // 25 painted cells of 70 by 70 pixels each.
    assert_eq!(25 * 70 * 70, fg_count);
    assert_eq!(560 * 560 - 25 * 70 * 70, bg_count);
}

#[test]
fn rasterize_blank_mask_is_all_background() {
    let mask = vec![false; 49];
    let fg = RGB { red: 1, green: 2, blue: 3 };
    let buffer = rasterize(&mask, fg);

    assert!(buffer.iter().all(|px| *px == background()));
}

#[test]
fn rasterize_tile_placement() {
    let mut mask = vec![false; 49];
    mask[0] = true;
    let fg = RGB { red: 9, green: 8, blue: 7 };
    let buffer = rasterize(&mask, fg);

    let at = |x: usize, y: usize| buffer[y * 560 + x];
    // The top-left cell covers the half-open square [35, 105) in both axes.
    assert_eq!(fg, at(35, 35));
    assert_eq!(fg, at(104, 104));
    assert_eq!(background(), at(34, 35));
    assert_eq!(background(), at(35, 34));
    assert_eq!(background(), at(105, 104));
    assert_eq!(background(), at(104, 105));
}

#[test]
fn end_to_end_golden_buffer() {
    // The foreground colour the digest of "identicon" fixes once the hue,
    // saturation and luminance inputs pass through the floating-point
    // conversion of the embedding application.
    let fg = RGB { red: 194, green: 145, blue: 216 };
    let identicon = Identicon::new("identicon");
    let buffer = identicon.generate(fg);
    let bytes = flatten(&buffer);

    let golden: [u8; 32] = [
        23, 24, 217, 19, 191, 206, 37, 243, 236, 68, 47, 169, 171, 159, 24, 198, 253, 161, 159,
        121, 30, 90, 185, 62, 217, 251, 31, 146, 64, 186, 255, 3,
    ];
    assert_eq!(golden, hmac_sha256::Hash::hash(&bytes));
}
