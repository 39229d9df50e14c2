use identicon_rs::pattern::color_bits;
use identicon_rs::pattern::derive_mask;
use identicon_rs::Identicon;

#[test]
fn mask_all_even_nibbles_is_all_painted() {
    let digest = vec![0x00u8; 32];
    let mask = derive_mask(&digest);

    assert_eq!(49, mask.len());
    assert!(mask.iter().all(|&m| m));
}

#[test]
fn mask_all_odd_nibbles_is_all_blank() {
    let digest = vec![0xffu8; 32];
    let mask = derive_mask(&digest);

    assert_eq!(49, mask.len());
    assert!(mask.iter().all(|&m| !m));
}

#[test]
fn mask_is_left_right_symmetric() {
    let identicon = Identicon::new("identicon");
    let mask = identicon.pixels();

    for row in 0..7 {
        for col in 0..7 {
            assert_eq!(mask[row * 7 + col], mask[row * 7 + (6 - col)]);
        }
    }
}

#[test]
fn mask_fill_order() {
    // One even nibble: the first consumed nibble decides column 3 of row 0;
    // every other nibble is odd.
    let mut digest = vec![0xffu8; 32];
    digest[0] = 0x2f;
    let mask = derive_mask(&digest);

    for i in 0..49 {
        assert_eq!(i == 3, mask[i]);
    }

    // The second consumed nibble decides column 3 of row 1.
    let mut digest = vec![0xffu8; 32];
    digest[0] = 0xf2;
    let mask = derive_mask(&digest);

    for i in 0..49 {
        assert_eq!(i == 3 + 7, mask[i]);
    }

    // The eighth consumed nibble starts column 2, mirrored onto column 4.
    let mut digest = vec![0xffu8; 32];
    digest[3] = 0xf2;
    let mask = derive_mask(&digest);

    for i in 0..49 {
        assert_eq!(i == 2 || i == 4, mask[i]);
    }
}

#[test]
fn mask_of_known_input() {
    let identicon = Identicon::new("identicon");
    let mask = identicon.pixels();

    let expected = "1110111011111000111001110111011011000010000000000";
    let expected: Vec<bool> = expected.chars().map(|c| c == '1').collect();
    assert_eq!(expected, mask);
}

#[test]
fn color_bits_layout() {
    let mut digest = vec![0u8; 32];
    digest[28] = 0xa5;
    digest[29] = 0x3c;
    digest[30] = 0x7b;
    digest[31] = 0x01;
    let (hue, sat, lum) = color_bits(&digest);

    assert_eq!(0x53c, hue);
    assert_eq!(0x7b, sat);
    assert_eq!(0x01, lum);
}

#[test]
fn color_bits_of_known_input() {
    let identicon = Identicon::new("identicon");
    let (hue, sat, lum) = identicon.pattern_bits();

    assert_eq!(3205, hue);
    assert_eq!(224, sat);
    assert_eq!(53, lum);
}
