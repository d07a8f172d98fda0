use i2a_rs::util::grayscale::{grayscale_to_char, GSCALE, GSCALE_NUM};

#[test]
fn full_intensity_is_the_last_glyph() {
    assert_eq!(grayscale_to_char(255), '$');
    assert_eq!(grayscale_to_char(255), GSCALE[GSCALE_NUM - 1]);
}

#[test]
fn no_intensity_is_the_first_glyph() {
    assert_eq!(grayscale_to_char(0), ' ');
    assert_eq!(grayscale_to_char(0), GSCALE[0]);
}

#[test]
fn ramp_has_its_glyphs_in_order() {
    assert_eq!(GSCALE_NUM, 66);
    assert_eq!(GSCALE.len(), GSCALE_NUM);
    let ramp: String = GSCALE.iter().collect();
    assert_eq!(
        ramp,
        " `^\",:;Il!i~+_-?][}{1)(|\\/tfjrxnuvczXYUJCLQ0OZmwqpdbkhao*#MW&8%B@$"
    );
}

#[test]
fn intensity_picks_the_glyph_at_its_share_of_the_ramp() {
    // floor(128 / 255 * 65) = 32
    assert_eq!(grayscale_to_char(128), 'u');
    // floor(54 / 255 * 65) = 13
    assert_eq!(grayscale_to_char(54), '_');
    // floor(254 / 255 * 65) = 64
    assert_eq!(grayscale_to_char(254), '@');
    // floor(3 / 255 * 65) = 0, floor(4 / 255 * 65) = 1
    assert_eq!(grayscale_to_char(3), ' ');
    assert_eq!(grayscale_to_char(4), '`');
}

#[test]
fn every_intensity_has_the_glyph_of_the_formula() {
    for gs in 0..=255u8 {
        let index = (gs as usize * (GSCALE_NUM - 1)) / 255;
        assert_eq!(grayscale_to_char(gs), GSCALE[index]);
    }
}
