use refract_core::alpha::{
    blur_alpha, checked_pixels, clamp, clean_alpha, neutral_pixel, nine_at, premultiplied_minmax,
    the_nines, Nine,
};

#[test]
fn alpha_t_preminmax() {
    assert_eq!((100, 100), premultiplied_minmax(100, 255));
    assert_eq!((78, 100), premultiplied_minmax(100, 10));
    assert_eq!(100 * 10 / 255, 78 * 10 / 255);
    assert_eq!(100 * 10 / 255, 100 * 10 / 255);
    assert_eq!((8, 119), premultiplied_minmax(100, 2));
    assert_eq!((16, 239), premultiplied_minmax(100, 1));
    assert_eq!((15, 255), premultiplied_minmax(255, 1));
}

#[test]
fn alpha_t_nine() {
    let mut img: Vec<u8> = Vec::new();
    for i in 0..16 * 4 { img.push(i); }

    // There should be 16 pixels total.
    assert_eq!(img.len(), 16 * 4);

    let nines = the_nines(&img, 4, 4);
    for (idx, n) in nines.iter().enumerate() {
        match idx {
            // First row!
            0 => assert_eq!(
                *n,
                Nine([
                    0, 1, 2, 3, 0, 1, 2, 3, 4, 5, 6, 7,
                    0, 1, 2, 3, 0, 1, 2, 3, 4, 5, 6, 7,
                    16, 17, 18, 19, 16, 17, 18, 19, 20, 21, 22, 23,
                ]),
            ),
            1 => assert_eq!(
                *n,
                Nine([
                    0, 1, 2, 3, 4, 5, 6, 7, 8, 9, 10, 11,
                    0, 1, 2, 3, 4, 5, 6, 7, 8, 9, 10, 11,
                    16, 17, 18, 19, 20, 21, 22, 23, 24, 25, 26, 27,
                ]),
            ),
            2 => assert_eq!(
                *n,
                Nine([
                    4, 5, 6, 7, 8, 9, 10, 11, 12, 13, 14, 15,
                    4, 5, 6, 7, 8, 9, 10, 11, 12, 13, 14, 15,
                    20, 21, 22, 23, 24, 25, 26, 27, 28, 29, 30, 31,
                ]),
            ),
            3 => assert_eq!(
                *n,
                Nine([
                    8, 9, 10, 11, 12, 13, 14, 15, 12, 13, 14, 15,
                    8, 9, 10, 11, 12, 13, 14, 15, 12, 13, 14, 15,
                    24, 25, 26, 27, 28, 29, 30, 31, 28, 29, 30, 31,
                ]),
            ),
            // Row change!
            4 => assert_eq!(
                *n,
                Nine([
                    0, 1, 2, 3, 0, 1, 2, 3, 4, 5, 6, 7,
                    16, 17, 18, 19, 16, 17, 18, 19, 20, 21, 22, 23,
                    32, 33, 34, 35, 32, 33, 34, 35, 36, 37, 38, 39,
                ])
            ),
            5 => assert_eq!(
                *n,
                Nine([
                    0, 1, 2, 3, 4, 5, 6, 7, 8, 9, 10, 11,
                    16, 17, 18, 19, 20, 21, 22, 23, 24, 25, 26, 27,
                    32, 33, 34, 35, 36, 37, 38, 39, 40, 41, 42, 43,
                ]),
            ),
            6 => assert_eq!(
                *n,
                Nine([
                    4, 5, 6, 7, 8, 9, 10, 11, 12, 13, 14, 15,
                    20, 21, 22, 23, 24, 25, 26, 27, 28, 29, 30, 31,
                    36, 37, 38, 39, 40, 41, 42, 43, 44, 45, 46, 47,
                ]),
            ),
            7 => assert_eq!(
                *n,
                Nine([
                    8, 9, 10, 11, 12, 13, 14, 15, 12, 13, 14, 15,
                    24, 25, 26, 27, 28, 29, 30, 31, 28, 29, 30, 31,
                    40, 41, 42, 43, 44, 45, 46, 47, 44, 45, 46, 47,
                ]),
            ),
            // Jump to the end.
            15 => assert_eq!(
                *n,
                Nine([
                    40, 41, 42, 43, 44, 45, 46, 47, 44, 45, 46, 47,
                    56, 57, 58, 59, 60, 61, 62, 63, 60, 61, 62, 63,
                    56, 57, 58, 59, 60, 61, 62, 63, 60, 61, 62, 63,
                ])
            ),
            _ => {}
        }
    }

    // Make sure we hit everything.
    assert_eq!(nines.len(), 16);
}

#[test]
fn t_nines_refused() {
    // Too narrow, too short, or the wrong buffer size.
    assert!(the_nines(&[0_u8; 2 * 4 * 4], 2, 4).is_empty());
    assert!(the_nines(&[0_u8; 4 * 2 * 4], 4, 2).is_empty());
    assert!(the_nines(&[0_u8; 4 * 4 * 4 - 1], 4, 4).is_empty());
    assert_eq!(checked_pixels(3 * 3 * 4, 3, 3), Some(9));
    assert_eq!(checked_pixels(3 * 3 * 4, 3, 4), None);
    assert_eq!(checked_pixels(usize::MAX, usize::MAX, 3), None);
}

#[test]
fn t_nine_at() {
    let img: Vec<u8> = (0..5 * 3 * 4).map(|i| i as u8).collect();
    // The middle of a 5x3 image.
    let n = nine_at(&img, 5, 3, 7);
    assert_eq!(&n.0[16..20], &img[28..32]);
    assert_eq!(n, the_nines(&img, 5, 3)[7]);
    assert_eq!(n.red(), 28);
    assert_eq!(n.green(), 29);
    assert_eq!(n.blue(), 30);
    assert_eq!(n.alpha(), 31);
}

/// # A square whose every pixel is `px`.
fn flat(px: [u8; 4]) -> Nine {
    let mut out = [0_u8; 36];
    for c in out.chunks_exact_mut(4) { c.copy_from_slice(&px); }
    Nine(out)
}

#[test]
fn t_nine_getters() {
    let mut n = flat([10, 20, 30, 255]);
    assert!(!n.has_alpha());
    assert!(!n.has_invisible());
    assert!(!n.is_semi_transparent());

    n.0[19] = 128;
    assert!(n.has_alpha());
    assert!(n.is_semi_transparent());

    n.0[35] = 0;
    assert!(n.has_invisible());

    n.0[19] = 0;
    assert!(n.has_alpha());
    assert!(!n.is_semi_transparent());
}

#[test]
fn t_clamp() {
    // Fully opaque: no room at all.
    assert_eq!(clamp(0, 100, 255), 100);
    assert_eq!(clamp(200, 100, 255), 100);
    // Almost invisible: lots of room.
    assert_eq!(clamp(0, 100, 1), 16);
    assert_eq!(clamp(255, 100, 1), 239);
    assert_eq!(clamp(50, 100, 1), 50);
}

#[test]
fn t_averaged() {
    // A uniform square has nothing to average.
    assert_eq!(flat([10, 20, 30, 128]).averaged(), None);

    // An invisible center takes the straight average, unclamped.
    let mut n = flat([90, 90, 90, 255]);
    n.0[16] = 0;
    n.0[17] = 0;
    n.0[18] = 0;
    n.0[19] = 0;
    assert_eq!(n.averaged(), Some([80, 80, 80, 0]));
}

#[test]
fn t_weighted() {
    // Nothing visible: no weighting possible.
    assert_eq!(flat([10, 20, 30, 0]).weighted(), None);

    // An invisible center among nearly opaque neighbors takes their color.
    let mut n = flat([200, 100, 50, 255]);
    n.0[16] = 0;
    n.0[17] = 0;
    n.0[18] = 0;
    n.0[19] = 0;
    assert_eq!(n.weighted(), Some([200, 100, 50, 0]));
}

#[test]
fn t_normalize_avg() {
    let n = flat([10, 20, 30, 0]);
    assert_eq!(n.normalize_avg(10, 20, 30), None);
    assert_eq!(n.normalize_avg(1, 2, 3), Some([1, 2, 3, 0]));
    // Opaque centers cannot move.
    let n = flat([10, 20, 30, 255]);
    assert_eq!(n.normalize_avg(1, 2, 3), None);
}

/// # A 4x4 test image: opaque red, except an invisible corner block with a
/// semi-transparent border.
fn sample() -> Vec<u8> {
    let mut img = Vec::new();
    for y in 0..4 {
        for x in 0..4 {
            if x < 2 && y < 2 { img.extend_from_slice(&[0, 0, 255, 0]); }
            else if x < 3 && y < 3 { img.extend_from_slice(&[0, 255, 0, 128]); }
            else { img.extend_from_slice(&[255, 0, 0, 255]); }
        }
    }
    img
}

#[test]
fn t_neutral_pixel() {
    // The semi-transparent border is green; all bordering pixels count.
    assert_eq!(neutral_pixel(&sample(), 4, 4), Some([0, 255, 0, 0]));

    // Nothing semi-transparent next to something invisible.
    let opaque = vec![255_u8; 4 * 4 * 4];
    assert_eq!(neutral_pixel(&opaque, 4, 4), None);

    // Dimensions that do not fit.
    assert_eq!(neutral_pixel(&sample(), 3, 4), None);
}

#[test]
fn t_clean_alpha() {
    let before = sample();
    let mut after = before.clone();
    clean_alpha(&mut after, 4, 4);

    // Same size, same alpha, opaque pixels untouched.
    assert_eq!(after.len(), before.len());
    for (a, b) in after.chunks_exact(4).zip(before.chunks_exact(4)) {
        assert_eq!(a[3], b[3]);
        if b[3] == 255 { assert_eq!(a, b); }
    }

    // The invisible pixels no longer carry their old blue.
    assert_ne!(&after[..4], &before[..4]);

    // The same as the individual steps.
    let mut manual = before.clone();
    for px in manual.chunks_exact_mut(4) {
        if px[3] == 0 { px.copy_from_slice(&[0, 255, 0, 0]); }
    }
    blur_alpha(&mut manual, 4, 4);
    assert_eq!(manual, after);
}

#[test]
fn t_clean_alpha_opaque() {
    let before: Vec<u8> = (0..5 * 5 * 4).map(|i| if i % 4 == 3 { 255 } else { i as u8 }).collect();
    let mut after = before.clone();
    clean_alpha(&mut after, 5, 5);
    assert_eq!(after, before);
}
