use refract_core::l10n::{inflect, nice_number, oxford_join};
use refract_core::quality::{digits, QualityValueFmt};
use refract_core::{ImageKind, Quality};

#[test]
fn t_oxford_join() {
    assert_eq!(oxford_join(&[], "and"), "");
    assert_eq!(oxford_join(&["apples"], "and"), "apples");
    assert_eq!(oxford_join(&["apples", "bananas"], "and"), "apples and bananas");
    assert_eq!(oxford_join(&["apples", "bananas", "carrots"], "or"), "apples, bananas, or carrots");
    assert_eq!(
        oxford_join(&["AVIF", "JPEG XL", "WebP", "PNG"], "and"),
        "AVIF, JPEG XL, WebP, and PNG",
    );
}

#[test]
fn t_nice_number() {
    assert_eq!(nice_number(0), "0");
    assert_eq!(nice_number(7), "7");
    assert_eq!(nice_number(999), "999");
    assert_eq!(nice_number(1000), "1,000");
    assert_eq!(nice_number(1_234_567), "1,234,567");
    assert_eq!(nice_number(10_005), "10,005");
    assert_eq!(nice_number(u64::MAX), "18,446,744,073,709,551,615");
}

#[test]
fn t_inflect() {
    assert_eq!(inflect(1, "image", "images"), "1 image");
    assert_eq!(inflect(0, "image", "images"), "0 images");
    assert_eq!(inflect(2500, "file", "files"), "2,500 files");
}

#[test]
fn t_digits() {
    assert_eq!(digits(0), "0");
    assert_eq!(digits(9), "9");
    assert_eq!(digits(42), "42");
    assert_eq!(digits(255), "255");
    for n in 0..=255_u8 { assert_eq!(digits(n), n.to_string()); }
}

#[test]
fn t_quality_fmt() {
    // AVIF counts backwards from 63.
    let q = Quality::Lossy(ImageKind::Avif, 40).quality_fmt();
    assert_eq!(q, QualityValueFmt::Int(23));
    assert_eq!(q.as_str(), "23");
    assert_eq!(q.len(), 2);

    // JPEG XL counts backwards from 150, in tenths.
    let q = Quality::Lossy(ImageKind::Jxl, 125).quality_fmt();
    assert_eq!(q, QualityValueFmt::Float(25));
    assert_eq!(q.as_str(), "2.5");
    assert_eq!(q.len(), 3);
    assert_eq!(Quality::Lossy(ImageKind::Jxl, 145).quality_fmt().as_str(), "0.5");
    assert_eq!(Quality::Lossy(ImageKind::Jxl, 1).quality_fmt().as_str(), "14.9");
    assert_eq!(Quality::Lossy(ImageKind::Jxl, 1).quality_fmt().len(), 4);

    // WebP is the only sane one.
    let q = Quality::Lossy(ImageKind::Webp, 100).quality_fmt();
    assert_eq!(q.as_str(), "100");
    assert_eq!(q.len(), 3);

    let q = Quality::Lossless(ImageKind::Webp).quality_fmt();
    assert_eq!(q, QualityValueFmt::Lossless);
    assert_eq!(q.as_str(), "lossless");
    assert_eq!(q.len(), 8);

    assert!(QualityValueFmt::Blank.is_empty());
    assert_eq!(QualityValueFmt::Blank.as_str(), "");
    assert_eq!(QualityValueFmt::Blank.len(), 0);
    assert!(!q.is_empty());
}
