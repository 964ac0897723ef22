use refract_core::settings::{
    encoder_flags, has_flag, next_encoder, sanitize, CliKey, MessageError, Settings,
    DEFAULT_FLAGS, FMT_AVIF, FMT_FLAGS, FMT_JXL, FMT_WEBP, MODE_FLAGS, MODE_LOSSLESS,
    MODE_LOSSY, MODE_LOSSY_YCBCR, OTHER_BSIDE, OTHER_EXIT_AUTO, OTHER_NIGHT, OTHER_SAVE_AUTO,
    SWITCHED_ENCODER,
};
use refract_core::{ImageKind, RefractError, FLAG_NO_AVIF_YCBCR, FLAG_NO_LOSSLESS, FLAG_NO_LOSSY};
use std::collections::BTreeSet;

#[test]
fn t_flags() {
    // Make sure the flags are actually unique.
    let all = [
        FMT_AVIF, FMT_JXL, FMT_WEBP,
        MODE_LOSSLESS, MODE_LOSSY, MODE_LOSSY_YCBCR,
        OTHER_BSIDE, OTHER_EXIT_AUTO, OTHER_NIGHT, OTHER_SAVE_AUTO,
        SWITCHED_ENCODER,
    ];
    let set = all.iter().copied().collect::<BTreeSet<u16>>();
    assert_eq!(all.len(), set.len());
}

#[test]
fn t_flag_groups() {
    assert_eq!(FMT_FLAGS, FMT_AVIF | FMT_JXL | FMT_WEBP);
    assert_eq!(MODE_FLAGS, MODE_LOSSLESS | MODE_LOSSY);
    assert_eq!(DEFAULT_FLAGS, FMT_FLAGS | MODE_FLAGS | MODE_LOSSY_YCBCR);
}

#[test]
fn t_sanitize() {
    // Nothing at all: everything comes back.
    assert_eq!(sanitize(0), FMT_FLAGS | MODE_FLAGS);
    // Only the formats are missing.
    assert_eq!(sanitize(MODE_LOSSY), FMT_FLAGS | MODE_LOSSY);
    // Only the modes are missing.
    assert_eq!(sanitize(FMT_JXL | OTHER_NIGHT), FMT_JXL | OTHER_NIGHT | MODE_FLAGS);
    // Sane flags are left alone.
    assert_eq!(sanitize(DEFAULT_FLAGS), DEFAULT_FLAGS);
    assert_eq!(sanitize(FMT_AVIF | MODE_LOSSLESS), FMT_AVIF | MODE_LOSSLESS);
}

#[test]
fn t_has_flag() {
    assert!(has_flag(DEFAULT_FLAGS, FMT_WEBP));
    assert!(has_flag(DEFAULT_FLAGS, FMT_FLAGS));
    assert!(!has_flag(FMT_WEBP, FMT_FLAGS));
    assert!(!has_flag(DEFAULT_FLAGS, OTHER_NIGHT));
}

#[test]
fn t_from_args() {
    let s = Settings::from_args(&[]).unwrap();
    assert_eq!(s.flags(), DEFAULT_FLAGS);

    let s = Settings::from_args(&[CliKey::NoAvif, CliKey::NoJxl, CliKey::SaveAuto]).unwrap();
    assert_eq!(s.flags(), FMT_WEBP | MODE_FLAGS | MODE_LOSSY_YCBCR | OTHER_SAVE_AUTO);

    // Disabling every format or mode re-enables all of them.
    let s = Settings::from_args(&[CliKey::NoAvif, CliKey::NoJxl, CliKey::NoWebp]).unwrap();
    assert_eq!(s.flags(), DEFAULT_FLAGS);
    let s = Settings::from_args(&[CliKey::NoLossy, CliKey::NoLossless, CliKey::ExitAuto]).unwrap();
    assert_eq!(s.flags(), DEFAULT_FLAGS | OTHER_EXIT_AUTO);

    // Help and version stop everything.
    assert!(matches!(Settings::from_args(&[CliKey::NoAvif, CliKey::Help]), Err(RefractError::PrintHelp)));
    assert!(matches!(
        Settings::from_args(&[CliKey::Version, CliKey::Help]),
        Err(RefractError::PrintVersion),
    ));
}

#[test]
fn t_toggle_flag() {
    let mut s = Settings::from_args(&[]).unwrap();
    s.toggle_flag(OTHER_NIGHT);
    assert!(s.has_flag(OTHER_NIGHT));
    s.toggle_flag(OTHER_NIGHT);
    assert!(!s.has_flag(OTHER_NIGHT));

    // Turning off the last format turns them all back on.
    let mut s = Settings::from_args(&[CliKey::NoAvif, CliKey::NoJxl]).unwrap();
    assert_eq!(s.count_encoders(), 1);
    s.toggle_flag(FMT_WEBP);
    assert_eq!(s.count_encoders(), 3);

    // Same for modes.
    let mut s = Settings::from_args(&[CliKey::NoLossy]).unwrap();
    s.toggle_flag(MODE_LOSSLESS);
    assert!(s.has_flag(MODE_FLAGS));

    s.set_flag(SWITCHED_ENCODER);
    assert!(s.has_flag(SWITCHED_ENCODER));
    s.unset_flag(SWITCHED_ENCODER);
    assert!(!s.has_flag(SWITCHED_ENCODER));
}

#[test]
fn t_automatic() {
    let s = Settings::from_args(&[CliKey::NoLossy, CliKey::SaveAuto]).unwrap();
    assert!(s.automatic());
    assert!(!s.announce_switch());

    let s = Settings::from_args(&[CliKey::SaveAuto]).unwrap();
    assert!(!s.automatic());
    assert!(s.announce_switch());

    // Only one encoder: nothing to announce.
    let s = Settings::from_args(&[CliKey::NoAvif, CliKey::NoWebp]).unwrap();
    assert_eq!(s.count_encoders(), 1);
    assert!(!s.announce_switch());
}

#[test]
fn t_encoder_flags() {
    assert_eq!(encoder_flags(DEFAULT_FLAGS), 0);
    assert_eq!(encoder_flags(FMT_FLAGS | MODE_LOSSLESS), FLAG_NO_LOSSY | FLAG_NO_AVIF_YCBCR);
    assert_eq!(encoder_flags(FMT_FLAGS | MODE_LOSSY), FLAG_NO_LOSSLESS | FLAG_NO_AVIF_YCBCR);
    assert_eq!(encoder_flags(FMT_FLAGS | MODE_LOSSY | MODE_LOSSY_YCBCR), FLAG_NO_LOSSLESS);
    assert_eq!(encoder_flags(FMT_FLAGS | MODE_FLAGS), FLAG_NO_AVIF_YCBCR);
}

#[test]
fn t_next_encoder() {
    // WebP, then AVIF, then JPEG XL, each once.
    let mut flags = DEFAULT_FLAGS;
    assert_eq!(next_encoder(&mut flags), Some((ImageKind::Webp, 0)));
    assert_eq!(next_encoder(&mut flags), Some((ImageKind::Avif, 0)));
    assert_eq!(next_encoder(&mut flags), Some((ImageKind::Jxl, 0)));
    assert_eq!(next_encoder(&mut flags), None);
    assert_eq!(flags, MODE_FLAGS | MODE_LOSSY_YCBCR);

    // Disabled formats are skipped, and the modes come along.
    let mut flags = FMT_JXL | FMT_AVIF | MODE_LOSSY;
    assert_eq!(next_encoder(&mut flags), Some((ImageKind::Avif, FLAG_NO_LOSSLESS | FLAG_NO_AVIF_YCBCR)));
    assert_eq!(next_encoder(&mut flags), Some((ImageKind::Jxl, FLAG_NO_LOSSLESS | FLAG_NO_AVIF_YCBCR)));
    assert_eq!(next_encoder(&mut flags), None);
    assert_eq!(flags, MODE_LOSSY);
}

#[test]
fn t_message_error() {
    assert_eq!(MessageError::NoImages.as_str(), "No qualifying images were found.");
    assert_eq!(MessageError::NoOpen.as_str(), "The link could not be opened.");
}
