use refract_core::{
    ColorKind, EncodeIter, EncodeRequest, ImageKind, Input, Output, Quality, QualityRange,
    RefractError, Step, FLAG_NO_LOSSLESS, FLAG_NO_LOSSY,
};

/// # Fake WebP file bytes of the given length.
fn webp(len: usize) -> Vec<u8> {
    let mut out = b"RIFF\0\0\0\0WEBP".to_vec();
    out.resize(len, 0);
    out
}

/// # An RGB 2x2 input from a source file of `size` bytes.
fn input(size: usize) -> Input {
    let px = vec![
        255, 0, 0, 255, 0, 255, 0, 255,
        0, 0, 255, 255, 9, 9, 9, 255,
    ];
    Input::from_decoded(size, ImageKind::Png, px, 2, 2, ColorKind::Rgb).unwrap()
}

#[test]
fn t_image_kind() {
    let png = [0x89, b'P', b'N', b'G', b'\r', b'\n', 0x1A, b'\n', 0, 0, 0, 0, 0];
    assert_eq!(ImageKind::try_from(&png), Ok(ImageKind::Png));
    assert_eq!(ImageKind::try_from(&png[..12]), Err(RefractError::Image));
    assert_eq!(ImageKind::try_from(b"RIFF\0\0\0\0WEBPVP8 "), Ok(ImageKind::Webp));
    assert_eq!(ImageKind::try_from(b"\0\0\0\x1cftypavif\0\0"), Ok(ImageKind::Avif));
    assert_eq!(ImageKind::try_from(b"\xFF\x0A\0\0\0\0\0\0\0\0\0\0\0"), Ok(ImageKind::Jxl));
    assert_eq!(ImageKind::try_from(b"\xFF\xD8\xFF\xDB\0\0\0\0\0\0\0\xFF\xD9"), Ok(ImageKind::Jpeg));
    assert_eq!(ImageKind::try_from(b"\xFF\xD8\xFF\xDB\0\0\0\0\0\0\0\0\0"), Err(RefractError::Image));

    assert!(ImageKind::Png.can_decode());
    assert!(ImageKind::Jpeg.can_decode());
    assert!(ImageKind::Webp.can_decode());
    assert!(ImageKind::Avif.can_decode());
    assert!(ImageKind::Jxl.can_decode());
    assert!(!ImageKind::Invalid.can_decode());
    assert!(ImageKind::Jxl.can_encode());
    assert!(!ImageKind::Jpeg.can_encode());
    assert_eq!(ImageKind::Jxl.as_str(), "JPEG XL");
    assert_eq!(ImageKind::Jxl.len(), 7);
    assert!(!ImageKind::Png.is_empty());
    assert_eq!(ImageKind::Jpeg.extension(), "jpg");
    assert_eq!(ImageKind::Webp.mime(), "image/webp");
    assert_eq!(ImageKind::Invalid.mime(), "application/octet-stream");
    assert_eq!(ImageKind::Avif.min_encoder_quality(), 1);
    assert_eq!(ImageKind::Avif.max_encoder_quality(), 63);
    assert_eq!(ImageKind::Jxl.max_encoder_quality(), 150);
    assert_eq!(ImageKind::Webp.max_encoder_quality(), 100);
}

#[test]
fn t_error() {
    assert_eq!(RefractError::Overflow.as_str(), "The image dimensions are out of range.");
    assert_eq!(RefractError::NoBest(ImageKind::Jxl).as_str(), "No acceptable JPEG XL candidate was found.");
    assert_eq!(RefractError::ImageEncode(ImageKind::Png).as_str(), "Refract cannot encode PNG files.");
    assert!(RefractError::PrintVersion.as_str().starts_with("Refract v"));
}

#[test]
fn t_color() {
    assert_eq!(ColorKind::Grey.channels(), 1);
    assert_eq!(ColorKind::GreyAlpha.channels(), 2);
    assert_eq!(ColorKind::Rgb.channels(), 3);
    assert_eq!(ColorKind::Rgba.channels(), 4);
    assert_eq!(ColorKind::GreyAlpha.color_channels(), 1);
    assert_eq!(ColorKind::Rgba.color_channels(), 3);
    assert_eq!(ColorKind::GreyAlpha.extra_channels(), 1);
    assert_eq!(ColorKind::Rgb.extra_channels(), 0);
    assert!(ColorKind::Rgb.is_color() && !ColorKind::Rgb.has_alpha());
    assert!(ColorKind::GreyAlpha.is_greyscale() && ColorKind::GreyAlpha.has_alpha());

    assert_eq!(ColorKind::from_rgba(&[1, 1, 1, 255, 2, 2, 2, 255]), ColorKind::Grey);
    assert_eq!(ColorKind::from_rgba(&[1, 1, 1, 254, 2, 2, 2, 255]), ColorKind::GreyAlpha);
    assert_eq!(ColorKind::from_rgba(&[1, 1, 2, 255]), ColorKind::Rgb);
    assert_eq!(ColorKind::from_rgba(&[1, 1, 2, 0]), ColorKind::Rgba);
    assert_eq!(ColorKind::from_rgba(&[]), ColorKind::Grey);
}

#[test]
fn t_quality() {
    let q = Quality::new(ImageKind::Avif, Some(20));
    assert_eq!(q, Quality::Lossy(ImageKind::Avif, 20));
    assert!(!q.is_lossless());
    assert_eq!(q.kind(), ImageKind::Avif);
    assert_eq!(q.label(), "quantizer");
    assert_eq!(q.label_title(), "Quantizer");
    assert_eq!(q.raw(), 20);

    let q = Quality::new(ImageKind::Jxl, None);
    assert!(q.is_lossless());
    assert_eq!(q.label(), "quality");
    assert_eq!(q.label_title(), "Quality");
    assert_eq!(q.raw(), 150);
}

#[test]
fn t_output() {
    let mut out = Output::new(ImageKind::Webp);
    assert!(!out.is_valid());
    assert_eq!(out.size(), None);
    assert_eq!(out.kind(), ImageKind::Webp);

    // Empty data is refused.
    assert_eq!(out.finish(100), Err(RefractError::Encode));

    // Too big.
    out.set_slice(&webp(50));
    assert_eq!(out.finish(50), Err(RefractError::TooBig));
    assert!(out.as_slice().is_empty());

    // Just right.
    assert_eq!(out.finish(51), Ok(()));
    assert!(out.is_valid());
    assert_eq!(out.size(), Some(50));
    assert_eq!(out.as_slice(), webp(50).as_slice());

    // Wrong format.
    let mut other = Output::new(ImageKind::Avif);
    other.set_slice(&webp(20));
    assert_eq!(other.finish(100), Err(RefractError::Encode));

    // Unknown format.
    let mut other = Output::new(ImageKind::Webp);
    other.set_slice(&[0; 20]);
    assert_eq!(other.finish(100), Err(RefractError::Image));

    // Copies carry the data over.
    let mut dst = Output::new(ImageKind::Webp);
    out.copy_to(&mut dst);
    assert_eq!(dst.size(), Some(50));
    assert_eq!(dst.as_slice(), webp(50).as_slice());
    assert!(dst.is_valid());
    assert_eq!(out.size(), None);
    assert!(!out.is_valid());
    assert!(out.as_slice().is_empty());

    out.reset();
    assert!(!out.is_valid());
    assert_eq!(out.size(), None);
}

#[test]
fn t_range() {
    let mut r = QualityRange::new(100, 1);
    assert_eq!((r.bottom(), r.top()), (1, 100));
    assert_eq!(r.size_hint(), (7, None));
    assert_eq!(QualityRange::new(3, 3).size_hint(), (0, None));
    assert_eq!(QualityRange::new(1, 2).size_hint(), (1, None));
    assert_eq!(QualityRange::new(1, 255).size_hint(), (8, None));

    // The middle first.
    assert_eq!(r.next(), Some(50));
    assert!(r.was_tried(50));
    r.set_top(50);
    assert_eq!(r.next(), Some(25));
    r.set_bottom(25);
    assert_eq!(r.next(), Some(37));
    r.set_top_minus_one(37);
    assert_eq!(r.top(), 36);

    // Run it dry: every untried quality comes out once.
    let mut seen = Vec::new();
    while let Some(q) = r.next() { seen.push(q); }
    seen.sort_unstable();
    assert_eq!(seen, (26..=36).collect::<Vec<u8>>());
    assert_eq!(r.next(), None);

    let r = QualityRange::from(ImageKind::Jxl);
    assert_eq!((r.bottom(), r.top()), (1, 150));
    let mut r = QualityRange::new(3, 3);
    assert_eq!(r.next(), Some(3));
    assert_eq!(r.next(), None);
    r.reboot(5, 9);
    assert_eq!((r.bottom(), r.top()), (5, 9));
    assert!(!r.was_tried(3));
}

#[test]
fn t_input() {
    let i = input(1000);
    assert_eq!(i.width(), 2);
    assert_eq!(i.height(), 2);
    assert_eq!(i.width_u32(), 2);
    assert_eq!(i.height_i32(), Ok(2));
    assert_eq!(i.row_size(), 8);
    assert_eq!(i.row_size_i32(), Ok(8));
    assert_eq!(i.size(), 1000);
    assert!(i.is_color());
    assert!(!i.has_alpha());

    // Native: RGB only.
    let n = i.into_native();
    assert_eq!(n.depth(), ColorKind::Rgb);
    assert_eq!(n.pixels(), &[255, 0, 0, 0, 255, 0, 0, 0, 255, 9, 9, 9]);
    assert_eq!(n.row_size(), 6);
    assert_eq!(n.pixels_rgba(), input(1000).pixels().to_vec());

    // And back again: nothing lost.
    let back = n.into_rgba();
    assert_eq!(back.depth(), ColorKind::Rgba);
    assert_eq!(back.take_pixels(), input(1000).take_pixels());

    // Refusals.
    assert_eq!(
        Input::from_decoded(10, ImageKind::Png, vec![0; 4], 0, 1, ColorKind::Grey).err(),
        Some(RefractError::Overflow),
    );
    assert_eq!(
        Input::from_decoded(0, ImageKind::Png, vec![0; 4], 1, 1, ColorKind::Grey).err(),
        Some(RefractError::Image),
    );
    assert_eq!(
        Input::from_decoded(10, ImageKind::Png, vec![0; 5], 1, 1, ColorKind::Grey).err(),
        Some(RefractError::Decode),
    );
}

#[test]
fn t_input_grey_round_trip() {
    let px = vec![7, 7, 7, 255, 8, 8, 8, 128];
    let i = Input::from_decoded(5, ImageKind::Png, px.clone(), 2, 1, ColorKind::GreyAlpha).unwrap();
    let n = i.into_native();
    assert_eq!(n.pixels(), &[7, 255, 8, 128]);
    assert_eq!(n.into_rgba().take_pixels(), px);
}

#[test]
fn t_encode_iter() {
    let mut it = EncodeIter::new(input(1000), ImageKind::Webp, 0).unwrap();
    assert_eq!(it.output_kind(), ImageKind::Webp);
    assert_eq!(it.input_kind(), ImageKind::Png);
    assert_eq!(it.input_size(), 1000);
    assert!(it.candidate().is_none());

    // Lossless first.
    let Step::Encode(EncodeRequest { kind, quality, .. }) = it.advance() else { panic!("no job") };
    assert_eq!((kind, quality), (ImageKind::Webp, None));

    // It is kept automatically, and the lossy range starts in the middle.
    let Step::Encode(EncodeRequest { quality, .. }) = it.feed(Ok(webp(600))) else { panic!("no job") };
    assert_eq!(quality, Some(50));
    assert_eq!(it.output_size(), Some(600));

    // A smaller candidate: keep it.
    assert_eq!(it.feed(Ok(webp(500))), Step::Candidate);
    assert_eq!(it.candidate().map(Output::quality), Some(Quality::Lossy(ImageKind::Webp, 50)));
    it.keep();
    assert_eq!(it.output_size(), Some(500));
    assert_eq!(it.steps().top(), 50);
    assert!(it.candidate().is_none());

    // Too big: the next job comes straight away, lower.
    let Step::Encode(EncodeRequest { quality, .. }) = it.advance() else { panic!("no job") };
    assert_eq!(quality, Some(25));
    let Step::Encode(EncodeRequest { quality, .. }) = it.feed(Ok(webp(700))) else { panic!("no job") };
    assert_eq!(quality, Some(12));
    assert_eq!(it.steps().top(), 24);

    // Looks bad: discard.
    assert_eq!(it.feed(Ok(webp(300))), Step::Candidate);
    it.discard();
    assert_eq!(it.steps().bottom(), 12);

    // An encoder error ends the round.
    let Step::Encode(EncodeRequest { quality, .. }) = it.advance() else { panic!("no job") };
    assert_eq!(quality, Some(18));
    assert_eq!(it.feed(Err(RefractError::Encode)), Step::Done);

    // The best is the last one kept.
    let best = it.take().unwrap();
    assert_eq!(best.size(), Some(500));
    assert_eq!(best.quality(), Quality::Lossy(ImageKind::Webp, 50));
}

#[test]
fn t_encode_iter_no_best() {
    let mut it = EncodeIter::new(input(1000), ImageKind::Jxl, FLAG_NO_LOSSLESS).unwrap();
    let Step::Encode(EncodeRequest { quality, .. }) = it.advance() else { panic!("no job") };
    assert_eq!(quality, Some(75));
    // Nothing it produces is of the right kind.
    assert_eq!(it.feed(Ok(webp(10))), Step::Done);
    assert_eq!(it.take().err(), Some(RefractError::NoBest(ImageKind::Jxl)));
}

#[test]
fn t_encode_iter_refused() {
    assert_eq!(
        EncodeIter::new(input(10), ImageKind::Png, 0).err(),
        Some(RefractError::ImageEncode(ImageKind::Png)),
    );
    // Nothing to do at all.
    let mut it = EncodeIter::new(input(10), ImageKind::Webp, FLAG_NO_LOSSLESS | FLAG_NO_LOSSY).unwrap();
    assert_eq!(it.advance(), Step::Done);
}

#[test]
fn t_encode_iter_avif() {
    // Greyscale sources skip the AVIF "lossless" attempt.
    let px = vec![5, 5, 5, 255, 6, 6, 6, 255, 7, 7, 7, 255, 8, 8, 8, 255];
    let grey = Input::from_decoded(1000, ImageKind::Png, px, 2, 2, ColorKind::Grey).unwrap();
    let mut it = EncodeIter::new(grey, ImageKind::Avif, 0).unwrap();
    let Step::Encode(EncodeRequest { quality, .. }) = it.advance() else { panic!("no job") };
    assert_eq!(quality, Some(32));

    // Color sources try the best AVIF quality first.
    let mut it = EncodeIter::new(input(1000), ImageKind::Avif, 0).unwrap();
    let Step::Encode(EncodeRequest { quality, .. }) = it.advance() else { panic!("no job") };
    assert_eq!(quality, Some(63));
}

#[test]
fn t_encode_iter_keep_twice() {
    let mut it = EncodeIter::new(input(1000), ImageKind::Webp, FLAG_NO_LOSSLESS).unwrap();
    let Step::Encode(EncodeRequest { quality, .. }) = it.advance() else { panic!("no job") };
    assert_eq!(quality, Some(50));
    assert_eq!(it.feed(Ok(webp(400))), Step::Candidate);

    // Keeping a second time changes nothing.
    it.keep();
    assert_eq!(it.output_size(), Some(400));
    it.keep();
    assert_eq!(it.output_size(), Some(400));
    assert!(it.candidate().is_none());

    let best = it.take().unwrap();
    assert!(best.is_valid());
    assert_eq!(best.size(), Some(400));
    assert_eq!(best.quality(), Quality::Lossy(ImageKind::Webp, 50));
}

#[test]
fn t_encode_iter_take_empty() {
    // Nothing kept: no best.
    let mut it = EncodeIter::new(input(1000), ImageKind::Webp, FLAG_NO_LOSSLESS).unwrap();
    let Step::Encode(_) = it.advance() else { panic!("no job") };
    assert_eq!(it.feed(Ok(webp(400))), Step::Candidate);
    it.discard();
    assert_eq!(it.output_size(), None);
    assert_eq!(it.take().err(), Some(RefractError::NoBest(ImageKind::Webp)));
}

#[test]
fn t_input_clone() {
    let a = input(1000);
    let b = a.clone();
    assert_eq!(b.pixels(), a.pixels());
    assert_eq!((b.width(), b.height(), b.size()), (2, 2, 1000));
    assert_eq!((b.kind(), b.color()), (ImageKind::Png, ColorKind::Rgb));
    // The copy is as good as the original for encoding.
    assert!(EncodeIter::new(b, ImageKind::Webp, 0).is_ok());
}
