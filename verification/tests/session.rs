use refract_core::session::{Command, Job, Message, Reply, Session};
use refract_core::settings::{
    MessageError, DEFAULT_FLAGS, FMT_AVIF, FMT_JXL, FMT_WEBP, MODE_FLAGS, MODE_LOSSLESS,
    MODE_LOSSY_YCBCR, OTHER_BSIDE, OTHER_EXIT_AUTO, OTHER_NIGHT, OTHER_SAVE_AUTO,
    SWITCHED_ENCODER,
};
use refract_core::ImageKind;

fn reply(command: Command, next: Option<Message>) -> Reply { Reply { command, next } }

#[test]
fn t_session_walkthrough() {
    let mut s = Session::new(DEFAULT_FLAGS);
    assert_eq!(s.start(), None);

    // Two sources added: start on the first.
    assert_eq!(s.update(Message::AddPaths(2)), reply(Command::Idle, Some(Message::NextImage)));
    assert_eq!(s.queued(), 2);
    assert_eq!(s.update(Message::NextImage), reply(Command::Load, None));

    // It loaded: WebP comes first, and the switch is announced.
    assert_eq!(
        s.update(Message::Loaded(true, 1)),
        reply(Command::Start(ImageKind::Webp, 0, true), Some(Message::NextStep)),
    );
    assert_eq!(s.queued(), 1);
    assert_eq!(s.flags(), DEFAULT_FLAGS | SWITCHED_ENCODER);
    assert_eq!(s.update(Message::UnsetFlag(SWITCHED_ENCODER)), reply(Command::Idle, None));
    assert_eq!(s.flags(), DEFAULT_FLAGS);

    // Crunch; a candidate comes back and is shown.
    assert_eq!(s.update(Message::NextStep), reply(Command::Advance, None));
    assert_eq!(
        s.current(),
        Some(Job { flags: DEFAULT_FLAGS & !FMT_WEBP, encoder: Some(ImageKind::Webp), iter: false, candidate: false }),
    );
    assert_eq!(s.update(Message::NextStepDone(true)), reply(Command::Idle, None));
    assert!(s.has_candidate());
    assert_eq!(s.flags(), DEFAULT_FLAGS | OTHER_BSIDE);

    // Keep it and crunch again.
    assert_eq!(s.update(Message::Feedback(true)), reply(Command::Keep(true), Some(Message::NextStep)));
    assert!(!s.has_candidate());
    assert_eq!(s.flags(), DEFAULT_FLAGS);
    // Feedback without a candidate does nothing.
    assert_eq!(s.update(Message::Feedback(false)), reply(Command::Idle, None));

    // Nothing more: finish (asking first) and save.
    assert_eq!(s.update(Message::NextStep), reply(Command::Advance, None));
    assert_eq!(s.update(Message::NextStepDone(false)), reply(Command::Finish(true), None));
    assert_eq!(s.update(Message::SaveImage), reply(Command::Save, Some(Message::NextEncoder)));

    // AVIF next, then JPEG XL.
    assert_eq!(
        s.update(Message::NextEncoder),
        reply(Command::Start(ImageKind::Avif, 0, true), Some(Message::NextStep)),
    );
    assert_eq!(s.update(Message::UnsetFlag(SWITCHED_ENCODER)), reply(Command::Idle, None));
    assert_eq!(s.update(Message::NextStep), reply(Command::Advance, None));
    assert_eq!(s.update(Message::NextStepDone(false)), reply(Command::Finish(true), None));
    assert_eq!(s.update(Message::SaveImage), reply(Command::Save, Some(Message::NextEncoder)));
    assert_eq!(
        s.update(Message::NextEncoder),
        reply(Command::Start(ImageKind::Jxl, 0, true), Some(Message::NextStep)),
    );
    assert_eq!(s.update(Message::UnsetFlag(SWITCHED_ENCODER)), reply(Command::Idle, None));
    assert_eq!(s.update(Message::NextStep), reply(Command::Advance, None));
    assert_eq!(s.update(Message::NextStepDone(false)), reply(Command::Finish(true), None));
    assert_eq!(s.update(Message::SaveImage), reply(Command::Save, Some(Message::NextEncoder)));

    // No formats left: on to the next image, which fails to load.
    assert_eq!(s.update(Message::NextEncoder), reply(Command::Idle, Some(Message::NextImage)));
    assert_eq!(s.update(Message::NextImage), reply(Command::Load, None));
    assert_eq!(
        s.update(Message::Loaded(false, 0)),
        reply(Command::Idle, Some(Message::Error(MessageError::NoImages))),
    );
    assert_eq!(
        s.update(Message::Error(MessageError::NoImages)),
        reply(Command::LogError(MessageError::NoImages), None),
    );
    assert_eq!(s.error(), Some(MessageError::NoImages));
    assert_eq!(s.current(), None);

    // Errors are forgotten on the next message.
    assert_eq!(s.update(Message::ToggleFlag(OTHER_NIGHT)), reply(Command::Idle, None));
    assert_eq!(s.error(), None);
    assert_eq!(s.flags(), DEFAULT_FLAGS | OTHER_NIGHT);
}

#[test]
fn t_session_automatic() {
    // Lossless only, auto-saving: nothing to announce, nothing to confirm.
    let flags = FMT_WEBP | FMT_AVIF | MODE_LOSSLESS | OTHER_SAVE_AUTO | OTHER_EXIT_AUTO;
    let mut s = Session::new(flags);
    assert_eq!(s.update(Message::AddPaths(1)), reply(Command::Idle, Some(Message::NextImage)));
    assert_eq!(s.update(Message::NextImage), reply(Command::Load, None));
    assert_eq!(
        s.update(Message::Loaded(true, 0)),
        reply(Command::Start(ImageKind::Webp, refract_core::FLAG_NO_LOSSY | refract_core::FLAG_NO_AVIF_YCBCR, false), Some(Message::NextStep)),
    );
    assert_eq!(s.update(Message::NextStep), reply(Command::Advance, None));
    assert_eq!(s.update(Message::NextStepDone(false)), reply(Command::Finish(false), None));

    // Out of images with --exit-auto: quit.
    let mut s = Session::new(flags);
    assert_eq!(s.update(Message::NextImage), reply(Command::Exit, None));
}

#[test]
fn t_session_single_encoder() {
    // One encoder: the switch is not announced.
    let flags = FMT_JXL | MODE_FLAGS | MODE_LOSSY_YCBCR;
    let mut s = Session::new(flags);
    s.update(Message::AddPaths(1));
    assert_eq!(
        s.update(Message::Loaded(true, 0)),
        reply(Command::Start(ImageKind::Jxl, 0, false), Some(Message::NextStep)),
    );
    assert_eq!(s.flags(), flags);
    // More paths while busy: keep going.
    assert_eq!(s.update(Message::AddPaths(3)), reply(Command::Idle, None));
    // No paths at all.
    assert_eq!(
        s.update(Message::AddPaths(0)),
        reply(Command::Idle, Some(Message::Error(MessageError::NoImages))),
    );
}

#[test]
fn t_session_no_current() {
    let mut s = Session::new(DEFAULT_FLAGS);
    assert_eq!(s.update(Message::NextStep), reply(Command::Idle, Some(Message::NextImage)));
    assert_eq!(s.update(Message::NextStepDone(true)), reply(Command::Idle, Some(Message::NextImage)));
    assert_eq!(s.update(Message::SaveImage), reply(Command::Idle, Some(Message::NextImage)));
    assert_eq!(s.update(Message::NextEncoder), reply(Command::Idle, Some(Message::NextImage)));
    assert_eq!(s.update(Message::NextImage), reply(Command::Idle, None));
    // A failed load with more queued tries the next one.
    assert_eq!(s.update(Message::Loaded(false, 2)), reply(Command::Load, None));
    // Toggling away every format switches them all back on.
    s.update(Message::ToggleFlag(FMT_AVIF | FMT_JXL | FMT_WEBP));
    assert_eq!(s.flags(), DEFAULT_FLAGS);
}
