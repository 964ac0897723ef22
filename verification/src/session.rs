//! # Conversion Session.
//!
//! The decisions of an interactive conversion session, as a state machine:
//! given the current state and a message (a user action, or the outcome of
//! work the caller was asked to do), `Session::update` moves to the next
//! state and says what to do next — a command for the caller to carry out
//! and, possibly, the next message to process.
//!
//! The session keeps track of the settings, how many sources wait in the
//! queue, and where the current image stands (which encoder is running,
//! whether its guided encoder is at home or out crunching, whether a
//! candidate awaits feedback). The images, encoders and files themselves
//! stay with the caller.

use vstd::prelude::*;
use crate::ImageKind;
use crate::settings::{
    count_encoders, encoder_flags_spec, encoders_of, has_flag, next_encoder, on, pick_spec,
    sanitize, sanitized, sane, lemma_sanitized_sane, FMT_FLAGS, MODE_FLAGS,
    MessageError, MODE_LOSSY, OTHER_BSIDE, OTHER_EXIT_AUTO, OTHER_SAVE_AUTO, SWITCHED_ENCODER,
};

verus! {

/// # Messages.
#[derive(Debug, Clone, Copy, PartialEq, Eq)]
pub enum Message {
    /// # Sources were added; the queue now holds this many.
    AddPaths(usize),
    /// # An "error" to let the user know about.
    Error(MessageError),
    /// # Feedback on the candidate: keep it (`true`) or not.
    Feedback(bool),
    /// # Move on to the next encoder.
    NextEncoder,
    /// # Move on to the next queued source.
    NextImage,
    /// # A queued source was loaded (or failed to); this many remain.
    Loaded(bool, usize),
    /// # Crunch the next candidate, or wrap up the encoder.
    NextStep,
    /// # The guided encoder is back, with a candidate (`true`) or not.
    NextStepDone(bool),
    /// # Save the best (if any) and continue.
    SaveImage,
    /// # Toggle a flag.
    ToggleFlag(u16),
    /// # Unset a flag.
    UnsetFlag(u16),
}

/// # Commands.
///
/// The work the caller is asked to carry out.
#[derive(Debug, Clone, Copy, PartialEq, Eq)]
pub enum Command {
    /// # Nothing.
    Idle,
    /// # Let the user know about an "error".
    LogError(MessageError),
    /// # Take the next queued source and try to load it; answer `Loaded`.
    Load,
    /// # Start a guided encoder for the current image with this format and
    /// these encoder flags, announcing the switch to the user first if
    /// `announce` (answer `UnsetFlag(SWITCHED_ENCODER)` once announced).
    Start(ImageKind, u8, bool),
    /// # Keep (`true`) or discard the candidate.
    Keep(bool),
    /// # Take the guided encoder and run a round; answer `NextStepDone`.
    Advance,
    /// # Take the best output of the finished encoder, confirming its path
    /// with the user first if `true`; answer `SaveImage`.
    Finish(bool),
    /// # Save the best output, if any, and log the result.
    Save,
    /// # Quit.
    Exit,
}

/// # What to do next.
#[derive(Debug, Clone, Copy, PartialEq, Eq)]
pub struct Reply {
    /// # The caller's work.
    pub command: Command,
    /// # The next message to process, if any.
    pub next: Option<Message>,
}

/// # The Current Image.
#[derive(Debug, Clone, Copy, PartialEq, Eq)]
pub struct Job {
    /// # Settings (formats not yet started are still set).
    pub flags: u16,
    /// # The format being encoded, if any.
    pub encoder: Option<ImageKind>,
    /// # The guided encoder is at home (not out crunching, not finished).
    pub iter: bool,
    /// # A candidate awaits feedback.
    pub candidate: bool,
}

/// # Abstract view of a session.
pub struct SessionView {
    /// # Settings.
    pub flags: u16,
    /// # Sources waiting in the queue.
    pub queued: usize,
    /// # The current image, if any.
    pub current: Option<Job>,
    /// # The last "error", if any.
    pub error: Option<MessageError>,
}

/// # Only lossless encoding and auto-save: the user is never asked.
pub open spec fn automatic_spec(flags: u16) -> bool {
    !on(flags, MODE_LOSSY) && on(flags, OTHER_SAVE_AUTO)
}

/// # A switch of encoders is worth announcing.
pub open spec fn announce_spec(flags: u16) -> bool {
    !(automatic_spec(flags) || encoders_of(flags).len() < 2)
}

/// # A reply.
pub open spec fn reply(command: Command, next: Option<Message>) -> Reply {
    Reply { command, next }
}

/// # Replace the current image.
pub open spec fn with_current(s: SessionView, current: Option<Job>) -> SessionView {
    SessionView { flags: s.flags, queued: s.queued, current, error: s.error }
}

/// # Replace the flags.
pub open spec fn with_flags(s: SessionView, flags: u16) -> SessionView {
    SessionView { flags, queued: s.queued, current: s.current, error: s.error }
}

/// # Start the next encoder of an image, if it has one left.
///
/// The candidate and encoder are cleared first; the new guided encoder is
/// at home.
pub open spec fn job_next_encoder(j: Job) -> Option<(Job, ImageKind, u8)> {
    match pick_spec(j.flags) {
        None => None,
        Some((kind, rest)) => Some((
            Job { flags: rest, encoder: Some(kind), iter: true, candidate: false },
            kind,
            encoder_flags_spec(j.flags),
        )),
    }
}

/// # Switch to a freshly started encoder.
///
/// The switch is announced (and flagged) when worth it; crunching starts
/// right after.
pub open spec fn switch_encoder(s: SessionView, job: Job, kind: ImageKind, ef: u8) -> (SessionView, Reply) {
    let s1 = with_current(s, Some(job));
    if announce_spec(s.flags) {
        (
            with_flags(s1, s.flags | SWITCHED_ENCODER),
            reply(Command::Start(kind, ef, true), Some(Message::NextStep)),
        )
    } else {
        (s1, reply(Command::Start(kind, ef, false), Some(Message::NextStep)))
    }
}

/// # Nothing left to load: quit if asked to.
pub open spec fn queue_done(s: SessionView) -> (SessionView, Reply) {
    if on(s.flags, OTHER_EXIT_AUTO) { (s, reply(Command::Exit, None)) }
    else { (s, reply(Command::Idle, None)) }
}

/// # Wrap up an encoder: hand over its best, if it is at home.
pub open spec fn finish_encoder(s: SessionView, j: Job) -> (SessionView, Reply) {
    let confirm = !on(s.flags, OTHER_SAVE_AUTO);
    let j1 = Job { flags: j.flags, encoder: None, iter: false, candidate: j.candidate };
    let s1 = with_current(s, Some(j1));
    if j.iter && j.encoder is Some {
        (s1, reply(Command::Finish(confirm), None))
    } else {
        (s1, reply(Command::Idle, Some(Message::NextEncoder)))
    }
}

/// # The state after a message, and what to do next.
///
/// Any previous "error" is forgotten first.
pub open spec fn update_spec(s0: SessionView, m: Message) -> (SessionView, Reply) {
    let s = SessionView { flags: s0.flags, queued: s0.queued, current: s0.current, error: None };
    let unside = s.flags & !OTHER_BSIDE;
    match m {
        Message::AddPaths(n) => {
            let s1 = SessionView { flags: s.flags, queued: n, current: s.current, error: None };
            if n == 0 { (s1, reply(Command::Idle, Some(Message::Error(MessageError::NoImages)))) }
            else if s.current is None { (s1, reply(Command::Idle, Some(Message::NextImage))) }
            else { (s1, reply(Command::Idle, None)) }
        },
        Message::Error(e) => (
            SessionView { flags: s.flags, queued: s.queued, current: s.current, error: Some(e) },
            reply(Command::LogError(e), None),
        ),
        Message::Feedback(keep) => match s.current {
            Some(j) => if j.candidate {
                let j1 = Job { flags: j.flags, encoder: j.encoder, iter: j.iter, candidate: false };
                let s1 = with_current(with_flags(s, unside), Some(j1));
                if j.iter { (s1, reply(Command::Keep(keep), Some(Message::NextStep))) }
                else { (s1, reply(Command::Idle, None)) }
            } else {
                (s, reply(Command::Idle, None))
            },
            None => (s, reply(Command::Idle, None)),
        },
        Message::NextEncoder => match s.current {
            Some(j) => match job_next_encoder(j) {
                Some((j1, kind, ef)) => switch_encoder(s, j1, kind, ef),
                None => (
                    with_current(s, Some(Job { flags: j.flags, encoder: None, iter: j.iter, candidate: false })),
                    reply(Command::Idle, Some(Message::NextImage)),
                ),
            },
            None => (s, reply(Command::Idle, Some(Message::NextImage))),
        },
        Message::NextImage => {
            let s1 = with_current(with_flags(s, unside), None);
            if s.queued > 0 { (s1, reply(Command::Load, None)) }
            else { queue_done(s1) }
        },
        Message::Loaded(ok, left) => {
            let s1 = SessionView { flags: s.flags, queued: left, current: None, error: None };
            if ok {
                let j = Job { flags: s.flags, encoder: None, iter: false, candidate: false };
                match job_next_encoder(j) {
                    Some((j1, kind, ef)) => switch_encoder(s1, j1, kind, ef),
                    None => if left > 0 { (s1, reply(Command::Load, None)) } else { queue_done(s1) },
                }
            } else if left == 0 {
                (s1, reply(Command::Idle, Some(Message::Error(MessageError::NoImages))))
            } else {
                (s1, reply(Command::Load, None))
            }
        },
        Message::NextStep => {
            let s1 = with_flags(s, unside);
            match s.current {
                Some(j) => {
                    let j1 = Job { flags: j.flags, encoder: j.encoder, iter: false, candidate: false };
                    if j.iter { (with_current(s1, Some(j1)), reply(Command::Advance, None)) }
                    else { finish_encoder(s1, j1) }
                },
                None => (s1, reply(Command::Idle, Some(Message::NextImage))),
            }
        },
        Message::NextStepDone(found) => match s.current {
            Some(j) => {
                let j1 = Job { flags: j.flags, encoder: j.encoder, iter: true, candidate: found };
                if found {
                    (with_current(with_flags(s, s.flags | OTHER_BSIDE), Some(j1)), reply(Command::Idle, None))
                } else {
                    finish_encoder(s, j1)
                }
            },
            None => (s, reply(Command::Idle, Some(Message::NextImage))),
        },
        Message::SaveImage => match s.current {
            Some(_) => (s, reply(Command::Save, Some(Message::NextEncoder))),
            None => (s, reply(Command::Idle, Some(Message::NextImage))),
        },
        Message::ToggleFlag(f) => (with_flags(s, sanitized(s.flags ^ f)), reply(Command::Idle, None)),
        Message::UnsetFlag(f) => (with_flags(s, s.flags & !f), reply(Command::Idle, None)),
    }
}

/// # Session.
pub struct Session {
    /// # Settings.
    flags: u16,
    /// # Sources waiting in the queue.
    queued: usize,
    /// # The current image.
    current: Option<Job>,
    /// # The last "error".
    error: Option<MessageError>,
}

impl View for Session {
    type V = SessionView;

    closed spec fn view(&self) -> SessionView {
        SessionView { flags: self.flags, queued: self.queued, current: self.current, error: self.error }
    }
}

impl Session {
    /// # New.
    ///
    /// A session with the given settings and nothing queued yet.
    pub fn new(flags: u16) -> (r: Session)
        ensures r@ == (SessionView { flags, queued: 0, current: None, error: None }),
    {
        Session { flags, queued: 0, current: None, error: None }
    }

    /// # Flags.
    pub fn flags(&self) -> (r: u16)
        ensures r == self@.flags,
    {
        self.flags
    }

    /// # Sources Waiting.
    pub fn queued(&self) -> (r: usize)
        ensures r == self@.queued,
    {
        self.queued
    }

    /// # The Current Image.
    pub fn current(&self) -> (r: Option<Job>)
        ensures r == self@.current,
    {
        self.current
    }

    /// # The Last "Error".
    pub fn error(&self) -> (r: Option<MessageError>)
        ensures r == self@.error,
    {
        self.error
    }

    /// # Has Candidate?
    ///
    /// Returns true if a candidate awaits feedback.
    pub fn has_candidate(&self) -> (r: bool)
        ensures r == (self@.current matches Some(j) && j.candidate),
    {
        match self.current {
            Some(j) => j.candidate,
            None => false,
        }
    }

    /// # Start.
    ///
    /// The first message: start converting if sources were queued up front.
    pub fn start(&self) -> (r: Option<Message>)
        ensures r == (if self@.queued == 0 { None } else { Some(Message::NextImage) }),
    {
        if self.queued == 0 { None } else { Some(Message::NextImage) }
    }

    /// # Wrap Up an Encoder (internal).
    fn finish_encoder(&mut self, j: Job) -> (r: Reply)
        ensures (final(self)@, r) == finish_encoder(old(self)@, j),
    {
        let confirm: bool = !has_flag(self.flags, OTHER_SAVE_AUTO);
        self.current = Some(Job { flags: j.flags, encoder: None, iter: false, candidate: j.candidate });
        if j.iter && j.encoder.is_some() {
            Reply { command: Command::Finish(confirm), next: None }
        } else {
            Reply { command: Command::Idle, next: Some(Message::NextEncoder) }
        }
    }

    /// # Switch to a Freshly Started Encoder (internal).
    fn switch_encoder(&mut self, job: Job, kind: ImageKind, ef: u8) -> (r: Reply)
        ensures (final(self)@, r) == switch_encoder(old(self)@, job, kind, ef),
    {
        self.current = Some(job);
        let automatic: bool = !has_flag(self.flags, MODE_LOSSY) && has_flag(self.flags, OTHER_SAVE_AUTO);
        let count: u8 = count_encoders(self.flags);
        if !(automatic || count < 2) {
            self.flags = self.flags | SWITCHED_ENCODER;
            Reply { command: Command::Start(kind, ef, true), next: Some(Message::NextStep) }
        } else {
            Reply { command: Command::Start(kind, ef, false), next: Some(Message::NextStep) }
        }
    }

    /// # Nothing Left to Load (internal).
    fn queue_done(&self) -> (r: Reply)
        ensures (self@, r) == queue_done(self@),
    {
        if has_flag(self.flags, OTHER_EXIT_AUTO) { Reply { command: Command::Exit, next: None } }
        else { Reply { command: Command::Idle, next: None } }
    }

    /// # Update.
    ///
    /// React to a message: move to the next state and say what to do next.
    pub fn update(&mut self, m: Message) -> (r: Reply)
        ensures (final(self)@, r) == update_spec(old(self)@, m),
    {
        // Clear the last error, if any.
        self.error = None;
        let unside: u16 = self.flags & !OTHER_BSIDE;

        match m {
            Message::AddPaths(n) => {
                self.queued = n;
                if n == 0 {
                    Reply { command: Command::Idle, next: Some(Message::Error(MessageError::NoImages)) }
                } else if self.current.is_none() {
                    Reply { command: Command::Idle, next: Some(Message::NextImage) }
                } else {
                    Reply { command: Command::Idle, next: None }
                }
            },
            Message::Error(e) => {
                self.error = Some(e);
                Reply { command: Command::LogError(e), next: None }
            },
            Message::Feedback(keep) => match self.current {
                Some(j) => if j.candidate {
                    self.flags = unside;
                    self.current = Some(Job { flags: j.flags, encoder: j.encoder, iter: j.iter, candidate: false });
                    if j.iter { Reply { command: Command::Keep(keep), next: Some(Message::NextStep) } }
                    else { Reply { command: Command::Idle, next: None } }
                } else {
                    Reply { command: Command::Idle, next: None }
                },
                None => Reply { command: Command::Idle, next: None },
            },
            Message::NextEncoder => match self.current {
                Some(j) => {
                    let mut f: u16 = j.flags;
                    match next_encoder(&mut f) {
                        Some((kind, ef)) => {
                            let j1 = Job { flags: f, encoder: Some(kind), iter: true, candidate: false };
                            self.switch_encoder(j1, kind, ef)
                        },
                        None => {
                            self.current = Some(Job { flags: j.flags, encoder: None, iter: j.iter, candidate: false });
                            Reply { command: Command::Idle, next: Some(Message::NextImage) }
                        },
                    }
                },
                None => Reply { command: Command::Idle, next: Some(Message::NextImage) },
            },
            Message::NextImage => {
                self.flags = unside;
                self.current = None;
                if self.queued > 0 { Reply { command: Command::Load, next: None } }
                else { self.queue_done() }
            },
            Message::Loaded(ok, left) => {
                self.queued = left;
                self.current = None;
                if ok {
                    let mut f: u16 = self.flags;
                    match next_encoder(&mut f) {
                        Some((kind, ef)) => {
                            let j1 = Job { flags: f, encoder: Some(kind), iter: true, candidate: false };
                            self.switch_encoder(j1, kind, ef)
                        },
                        None => if left > 0 { Reply { command: Command::Load, next: None } }
                            else { self.queue_done() },
                    }
                } else if left == 0 {
                    Reply { command: Command::Idle, next: Some(Message::Error(MessageError::NoImages)) }
                } else {
                    Reply { command: Command::Load, next: None }
                }
            },
            Message::NextStep => {
                self.flags = unside;
                match self.current {
                    Some(j) => {
                        let j1 = Job { flags: j.flags, encoder: j.encoder, iter: false, candidate: false };
                        if j.iter {
                            self.current = Some(j1);
                            Reply { command: Command::Advance, next: None }
                        } else {
                            self.finish_encoder(j1)
                        }
                    },
                    None => Reply { command: Command::Idle, next: Some(Message::NextImage) },
                }
            },
            Message::NextStepDone(found) => match self.current {
                Some(j) => {
                    let j1 = Job { flags: j.flags, encoder: j.encoder, iter: true, candidate: found };
                    if found {
                        self.flags = self.flags | OTHER_BSIDE;
                        self.current = Some(j1);
                        Reply { command: Command::Idle, next: None }
                    } else {
                        self.finish_encoder(j1)
                    }
                },
                None => Reply { command: Command::Idle, next: Some(Message::NextImage) },
            },
            Message::SaveImage => match self.current {
                Some(_) => Reply { command: Command::Save, next: Some(Message::NextEncoder) },
                None => Reply { command: Command::Idle, next: Some(Message::NextImage) },
            },
            Message::ToggleFlag(flag) => {
                self.flags = sanitize(self.flags ^ flag);
                Reply { command: Command::Idle, next: None }
            },
            Message::UnsetFlag(flag) => {
                self.flags = self.flags & !flag;
                Reply { command: Command::Idle, next: None }
            },
        }
    }
}


// ---------------------------------------------------------------------------
// Laws.
// ---------------------------------------------------------------------------

/// # A candidate only awaits feedback while its guided encoder is at home.
pub open spec fn job_wf(j: Job) -> bool {
    j.candidate ==> j.iter
}

/// # Well-formed session view: the current image, if any, is well-formed.
pub open spec fn session_wf(s: SessionView) -> bool {
    s.current matches Some(j) ==> job_wf(j)
}

/// # Flag bits outside the formats and modes leave them alone.
proof fn lemma_other_bits(f: u16, g: u16)
    by (bit_vector)
    requires g & 0x1Fu16 == 0,
    ensures
        (f | g) & 0x07u16 == f & 0x07u16,
        (f | g) & 0x18u16 == f & 0x18u16,
        (f & !g) & 0x07u16 == f & 0x07u16,
        (f & !g) & 0x18u16 == f & 0x18u16,
{}

/// # The session's own flag bits are outside the formats and modes.
proof fn lemma_session_bits()
    by (bit_vector)
    ensures
        OTHER_BSIDE & 0x1Fu16 == 0,
        SWITCHED_ENCODER & 0x1Fu16 == 0,
{}

/// # Updates keep the session well-formed.
///
/// Whatever the message, a candidate only ever awaits feedback while its
/// guided encoder is at home: feedback always has an encoder to go to.
pub proof fn lemma_update_wf(s: SessionView, m: Message)
    requires session_wf(s),
    ensures session_wf(update_spec(s, m).0),
{}

/// # Updates keep at least one format and one mode enabled.
///
/// Starting from sane settings, every message leaves at least one format
/// and one mode enabled, except an explicit request to unset format or mode
/// bits.
pub proof fn lemma_update_sane(s: SessionView, m: Message)
    requires
        sane(s.flags),
        !(m matches Message::UnsetFlag(f) && f & (FMT_FLAGS | MODE_FLAGS) != 0),
    ensures sane(update_spec(s, m).0.flags),
{
    lemma_session_bits();
    lemma_other_bits(s.flags, OTHER_BSIDE);
    lemma_other_bits(s.flags, SWITCHED_ENCODER);
    lemma_sanitized_sane(s.flags);
    match m {
        Message::ToggleFlag(f) => { lemma_sanitized_sane(s.flags ^ f); },
        Message::UnsetFlag(f) => {
            assert(f & 0x1Fu16 == 0) by (bit_vector)
                requires f & (0x07u16 | 0x18u16) == 0;
            lemma_other_bits(s.flags, f);
        },
        _ => {},
    }
}

/// # Feedback goes to the candidate, once.
///
/// A `Feedback` message is acted on only when a candidate awaits it: the
/// candidate is then consumed, and its verdict passed on to the guided
/// encoder before crunching resumes. Otherwise nothing happens.
pub proof fn lemma_feedback_once(s: SessionView, keep: bool)
    requires session_wf(s),
    ensures
        ({
            let (s1, r) = update_spec(s, Message::Feedback(keep));
            &&& (s.current matches Some(j) && j.candidate) ==> {
                &&& r == reply(Command::Keep(keep), Some(Message::NextStep))
                &&& s1.current matches Some(j1) && !j1.candidate
            }
            &&& !(s.current matches Some(j) && j.candidate) ==> {
                &&& r == reply(Command::Idle, None)
                &&& s1.current == s.current
                &&& s1.flags == s.flags
            }
        }),
{}

} // verus!
