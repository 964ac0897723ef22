# Refract Core

Refract is a guided image conversion tool: it re-encodes JPEG and PNG
sources as WebP, AVIF and JPEG XL, stepping through encoder qualities and
asking the user, candidate by candidate, whether the result still looks
good. The best acceptable candidate of each format is kept.

This crate is the library behind it, written in Verus. Its functions carry
contracts that Verus proves, with two exceptions: the calls into `lodepng`
and `jpeg-decoder` (in `src/decode.rs`) sit behind small trusted wrappers
whose contracts Verus takes on trust; they only name what those decoders
return, and verified functions take it from there.

## Layout

- `src/image_kind.rs`, `src/color.rs`, `src/error.rs` — image formats
  (identified by their magic bytes), color kinds and errors.
- `src/decode.rs` — JPEG (`jpeg-decoder`) and PNG (`lodepng`) decoding to
  RGBA, with size checks and color detection; RGBA pixels from the AVIF,
  JPEG XL and WebP decoders are checked and taken over the same way.
- `src/alpha.rs` — the alpha clean-up applied to images with transparency.
- `src/input.rs` — decoded sources, and their conversion between RGBA and
  the channels an image actually uses.
- `src/range.rs`, `src/output.rs`, `src/quality.rs`, `src/iter.rs` — the
  guided encoder: a closing range of qualities, validated outputs, and the
  state machine that decides which encoding to run next.
- `src/avif.rs` — AVIF quantizer arithmetic.
- `src/settings.rs`, `src/session.rs` — program settings and the decisions
  of an interactive conversion session.
- `src/l10n.rs` — English list and number formatting.
- `app/` — the command-line program: arguments, files, prompts, and the
  WebP, AVIF and JPEG XL encoders and decoders (FFI).
- `tests/` — tests of the library.
