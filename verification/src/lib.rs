//! Desktop-layer attacher: the decision logic for embedding a caller's
//! top-level window into the desktop shell's background rendering layer,
//! together with a content-integrity helper that checks a byte buffer
//! against an expected SHA-256 digest.

pub mod security;
pub mod wallpaper;
