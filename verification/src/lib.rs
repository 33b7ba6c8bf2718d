//! Compose logic of an input-method proxy that turns `dead_acute` + `c`
//! into `ç`, with the per-context keyboard session, keymap text extraction and
//! child keyboard selection that surround it.

pub mod child;
pub mod compose;
pub mod keymap;
pub mod session;
