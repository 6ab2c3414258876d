//! Note-On and Note-Off bytes without building a `Message`.
pub use crate::message::{note_off, note_on};
