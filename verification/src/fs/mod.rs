//! What is computed from files: their text and lines, the sizes of the
//! volume they lie on, and how a directory tree is walked.

pub mod enumerate;
pub mod text;
pub mod volume;
