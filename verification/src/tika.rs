//! The bridge into the embedded Tika runtime: JNI plumbing, marshaling
//! of configuration objects, dispatch of the parse entry points, and
//! decoding of the tagged result envelope.

pub mod jni_utils;
pub mod wrappers;
pub mod parse;
