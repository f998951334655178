//! Font and texture bookkeeping for a small text-rendering program.
//!
//! The library holds everything the program decides: which fonts are loaded
//! and in which order, which text goes into which texture slot, where each
//! slot is drawn, and when the render loop stops. Rasterizing, uploading and
//! drawing are left to the caller, who performs each requested action and
//! reports its outcome back as plain values.

pub mod error;
pub mod font;
pub mod labels;
pub mod render;
pub mod texture;
