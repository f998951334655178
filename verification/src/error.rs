//! The failures the program can report.

use vstd::prelude::*;

verus! {

/// Every failure carries the human-readable message that is shown to the
/// user; the variant says which stage produced it.
#[derive(Debug, PartialEq, Eq)]
pub enum Error {
    /// A subsystem, the window or the canvas could not be set up.
    Initialization(String),
    /// A font file was missing or invalid, or the size was not usable.
    FontLoad(String),
    /// Text could not be turned into a pixel surface.
    Rasterization(String),
    /// A pixel surface could not be uploaded as a texture.
    TextureUpload(String),
    /// A draw call failed while rendering a frame.
    Draw(String),
}

impl Error {
    /// The message carried by the error, whatever its variant.
    pub open spec fn message(self) -> String {
        match self {
            Error::Initialization(m) => m,
            Error::FontLoad(m) => m,
            Error::Rasterization(m) => m,
            Error::TextureUpload(m) => m,
            Error::Draw(m) => m,
        }
    }

    /// Gives up the error for the message it carries.
    pub fn into_message(self) -> (m: String)
        ensures
            m == self.message(),
    {
        match self {
            Error::Initialization(m) => m,
            Error::FontLoad(m) => m,
            Error::Rasterization(m) => m,
            Error::TextureUpload(m) => m,
            Error::Draw(m) => m,
        }
    }
}

} // verus!
