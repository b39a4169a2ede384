use vstd::prelude::*;

verus! {

/// The ways a clipboard operation can fail.
#[derive(Clone, Copy, Debug, PartialEq, Eq, Structural)]
pub enum ClipboardError {
    /// The display server could not be reached, or the endpoint window could
    /// not be created.
    Connection,
    /// A reply was malformed or arrived when it was not expected.
    Protocol,
    /// The owner answered with a representation other than the one asked for.
    TypeMismatch,
    /// The caller's deadline passed before the transfer completed.
    Timeout,
    /// The requested format is not offered by the current owner.
    NoData,
    /// Taking ownership of the selection failed.
    Ownership,
    /// A custom format name has not been resolved to an atom yet.
    UnresolvedFormat,
    /// An image operation was asked of an image that holds no pixels.
    EmptyImage,
    /// The image codec could not decode or encode the image.
    ImageCodec,
    /// The content has no string form.
    NotText,
    /// The bytes are not valid UTF-8.
    InvalidUtf8,
}

impl ClipboardError {
    /// A short human-readable description of the error.
    pub fn message(&self) -> (r: &'static str) {
        match self {
            ClipboardError::Connection => "cannot connect to the display server",
            ClipboardError::Protocol => "malformed or unexpected protocol reply",
            ClipboardError::TypeMismatch => "clipboard data type mismatch",
            ClipboardError::Timeout => "timeout while waiting for clipboard data",
            ClipboardError::NoData => "the clipboard does not offer this format",
            ClipboardError::Ownership => "failed to take ownership of the clipboard",
            ClipboardError::UnresolvedFormat => "format name has not been resolved",
            ClipboardError::EmptyImage => "image is empty",
            ClipboardError::ImageCodec => "image could not be decoded or encoded",
            ClipboardError::NotText => "content cannot be converted to a string",
            ClipboardError::InvalidUtf8 => "content is not valid UTF-8",
        }
    }
}

} // verus!
