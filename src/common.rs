//! The typed content model: the kinds of content the clipboard carries and
//! the formats that name them.

use vstd::prelude::*;
use vstd::utf8::{encode_utf8, valid_utf8};
use crate::error::ClipboardError;
pub use crate::image_data::{RustImage, RustImageBuffer, RustImageData};

verus! {

/// A kind of clipboard content; `Other` names a custom format.
#[derive(Clone)]
pub enum ContentFormat {
    Text,
    Rtf,
    Html,
    Image,
    Files,
    Other(String),
}

/// One piece of clipboard content, tagged with its kind.
pub enum ClipboardContent {
    Text(String),
    Rtf(String),
    Html(String),
    Image(RustImageData),
    /// An ordered list of file URIs.
    Files(Vec<String>),
    /// Bytes in a custom format, with the format's name.
    Other(String, Vec<u8>),
}

/// Whether two formats are the same, custom names compared by their text.
pub open spec fn same_format(f: ContentFormat, g: ContentFormat) -> bool {
    match (f, g) {
        (ContentFormat::Text, ContentFormat::Text) => true,
        (ContentFormat::Rtf, ContentFormat::Rtf) => true,
        (ContentFormat::Html, ContentFormat::Html) => true,
        (ContentFormat::Image, ContentFormat::Image) => true,
        (ContentFormat::Files, ContentFormat::Files) => true,
        (ContentFormat::Other(a), ContentFormat::Other(b)) => a@ == b@,
        _ => false,
    }
}

/// The format of a piece of content.
pub open spec fn format_of(c: ClipboardContent) -> ContentFormat {
    match c {
        ClipboardContent::Text(_) => ContentFormat::Text,
        ClipboardContent::Rtf(_) => ContentFormat::Rtf,
        ClipboardContent::Html(_) => ContentFormat::Html,
        ClipboardContent::Image(_) => ContentFormat::Image,
        ClipboardContent::Files(_) => ContentFormat::Files,
        ClipboardContent::Other(name, _) => ContentFormat::Other(name),
    }
}

/// The bytes that stand for a piece of content: a string's UTF-8 bytes, the
/// first file URI of a list, a custom format's bytes; none for an image.
pub open spec fn bytes_of(c: ClipboardContent) -> Seq<u8> {
    match c {
        ClipboardContent::Text(s) => encode_utf8(s@),
        ClipboardContent::Rtf(s) => encode_utf8(s@),
        ClipboardContent::Html(s) => encode_utf8(s@),
        ClipboardContent::Image(_) => Seq::empty(),
        ClipboardContent::Files(files) => if files@.len() > 0 {
            encode_utf8(files@[0]@)
        } else {
            Seq::empty()
        },
        ClipboardContent::Other(_, data) => data@,
    }
}

/// Handles notifications that the clipboard's content changed.
pub trait ClipboardHandler {
    fn on_clipboard_change(&mut self);
}

/// Access to a piece of content in its generic forms.
pub trait ContentData {
    fn get_format(&self) -> ContentFormat;

    fn as_bytes(&self) -> &[u8];

    fn as_str(&self) -> Result<&str, ClipboardError>;
}

/// Relies on `std::str::from_utf8`: the bytes as a string slice exactly
/// when they are valid UTF-8.
#[verifier::external_body]
fn utf8_str(bytes: &[u8]) -> (r: Result<&str, ClipboardError>)
    ensures
        r is Ok <==> valid_utf8(bytes@),
        r is Ok ==> encode_utf8(r->Ok_0@) == bytes@,
        r is Err ==> r->Err_0 == ClipboardError::InvalidUtf8,
{
    std::str::from_utf8(bytes).map_err(|_| ClipboardError::InvalidUtf8)
}

impl ContentData for ClipboardContent {
    fn get_format(&self) -> (r: ContentFormat)
        ensures
            same_format(r, format_of(*self)),
    {
        match self {
            ClipboardContent::Text(_) => ContentFormat::Text,
            ClipboardContent::Rtf(_) => ContentFormat::Rtf,
            ClipboardContent::Html(_) => ContentFormat::Html,
            ClipboardContent::Image(_) => ContentFormat::Image,
            ClipboardContent::Files(_) => ContentFormat::Files,
            ClipboardContent::Other(format, _) => ContentFormat::Other(format.clone()),
        }
    }

    fn as_bytes(&self) -> (r: &[u8])
        ensures
            r@ == bytes_of(*self),
    {
        match self {
            ClipboardContent::Text(data) => data.as_str().as_bytes(),
            ClipboardContent::Rtf(data) => data.as_str().as_bytes(),
            ClipboardContent::Html(data) => data.as_str().as_bytes(),
            ClipboardContent::Image(_) => &[],
            ClipboardContent::Files(data) => {
                if data.len() > 0 {
                    data[0].as_str().as_bytes()
                } else {
                    &[]
                }
            },
            ClipboardContent::Other(_, data) => data.as_slice(),
        }
    }

    fn as_str(&self) -> (r: Result<&str, ClipboardError>)
        ensures
            match *self {
                ClipboardContent::Text(s) => r matches Ok(t) && t@ == s@,
                ClipboardContent::Rtf(s) => r matches Ok(t) && t@ == s@,
                ClipboardContent::Html(s) => r matches Ok(t) && t@ == s@,
                ClipboardContent::Image(_) => r == Err::<&str, ClipboardError>(ClipboardError::NotText),
                ClipboardContent::Files(files) => if files@.len() > 0 {
                    r matches Ok(t) && t@ == files@[0]@
                } else {
                    r == Err::<&str, ClipboardError>(ClipboardError::NoData)
                },
                ClipboardContent::Other(_, data) => (r is Ok <==> valid_utf8(data@)) && (r matches Ok(
                    t,
                ) ==> encode_utf8(t@) == data@) && (r is Err ==> r == Err::<&str, ClipboardError>(
                    ClipboardError::InvalidUtf8,
                )),
            },
    {
        match self {
            ClipboardContent::Text(data) => Ok(data.as_str()),
            ClipboardContent::Rtf(data) => Ok(data.as_str()),
            ClipboardContent::Html(data) => Ok(data.as_str()),
            ClipboardContent::Image(_) => Err(ClipboardError::NotText),
            ClipboardContent::Files(data) => {
                if data.len() > 0 {
                    Ok(data[0].as_str())
                } else {
                    Err(ClipboardError::NoData)
                }
            },
            ClipboardContent::Other(_, data) => utf8_str(data.as_slice()),
        }
    }
}

} // verus!
