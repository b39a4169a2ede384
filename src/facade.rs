//! The clipboard facade: the typed operations, and the decisions that turn
//! what a read returned into the values they give back.

use vstd::prelude::*;
use vstd::slice::slice_subrange;
use vstd::utf8::{decode_utf8, valid_utf8};
use crate::atoms::{AtomCache, Atoms, ByteOrder, atom_list_of, parse_atom_list};
use crate::common::{ClipboardContent, ContentFormat};
use crate::error::ClipboardError;
use crate::image_data::{RustImage, RustImageData};
use crate::payload::{file_prefix, has_file_prefix};

verus! {

/// Typed access to the clipboard.
pub trait Clipboard: Send {
    /// The names of all formats the current content is offered in.
    fn available_formats(&self) -> Result<Vec<String>, ClipboardError>;

    fn has(&self, format: ContentFormat) -> bool;

    /// Empties the clipboard.
    fn clear(&self) -> Result<(), ClipboardError>;

    /// The bytes of the content in the named format.
    fn get_buffer(&self, format: &str) -> Result<Vec<u8>, ClipboardError>;

    /// The plain text, empty when there is none.
    fn get_text(&self) -> Result<String, ClipboardError>;

    /// The rich text, empty when there is none.
    fn get_rich_text(&self) -> Result<String, ClipboardError>;

    /// The HTML, empty when there is none.
    fn get_html(&self) -> Result<String, ClipboardError>;

    fn get_image(&self) -> Result<RustImageData, ClipboardError>;

    /// The file URIs, in order, empty when there are none.
    fn get_files(&self) -> Result<Vec<String>, ClipboardError>;

    /// The content in each of the formats that is offered, in the order
    /// asked; formats not offered are skipped.
    fn get(&self, formats: &[ContentFormat]) -> Result<Vec<ClipboardContent>, ClipboardError>;

    fn set_buffer(&self, format: &str, buffer: Vec<u8>) -> Result<(), ClipboardError>;

    fn set_text(&self, text: String) -> Result<(), ClipboardError>;

    fn set_rich_text(&self, text: String) -> Result<(), ClipboardError>;

    fn set_html(&self, html: String) -> Result<(), ClipboardError>;

    fn set_image(&self, image: RustImageData) -> Result<(), ClipboardError>;

    fn set_files(&self, files: Vec<String>) -> Result<(), ClipboardError>;

    /// Offers all of the contents at once, in one replacement of what the
    /// clipboard holds.
    fn set(&self, contents: Vec<ClipboardContent>) -> Result<(), ClipboardError>;
}

/// What `String::from_utf8_lossy` makes of a byte sequence.
pub uninterp spec fn lossy_utf8_of(b: Seq<u8>) -> Seq<char>;

/// Relies on `String::from_utf8_lossy`: the bytes as text, invalid
/// sequences replaced; valid UTF-8 is decoded unchanged.
#[verifier::external_body]
fn lossy_text(bytes: &[u8]) -> (r: String)
    ensures
        r@ == lossy_utf8_of(bytes@),
        valid_utf8(bytes@) ==> r@ == decode_utf8(bytes@),
{
    String::from_utf8_lossy(bytes).into_owned()
}

/// The text of a read of a text format: the decoded bytes, or the empty
/// text when nothing was read.
pub fn decode_text(read: Result<Vec<u8>, ClipboardError>) -> (r: String)
    ensures
        read matches Ok(b) ==> r@ == lossy_utf8_of(b@),
        read is Ok && valid_utf8(read->Ok_0@) ==> r@ == decode_utf8(read->Ok_0@),
        read is Err ==> r@ == Seq::<char>::empty(),
{
    match read {
        Ok(bytes) => lossy_text(bytes.as_slice()),
        Err(_) => String::new(),
    }
}

/// A line without the carriage return that ended it, if any.
pub open spec fn strip_cr(line: Seq<u8>) -> Seq<u8> {
    if line.len() > 0 && line.last() == 13 {
        line.drop_last()
    } else {
        line
    }
}

/// The lines ended so far in `b`, and the line begun after them.
pub open spec fn scan_lines(b: Seq<u8>) -> (Seq<Seq<u8>>, Seq<u8>)
    decreases b.len(),
{
    if b.len() == 0 {
        (Seq::empty(), Seq::empty())
    } else {
        let (done, cur) = scan_lines(b.drop_last());
        if b.last() == 10 {
            (done.push(strip_cr(cur)), Seq::empty())
        } else {
            (done, cur.push(b.last()))
        }
    }
}

/// The lines of `b`: split at each `\n`, a `\r` just before it dropped; a
/// last line without `\n` counts when it is not empty.
pub open spec fn lines_of(b: Seq<u8>) -> Seq<Seq<u8>> {
    let (done, cur) = scan_lines(b);
    if cur.len() == 0 {
        done
    } else {
        done.push(cur)
    }
}

/// The lines that are file URIs, in order.
pub open spec fn keep_uris(lines: Seq<Seq<u8>>) -> Seq<Seq<u8>>
    decreases lines.len(),
{
    if lines.len() == 0 {
        Seq::empty()
    } else {
        let rest = keep_uris(lines.drop_last());
        if file_prefix().is_prefix_of(lines.last()) {
            rest.push(lines.last())
        } else {
            rest
        }
    }
}

/// Whether `out` holds the decoded URI lines; lines of valid UTF-8 decode
/// unchanged.
pub open spec fn decoded_lines(out: Seq<String>, lines: Seq<Seq<u8>>) -> bool {
    &&& out.len() == lines.len()
    &&& forall|i: int| 0 <= i < out.len() ==> (#[trigger] out[i])@ == lossy_utf8_of(lines[i])
    &&& forall|i: int|
        0 <= i < out.len() && valid_utf8(lines[i]) ==> (#[trigger] out[i])@ == decode_utf8(lines[i])
}

/// Appends `line` decoded to `out` if it is a file URI.
fn push_if_uri(out: &mut Vec<String>, line: &[u8], ghost_lines: Ghost<Seq<Seq<u8>>>)
    requires
        decoded_lines(old(out)@, keep_uris(ghost_lines@)),
    ensures
        decoded_lines(final(out)@, keep_uris(ghost_lines@.push(line@))),
{
    let ghost ls = ghost_lines@.push(line@);
    assert(ls.drop_last() =~= ghost_lines@);
    if has_file_prefix(line) {
        let s = lossy_text(line);
        out.push(s);
        assert(keep_uris(ls) == keep_uris(ghost_lines@).push(line@));
    }
}

/// The file URIs of a URI list, in order: its lines that begin with
/// `file://`, decoded.
pub fn parse_uri_list(data: &[u8]) -> (r: Vec<String>)
    ensures
        decoded_lines(r@, keep_uris(lines_of(data@))),
{
    let mut out: Vec<String> = Vec::new();
    let mut start: usize = 0;
    let mut i: usize = 0;
    while i < data.len()
        invariant
            start <= i <= data@.len(),
            scan_lines(data@.subrange(0, i as int)).1 == data@.subrange(start as int, i as int),
            decoded_lines(out@, keep_uris(scan_lines(data@.subrange(0, i as int)).0)),
        decreases data@.len() - i,
    {
        let ghost prev = data@.subrange(0, i as int);
        let ghost next = data@.subrange(0, i + 1);
        assert(next.drop_last() =~= prev);
        assert(next.last() == data@[i as int]);
        if data[i] == 10u8 {
            let end: usize = if i > start && data[i - 1] == 13u8 {
                i - 1
            } else {
                i
            };
            let line = slice_subrange(data, start, end);
            proof {
                let cur = data@.subrange(start as int, i as int);
                if i > start && data@[i - 1] == 13u8 {
                    assert(cur.last() == data@[i - 1]);
                    assert(line@ =~= cur.drop_last());
                } else {
                    assert(line@ =~= cur);
                }
                assert(line@ == strip_cr(cur));
            }
            push_if_uri(&mut out, line, Ghost(scan_lines(prev).0));
            start = i + 1;
        } else {
            proof {
                assert(data@.subrange(start as int, i + 1) =~= data@.subrange(start as int, i as int).push(
                    data@[i as int],
                ));
            }
        }
        i = i + 1;
    }
    assert(data@.subrange(0, data@.len() as int) =~= data@);
    if start < data.len() {
        let line = slice_subrange(data, start, data.len());
        push_if_uri(&mut out, line, Ghost(scan_lines(data@).0));
    }
    out
}

/// The file URIs of a read of the URI list, or none when nothing was read.
pub fn files_from_read(read: Result<Vec<u8>, ClipboardError>) -> (r: Vec<String>)
    ensures
        read matches Ok(b) ==> decoded_lines(r@, keep_uris(lines_of(b@))),
        read is Err ==> r@.len() == 0,
{
    match read {
        Ok(bytes) => parse_uri_list(bytes.as_slice()),
        Err(_) => Vec::new(),
    }
}

/// The image of a read of the PNG format.
pub fn image_from_read(read: Result<Vec<u8>, ClipboardError>) -> (r: Result<
    RustImageData,
    ClipboardError,
>)
    ensures
        read is Err ==> r == Err::<RustImageData, ClipboardError>(ClipboardError::NoData),
        read is Ok ==> (r matches Ok(img) ==> img.holds_image()),
        read is Ok ==> (r is Err ==> r == Err::<RustImageData, ClipboardError>(
            ClipboardError::ImageCodec,
        )),
{
    match read {
        Ok(bytes) => RustImageData::from_bytes(bytes.as_slice()),
        Err(_) => Err(ClipboardError::NoData),
    }
}

/// The atoms of a `TARGETS` list, the protocol atoms left out.
pub open spec fn visible_atoms(l: Seq<u32>, atoms: Atoms) -> Seq<u32>
    decreases l.len(),
{
    if l.len() == 0 {
        Seq::empty()
    } else {
        let rest = visible_atoms(l.drop_last(), atoms);
        if atoms.is_protocol_atom(l.last()) {
            rest
        } else {
            rest.push(l.last())
        }
    }
}

/// The formats a `TARGETS` reply offers, protocol atoms left out, in the
/// reply's order.
pub fn visible_formats(data: &[u8], order: ByteOrder, atoms: &Atoms) -> (r: Result<
    Vec<u32>,
    ClipboardError,
>)
    ensures
        data@.len() % 4 == 0 ==> (r matches Ok(l) && l@ == visible_atoms(
            atom_list_of(data@, order),
            *atoms,
        )),
        data@.len() % 4 != 0 ==> r == Err::<Vec<u32>, ClipboardError>(ClipboardError::Protocol),
{
    let all = match parse_atom_list(data, order) {
        Ok(all) => all,
        Err(e) => return Err(e),
    };
    let ignored = atoms.ignored_formats();
    let mut out: Vec<u32> = Vec::new();
    let mut i: usize = 0;
    while i < all.len()
        invariant
            i <= all@.len(),
            all@ == atom_list_of(data@, order),
            forall|a: u32| ignored@.contains(a) <==> atoms.is_protocol_atom(a),
            out@ == visible_atoms(all@.subrange(0, i as int), *atoms),
        decreases all@.len() - i,
    {
        let a = all[i];
        let ghost sub = all@.subrange(0, i + 1);
        assert(sub.drop_last() =~= all@.subrange(0, i as int));
        let mut found = false;
        let mut k: usize = 0;
        while k < ignored.len()
            invariant
                k <= ignored@.len(),
                found <==> exists|j: int| 0 <= j < k && ignored@[j] == a,
            decreases ignored@.len() - k,
        {
            if ignored[k] == a {
                found = true;
            }
            k = k + 1;
        }
        assert(found <==> ignored@.contains(a));
        if !found {
            out.push(a);
        }
        i = i + 1;
    }
    assert(all@.subrange(0, all@.len() as int) =~= all@);
    Ok(out)
}

/// The atom that stands for a format: a well-known one, or the one a custom
/// name resolved to, if it has been.
pub fn format_atom(format: &ContentFormat, atoms: &Atoms, names: &AtomCache) -> (r: Option<u32>)
    requires
        names.wf(),
    ensures
        r == format_atom_of(*format, *atoms, names@),
{
    match format {
        ContentFormat::Text => Some(atoms.utf8_string),
        ContentFormat::Rtf => Some(atoms.rtf),
        ContentFormat::Html => Some(atoms.html),
        ContentFormat::Image => Some(atoms.png_mime),
        ContentFormat::Files => Some(atoms.file_list),
        ContentFormat::Other(name) => names.lookup(name),
    }
}

/// The atom that stands for a format, given the resolved custom names.
pub open spec fn format_atom_of(format: ContentFormat, atoms: Atoms, names: Map<Seq<char>, u32>) -> Option<
    u32,
> {
    match format {
        ContentFormat::Text => Some(atoms.utf8_string),
        ContentFormat::Rtf => Some(atoms.rtf),
        ContentFormat::Html => Some(atoms.html),
        ContentFormat::Image => Some(atoms.png_mime),
        ContentFormat::Files => Some(atoms.file_list),
        ContentFormat::Other(name) => if names.contains_key(name@) {
            Some(names[name@])
        } else {
            None
        },
    }
}

/// Whether a `TARGETS` read shows `atom` among the available formats: the
/// protocol atoms are never shown. A failed read, malformed data or an
/// unresolved format show nothing.
pub fn has_format(
    read: &Result<Vec<u8>, ClipboardError>,
    order: ByteOrder,
    atoms: &Atoms,
    atom: Option<u32>,
) -> (r: bool)
    ensures
        r == match atom {
            Some(a) => read is Ok && read->Ok_0@.len() % 4 == 0 && visible_atoms(
                atom_list_of(read->Ok_0@, order),
                *atoms,
            ).contains(a),
            None => false,
        },
{
    let a = match atom {
        Some(a) => a,
        None => return false,
    };
    let bytes = match read {
        Ok(b) => b,
        Err(_) => return false,
    };
    let list = match visible_formats(bytes.as_slice(), order, atoms) {
        Ok(l) => l,
        Err(_) => return false,
    };
    let mut i: usize = 0;
    while i < list.len()
        invariant
            i <= list@.len(),
            read is Ok,
            read->Ok_0@.len() % 4 == 0,
            atom == Some(a),
            list@ == visible_atoms(atom_list_of(read->Ok_0@, order), *atoms),
            forall|j: int| 0 <= j < i ==> list@[j] != a,
        decreases list@.len() - i,
    {
        if list[i] == a {
            assert(list@[i as int] == a);
            assert(list@.contains(a));
            return true;
        }
        i = i + 1;
    }
    false
}

/// The content a read in `format` gives, or nothing when the format is not
/// offered or its bytes do not decode as the kind of content it names.
pub fn content_from_read(format: &ContentFormat, read: Result<Vec<u8>, ClipboardError>) -> (r: Option<
    ClipboardContent,
>)
    ensures
        read is Err ==> r is None,
        read matches Ok(b) ==> match *format {
            ContentFormat::Text => r matches Some(ClipboardContent::Text(s)) && s@ == lossy_utf8_of(b@)
                && (valid_utf8(b@) ==> s@ == decode_utf8(b@)),
            ContentFormat::Rtf => r matches Some(ClipboardContent::Rtf(s)) && s@ == lossy_utf8_of(b@)
                && (valid_utf8(b@) ==> s@ == decode_utf8(b@)),
            ContentFormat::Html => r matches Some(ClipboardContent::Html(s)) && s@ == lossy_utf8_of(b@)
                && (valid_utf8(b@) ==> s@ == decode_utf8(b@)),
            ContentFormat::Image => r is Some ==> (r matches Some(ClipboardContent::Image(img))
                && img.holds_image()),
            ContentFormat::Files => r matches Some(ClipboardContent::Files(fs)) && decoded_lines(
                fs@,
                keep_uris(lines_of(b@)),
            ),
            ContentFormat::Other(name) => r matches Some(ClipboardContent::Other(n, d)) && n@ == name@
                && d@ == b@,
        },
{
    let bytes = match read {
        Ok(b) => b,
        Err(_) => return None,
    };
    match format {
        ContentFormat::Text => Some(ClipboardContent::Text(lossy_text(bytes.as_slice()))),
        ContentFormat::Rtf => Some(ClipboardContent::Rtf(lossy_text(bytes.as_slice()))),
        ContentFormat::Html => Some(ClipboardContent::Html(lossy_text(bytes.as_slice()))),
        ContentFormat::Image => match RustImageData::from_bytes(bytes.as_slice()) {
            Ok(img) => Some(ClipboardContent::Image(img)),
            Err(_) => None,
        },
        ContentFormat::Files => Some(ClipboardContent::Files(parse_uri_list(bytes.as_slice()))),
        ContentFormat::Other(name) => Some(ClipboardContent::Other(name.clone(), bytes)),
    }
}

} // verus!
