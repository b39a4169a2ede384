//! The content this process offers as selection owner: one payload of
//! (format atom, bytes) entries, replaced wholesale on every write.

use vstd::prelude::*;
use vstd::utf8::encode_utf8;
use crate::atoms::{AtomCache, Atoms};
use crate::common::ClipboardContent;
use crate::error::ClipboardError;
use crate::image_data::RustImage;

verus! {

/// One entry of a payload: bytes in one format.
pub struct ClipboardData {
    pub format: u32,
    pub data: Vec<u8>,
}

/// The entries of a payload as (format, bytes) pairs.
pub open spec fn payload_view(p: Seq<ClipboardData>) -> Seq<(u32, Seq<u8>)> {
    Seq::new(p.len(), |i: int| (p[i].format, p[i].data@))
}

/// The bytes `file://`, which begin a file URI.
pub open spec fn file_prefix() -> Seq<u8> {
    seq![102u8, 105, 108, 101, 58, 47, 47]
}

/// The bytes `copy\n`, which begin the file-list aliases.
pub open spec fn copy_header() -> Seq<u8> {
    seq![99u8, 111, 112, 121, 10]
}

/// A file path as a URI: unchanged if it already is one, else prefixed.
pub open spec fn uri_of(path: Seq<u8>) -> Seq<u8> {
    if file_prefix().is_prefix_of(path) {
        path
    } else {
        file_prefix() + path
    }
}

/// The URIs of the paths, in order.
pub open spec fn uris_of(files: Seq<String>) -> Seq<Seq<u8>> {
    Seq::new(files.len(), |i: int| uri_of(encode_utf8(files[i]@)))
}

/// Lines joined with `\n` between them.
pub open spec fn join_lines(lines: Seq<Seq<u8>>) -> Seq<u8>
    decreases lines.len(),
{
    if lines.len() == 0 {
        Seq::empty()
    } else if lines.len() == 1 {
        lines[0]
    } else {
        join_lines(lines.drop_last()) + seq![10u8] + lines.last()
    }
}

/// The entries that offer a file list: the URI list, and the same list
/// after a `copy` line under the two desktop-specific aliases.
pub open spec fn file_entries_of(files: Seq<String>, atoms: Atoms) -> Seq<(u32, Seq<u8>)> {
    let list = join_lines(uris_of(files));
    seq![
        (atoms.file_list, list),
        (atoms.gnome_copy_files, copy_header() + list),
        (atoms.nautilus_file_list, copy_header() + list),
    ]
}

/// The entries a piece of content other than an image becomes. A custom
/// format takes the atom its name resolved to in `names`.
pub open spec fn entries_of(c: ClipboardContent, atoms: Atoms, names: Map<Seq<char>, u32>) -> Seq<
    (u32, Seq<u8>),
> {
    match c {
        ClipboardContent::Text(s) => seq![(atoms.utf8_string, encode_utf8(s@))],
        ClipboardContent::Rtf(s) => seq![(atoms.rtf, encode_utf8(s@))],
        ClipboardContent::Html(s) => seq![(atoms.html, encode_utf8(s@))],
        ClipboardContent::Image(_) => Seq::empty(),
        ClipboardContent::Files(files) => file_entries_of(files@, atoms),
        ClipboardContent::Other(name, data) => seq![(names[name@], data@)],
    }
}

/// The number of images among the contents.
pub open spec fn image_count(cs: Seq<ClipboardContent>) -> nat
    decreases cs.len(),
{
    if cs.len() == 0 {
        0
    } else {
        image_count(cs.drop_last()) + if cs.last() is Image {
            1nat
        } else {
            0nat
        }
    }
}

/// The entries of all pieces of content, in order; the images are offered
/// as PNG, their encodings taken in order from `pngs`.
pub open spec fn expected_payload(
    cs: Seq<ClipboardContent>,
    atoms: Atoms,
    names: Map<Seq<char>, u32>,
    pngs: Seq<Seq<u8>>,
) -> Seq<(u32, Seq<u8>)>
    decreases cs.len(),
{
    if cs.len() == 0 {
        Seq::empty()
    } else if cs.last() is Image {
        expected_payload(cs.drop_last(), atoms, names, pngs.drop_last()) + seq![
            (atoms.png_mime, pngs.last()),
        ]
    } else {
        expected_payload(cs.drop_last(), atoms, names, pngs) + entries_of(cs.last(), atoms, names)
    }
}

/// The bytes held by each buffer.
pub open spec fn bytes_view(v: Seq<Vec<u8>>) -> Seq<Seq<u8>> {
    Seq::new(v.len(), |k: int| v[k]@)
}

/// Whether a custom format of the content has no resolved atom.
pub open spec fn unresolved(c: ClipboardContent, names: Map<Seq<char>, u32>) -> bool {
    c matches ClipboardContent::Other(name, _) && !names.contains_key(name@)
}

/// Appends `src` to `dst`.
pub fn append_bytes(dst: &mut Vec<u8>, src: &[u8])
    ensures
        final(dst)@ == old(dst)@ + src@,
{
    let mut i: usize = 0;
    while i < src.len()
        invariant
            i <= src@.len(),
            dst@ == old(dst)@ + src@.subrange(0, i as int),
        decreases src@.len() - i,
    {
        dst.push(src[i]);
        i = i + 1;
        assert(dst@ =~= old(dst)@ + src@.subrange(0, i as int));
    }
    assert(src@.subrange(0, src@.len() as int) =~= src@);
}

/// Whether `bytes` begins with `file://`.
pub(crate) fn has_file_prefix(bytes: &[u8]) -> (r: bool)
    ensures
        r == file_prefix().is_prefix_of(bytes@),
{
    let prefix: [u8; 7] = [102u8, 105, 108, 101, 58, 47, 47];
    assert(prefix@ == file_prefix());
    if bytes.len() < 7 {
        return false;
    }
    let mut i: usize = 0;
    while i < 7
        invariant
            i <= 7,
            bytes@.len() >= 7,
            prefix@ == file_prefix(),
            forall|j: int| 0 <= j < i ==> bytes@[j] == file_prefix()[j],
        decreases 7 - i,
    {
        if bytes[i] != prefix[i] {
            assert(bytes@.subrange(0, 7)[i as int] != file_prefix()[i as int]);
            return false;
        }
        i = i + 1;
    }
    assert(file_prefix() =~= bytes@.subrange(0, 7));
    true
}

/// The URI list of the paths: each path as a URI, one per line.
pub fn uri_list(files: &Vec<String>) -> (r: Vec<u8>)
    ensures
        r@ == join_lines(uris_of(files@)),
{
    let mut out: Vec<u8> = Vec::new();
    let mut i: usize = 0;
    while i < files.len()
        invariant
            i <= files@.len(),
            out@ == join_lines(uris_of(files@.subrange(0, i as int))),
        decreases files@.len() - i,
    {
        let path = files[i].as_str().as_bytes();
        let ghost before = out@;
        if i > 0 {
            out.push(10u8);
        }
        if !has_file_prefix(path) {
            let prefix: [u8; 7] = [102u8, 105, 108, 101, 58, 47, 47];
            assert(prefix@ == file_prefix());
            append_bytes(&mut out, prefix.as_slice());
        }
        append_bytes(&mut out, path);
        proof {
            let us = uris_of(files@.subrange(0, i + 1));
            assert(us.drop_last() =~= uris_of(files@.subrange(0, i as int)));
            assert(us.last() == uri_of(encode_utf8(files@[i as int]@)));
            if i == 0 {
                assert(out@ =~= us[0]);
            } else {
                assert(out@ =~= before + seq![10u8] + us.last());
            }
        }
        i = i + 1;
    }
    assert(files@.subrange(0, files@.len() as int) =~= files@);
    out
}

/// The three entries that offer a file list.
pub fn file_entries(files: &Vec<String>, atoms: &Atoms) -> (r: Vec<ClipboardData>)
    ensures
        payload_view(r@) == file_entries_of(files@, *atoms),
{
    let list = uri_list(files);
    let mut aliased: Vec<u8> = vec![99u8, 111, 112, 121, 10];
    append_bytes(&mut aliased, list.as_slice());
    let mut aliased_copy: Vec<u8> = Vec::new();
    append_bytes(&mut aliased_copy, aliased.as_slice());
    let r = vec![
        ClipboardData { format: atoms.file_list, data: list },
        ClipboardData { format: atoms.gnome_copy_files, data: aliased },
        ClipboardData { format: atoms.nautilus_file_list, data: aliased_copy },
    ];
    assert(payload_view(r@) =~= file_entries_of(files@, *atoms));
    r
}

/// An entry holding the UTF-8 bytes of `text`.
pub fn text_entry(format: u32, text: &String) -> (r: ClipboardData)
    ensures
        r.format == format,
        r.data@ == encode_utf8(text@),
{
    let mut data: Vec<u8> = Vec::new();
    append_bytes(&mut data, text.as_str().as_bytes());
    ClipboardData { format, data }
}

/// The entries that one piece of content other than an image becomes.
fn content_entries(c: &ClipboardContent, atoms: &Atoms, names: &AtomCache) -> (r: Result<
    Vec<ClipboardData>,
    ClipboardError,
>)
    requires
        names.wf(),
        !(*c is Image),
    ensures
        r matches Ok(p) ==> payload_view(p@) == entries_of(*c, *atoms, names@),
        r is Err <==> unresolved(*c, names@),
        r is Err ==> r == Err::<Vec<ClipboardData>, ClipboardError>(ClipboardError::UnresolvedFormat),
{
    let r = match c {
        ClipboardContent::Text(s) => vec![text_entry(atoms.utf8_string, s)],
        ClipboardContent::Rtf(s) => vec![text_entry(atoms.rtf, s)],
        ClipboardContent::Html(s) => vec![text_entry(atoms.html, s)],
        ClipboardContent::Image(_) => Vec::new(),
        ClipboardContent::Files(files) => file_entries(files, atoms),
        ClipboardContent::Other(name, data) => {
            match names.lookup(name) {
                Some(format) => {
                    let mut bytes: Vec<u8> = Vec::new();
                    append_bytes(&mut bytes, data.as_slice());
                    vec![ClipboardData { format, data: bytes }]
                },
                None => return Err(ClipboardError::UnresolvedFormat),
            }
        },
    };
    assert(payload_view(r@) =~= entries_of(*c, *atoms, names@));
    Ok(r)
}

proof fn lemma_image_count_prefix(cs: Seq<ClipboardContent>, i: int)
    requires
        0 <= i <= cs.len(),
    ensures
        image_count(cs.subrange(0, i)) <= image_count(cs),
    decreases cs.len() - i,
{
    if i == cs.len() {
        assert(cs.subrange(0, i) =~= cs);
    } else {
        lemma_image_count_prefix(cs, i + 1);
        assert(cs.subrange(0, i + 1).drop_last() =~= cs.subrange(0, i));
    }
}

/// The PNG encoding of each image among the contents, in order.
pub fn encode_images(contents: &Vec<ClipboardContent>) -> (r: Result<Vec<Vec<u8>>, ClipboardError>)
    ensures
        r matches Ok(pngs) ==> pngs@.len() == image_count(contents@),
        (forall|i: int| 0 <= i < contents@.len() ==> !(#[trigger] contents@[i] is Image)) ==> r is Ok,
        r is Err ==> (r == Err::<Vec<Vec<u8>>, ClipboardError>(ClipboardError::EmptyImage) || r
            == Err::<Vec<Vec<u8>>, ClipboardError>(ClipboardError::ImageCodec)),
        r is Err ==> exists|i: int| 0 <= i < contents@.len() && #[trigger] contents@[i] is Image,
{
    let mut out: Vec<Vec<u8>> = Vec::new();
    let mut i: usize = 0;
    while i < contents.len()
        invariant
            i <= contents@.len(),
            out@.len() == image_count(contents@.subrange(0, i as int)),
        decreases contents@.len() - i,
    {
        let ghost sub = contents@.subrange(0, i + 1);
        assert(sub.drop_last() =~= contents@.subrange(0, i as int));
        assert(sub.last() == contents@[i as int]);
        match &contents[i] {
            ClipboardContent::Image(image) => {
                match image.to_png() {
                    Ok(png) => out.push(png.into_inner()),
                    Err(e) => return Err(e),
                }
            },
            _ => {},
        }
        i = i + 1;
    }
    assert(contents@.subrange(0, contents@.len() as int) =~= contents@);
    Ok(out)
}

/// The payload that a list of content becomes, the images' PNG encodings
/// given in order in `pngs`: the entries of each piece, in order. Custom
/// formats must have been resolved in `names`.
pub fn payload_from(
    contents: &Vec<ClipboardContent>,
    atoms: &Atoms,
    names: &AtomCache,
    pngs: &Vec<Vec<u8>>,
) -> (r: Result<Vec<ClipboardData>, ClipboardError>)
    requires
        names.wf(),
        pngs@.len() == image_count(contents@),
    ensures
        r matches Ok(p) ==> payload_view(p@) == expected_payload(
            contents@,
            *atoms,
            names@,
            bytes_view(pngs@),
        ),
        r is Ok <==> forall|i: int| 0 <= i < contents@.len() ==> !unresolved(#[trigger] contents@[i], names@),
        r is Err ==> r == Err::<Vec<ClipboardData>, ClipboardError>(ClipboardError::UnresolvedFormat),
{
    let ghost all = bytes_view(pngs@);
    let mut out: Vec<ClipboardData> = Vec::new();
    let mut i: usize = 0;
    let mut k: usize = 0;
    while i < contents.len()
        invariant
            names.wf(),
            i <= contents@.len(),
            pngs@.len() == image_count(contents@),
            all == bytes_view(pngs@),
            k == image_count(contents@.subrange(0, i as int)),
            payload_view(out@) == expected_payload(
                contents@.subrange(0, i as int),
                *atoms,
                names@,
                all.subrange(0, k as int),
            ),
            forall|j: int| 0 <= j < i ==> !unresolved(#[trigger] contents@[j], names@),
        decreases contents@.len() - i,
    {
        let ghost sub = contents@.subrange(0, i + 1);
        assert(sub.drop_last() =~= contents@.subrange(0, i as int));
        assert(sub.last() == contents@[i as int]);
        proof {
            lemma_image_count_prefix(contents@, i + 1);
        }
        let ghost before = out@;
        if let ClipboardContent::Image(_) = &contents[i] {
            let count = pngs.len();
            assert(k < count);
            let mut data: Vec<u8> = Vec::new();
            append_bytes(&mut data, pngs[k].as_slice());
            out.push(ClipboardData { format: atoms.png_mime, data });
            proof {
                let ps = all.subrange(0, k + 1);
                assert(ps.drop_last() =~= all.subrange(0, k as int));
                assert(ps.last() == pngs@[k as int]@);
                assert(payload_view(out@) =~= payload_view(before) + seq![(atoms.png_mime, ps.last())]);
            }
            k = k + 1;
        } else {
            match content_entries(&contents[i], atoms, names) {
                Ok(mut es) => {
                    let ghost added = es@;
                    out.append(&mut es);
                    assert(payload_view(out@) =~= payload_view(before) + payload_view(added));
                },
                Err(e) => {
                    return Err(e);
                },
            }
        }
        i = i + 1;
    }
    assert(contents@.subrange(0, contents@.len() as int) =~= contents@);
    assert(all.subrange(0, k as int) =~= all);
    Ok(out)
}

/// The payload that a list of content becomes, for one atomic write: the
/// entries of each piece, in order, with each image encoded as PNG. Custom
/// formats must have been resolved in `names`.
pub fn build_payload(contents: &Vec<ClipboardContent>, atoms: &Atoms, names: &AtomCache) -> (r: Result<
    Vec<ClipboardData>,
    ClipboardError,
>)
    requires
        names.wf(),
    ensures
        r matches Ok(p) ==> exists|pngs: Seq<Seq<u8>>|
            pngs.len() == image_count(contents@) && payload_view(p@) == expected_payload(
                contents@,
                *atoms,
                names@,
                pngs,
            ),
        (forall|i: int|
            0 <= i < contents@.len() ==> !unresolved(#[trigger] contents@[i], names@)
                && !(contents@[i] is Image)) ==> r is Ok,
        (exists|i: int| 0 <= i < contents@.len() && unresolved(#[trigger] contents@[i], names@))
            ==> r is Err,
        r == Err::<Vec<ClipboardData>, ClipboardError>(ClipboardError::UnresolvedFormat) ==> exists|
            i: int,
        |
            0 <= i < contents@.len() && unresolved(#[trigger] contents@[i], names@),
        r is Err && r != Err::<Vec<ClipboardData>, ClipboardError>(ClipboardError::UnresolvedFormat)
            ==> exists|i: int| 0 <= i < contents@.len() && #[trigger] contents@[i] is Image,
{
    let pngs = match encode_images(contents) {
        Ok(pngs) => pngs,
        Err(e) => return Err(e),
    };
    let r = payload_from(contents, atoms, names, &pngs);
    proof {
        if r is Ok {
            assert(bytes_view(pngs@).len() == image_count(contents@));
        }
    }
    r
}

} // verus!
