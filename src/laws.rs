//! Properties of the protocol engine that involve several of its parts.

use vstd::prelude::*;
use vstd::utf8::{decode_utf8, encode_utf8, encode_utf8_decode_utf8, encode_utf8_valid_utf8};
use crate::atoms::{Atoms, ByteOrder, NONE, atom_list_of};
use crate::common::ClipboardContent;
use crate::error::ClipboardError;
use crate::facade::{decoded_lines, keep_uris, lines_of, scan_lines, strip_cr, visible_atoms};
use crate::owner::{first_entry, offers, targets_of};
use crate::payload::{expected_payload, file_prefix, join_lines, uris_of};
use crate::reader::{
    ReadPhase, ReadStep, SelectionEvent, TransferView, chunk_next, chunk_size_next, deadline_passed,
    outcome_of, poll_next, value_next, with_data, with_phase,
};

verus! {

/// A fresh read of `target` on a connection with atoms `atoms`.
pub open spec fn fresh_read(v: TransferView, atoms: Atoms, target: u32) -> bool {
    &&& v.phase == ReadPhase::AwaitingNotify
    &&& v.atoms == atoms
    &&& v.target == target
    &&& v.data.len() == 0
}

/// The owner's notification that it stored the answer in `property` of
/// `requestor`, as the reader polls it.
pub open spec fn notified(v: TransferView, seq: u64, requestor: u32, property: u32) -> Option<
    (u64, SelectionEvent),
> {
    Some((seq, SelectionEvent::SelectionNotify { selection: v.selection, requestor, property }))
}

/// A direct read: the notification, then the value of the property, of
/// type `type_` and holding `value`.
pub open spec fn direct_read(
    v: TransferView,
    elapsed_ms: u64,
    seq: u64,
    requestor: u32,
    property: u32,
    type_: u32,
    value: Seq<u8>,
) -> (TransferView, ReadStep) {
    let (v1, _) = poll_next(v, elapsed_ms, notified(v, seq, requestor, property));
    value_next(v1, type_, value)
}

/// Text written as the clipboard's only content reads back unchanged: the
/// owner answers a request for UTF-8 text with the first entry in that
/// format, which the reader takes whole, and which decodes to the text.
pub proof fn text_round_trip(
    text: String,
    atoms: Atoms,
    names: Map<Seq<char>, u32>,
    pngs: Seq<Seq<u8>>,
    payload: Seq<(u32, Seq<u8>)>,
    i: int,
    v: TransferView,
    elapsed_ms: u64,
    seq: u64,
    requestor: u32,
    property: u32,
)
    requires
        atoms.wf(),
        payload == expected_payload(seq![ClipboardContent::Text(text)], atoms, names, pngs),
        first_entry(payload, atoms.utf8_string, i),
        fresh_read(v, atoms, atoms.utf8_string),
        !deadline_passed(v, elapsed_ms),
        seq >= v.sequence,
        property != NONE,
    ensures
        poll_next(v, elapsed_ms, notified(v, seq, requestor, property)).1 == (ReadStep::GetValue {
            window: requestor,
            property,
            type_: atoms.utf8_string,
        }),
        direct_read(v, elapsed_ms, seq, requestor, property, atoms.utf8_string, payload[i].1).1
            == ReadStep::Done,
        outcome_of(direct_read(v, elapsed_ms, seq, requestor, property, atoms.utf8_string, payload[i].1).0)
            == Ok::<Seq<u8>, ClipboardError>(encode_utf8(text@)),
        decode_utf8(encode_utf8(text@)) == text@,
{
    let cs = seq![ClipboardContent::Text(text)];
    assert(cs.drop_last() =~= Seq::<ClipboardContent>::empty());
    assert(cs.last() == ClipboardContent::Text(text));
    assert(expected_payload(cs.drop_last(), atoms, names, pngs) == Seq::<(u32, Seq<u8>)>::empty());
    assert(payload =~= seq![(atoms.utf8_string, encode_utf8(text@))]);
    assert(i == 0);
    assert(atoms.key_atoms()[0] != atoms.key_atoms()[6]);
    assert(atoms.key_atoms()[5] != atoms.key_atoms()[6]);
    assert(atoms.key_atoms()[6] != NONE);
    let (v1, _) = poll_next(v, elapsed_ms, notified(v, seq, requestor, property));
    assert(v1 == with_phase(v, ReadPhase::AwaitingValue));
    assert(v.data + payload[i].1 =~= encode_utf8(text@));
    encode_utf8_decode_utf8(text@);
}

/// A write of text, rich text and HTML together offers all three at once:
/// the one payload that replaces the old one holds an entry for each, and
/// the owner lists each among its targets.
pub proof fn multi_format_write_is_whole(
    a: String,
    b: String,
    c: String,
    atoms: Atoms,
    names: Map<Seq<char>, u32>,
    pngs: Seq<Seq<u8>>,
    payload: Seq<(u32, Seq<u8>)>,
)
    requires
        payload == expected_payload(
            seq![ClipboardContent::Text(a), ClipboardContent::Rtf(b), ClipboardContent::Html(c)],
            atoms,
            names,
            pngs,
        ),
    ensures
        payload.len() == 3,
        payload[0] == (atoms.utf8_string, encode_utf8(a@)),
        payload[1] == (atoms.rtf, encode_utf8(b@)),
        payload[2] == (atoms.html, encode_utf8(c@)),
        offers(payload, atoms.utf8_string) && offers(payload, atoms.rtf) && offers(payload, atoms.html),
        targets_of(payload, atoms).contains(atoms.utf8_string),
        targets_of(payload, atoms).contains(atoms.rtf),
        targets_of(payload, atoms).contains(atoms.html),
{
    let cs = seq![ClipboardContent::Text(a), ClipboardContent::Rtf(b), ClipboardContent::Html(c)];
    let c1 = seq![ClipboardContent::Text(a)];
    let c2 = seq![ClipboardContent::Text(a), ClipboardContent::Rtf(b)];
    assert(cs.drop_last() =~= c2);
    assert(c2.drop_last() =~= c1);
    assert(c1.drop_last() =~= Seq::<ClipboardContent>::empty());
    assert(c1.last() == ClipboardContent::Text(a));
    assert(c2.last() == ClipboardContent::Rtf(b));
    assert(cs.last() == ClipboardContent::Html(c));
    assert(expected_payload(c1.drop_last(), atoms, names, pngs) == Seq::<(u32, Seq<u8>)>::empty());
    let x1 = expected_payload(c1, atoms, names, pngs);
    let x2 = expected_payload(c2, atoms, names, pngs);
    assert(x2 == x1 + seq![(atoms.rtf, encode_utf8(b@))]);
    assert(payload == x2 + seq![(atoms.html, encode_utf8(c@))]);
    assert(payload =~= seq![
        (atoms.utf8_string, encode_utf8(a@)),
        (atoms.rtf, encode_utf8(b@)),
        (atoms.html, encode_utf8(c@)),
    ]);
    let t = targets_of(payload, atoms);
    assert(t[2] == atoms.utf8_string);
    assert(t[3] == atoms.rtf);
    assert(t[4] == atoms.html);
}

/// `has` and the available formats agree: both read the formats of a
/// `TARGETS` reply with the protocol atoms left out, so an atom is shown
/// exactly when the reply lists it and it is not a protocol atom.
pub proof fn has_iff_available(data: Seq<u8>, order: ByteOrder, atoms: Atoms, a: u32)
    ensures
        visible_atoms(atom_list_of(data, order), atoms).contains(a) <==> (atom_list_of(
            data,
            order,
        ).contains(a) && !atoms.is_protocol_atom(a)),
{
    lemma_visible_contains(atom_list_of(data, order), atoms, a);
}

proof fn lemma_visible_contains(l: Seq<u32>, atoms: Atoms, a: u32)
    ensures
        visible_atoms(l, atoms).contains(a) <==> (l.contains(a) && !atoms.is_protocol_atom(a)),
    decreases l.len(),
{
    if l.len() > 0 {
        let rest = l.drop_last();
        lemma_visible_contains(rest, atoms, a);
        let vr = visible_atoms(rest, atoms);
        if l.contains(a) && !atoms.is_protocol_atom(a) {
            let k = choose|k: int| 0 <= k < l.len() && l[k] == a;
            if k < l.len() - 1 {
                assert(rest[k] == a);
                let j = choose|j: int| 0 <= j < vr.len() && vr[j] == a;
                if !atoms.is_protocol_atom(l.last()) {
                    assert(vr.push(l.last())[j] == a);
                }
            } else {
                assert(vr.push(l.last()).last() == a);
            }
        }
        if visible_atoms(l, atoms).contains(a) {
            let j = choose|j: int| 0 <= j < visible_atoms(l, atoms).len() && visible_atoms(l, atoms)[j] == a;
            if !atoms.is_protocol_atom(l.last()) && j == vr.len() {
                assert(l[l.len() - 1] == a);
            } else {
                assert(vr[j] == a);
                let k = choose|k: int| 0 <= k < rest.len() && rest[k] == a;
                assert(l[k] == a);
            }
        }
    }
}

/// Once the clipboard is cleared, no format at all is shown as available,
/// so `has` is false for every format, and the owner answers no request
/// for content; clearing again leaves the same empty payload.
pub proof fn cleared_offers_nothing(atoms: Atoms, a: u32)
    ensures
        !visible_atoms(targets_of(Seq::empty(), atoms), atoms).contains(a),
        visible_atoms(targets_of(Seq::empty(), atoms), atoms) == Seq::<u32>::empty(),
        !offers(Seq::empty(), a),
{
    let t = targets_of(Seq::empty(), atoms);
    assert(t =~= seq![atoms.targets, atoms.save_targets]);
    assert(t.drop_last() =~= seq![atoms.targets]);
    assert(t.drop_last().drop_last() =~= Seq::<u32>::empty());
    assert(atoms.is_protocol_atom(atoms.targets) && atoms.is_protocol_atom(atoms.save_targets));
    assert(visible_atoms(t.drop_last().drop_last(), atoms) == Seq::<u32>::empty());
    assert(visible_atoms(t.drop_last(), atoms) == Seq::<u32>::empty());
}

/// A request for a format the owner does not offer reads as absent data,
/// not as a protocol error: the owner notifies with no property, or the
/// property it names holds nothing.
pub proof fn unsupported_format_is_no_data(
    payload: Seq<(u32, Seq<u8>)>,
    atoms: Atoms,
    target: u32,
    v: TransferView,
    elapsed_ms: u64,
    seq: u64,
    requestor: u32,
    property: u32,
)
    requires
        !offers(payload, target),
        fresh_read(v, atoms, target),
        !deadline_passed(v, elapsed_ms),
        seq >= v.sequence,
        atoms.incr != NONE,
    ensures
        outcome_of(poll_next(v, elapsed_ms, notified(v, seq, requestor, NONE)).0)
            == Err::<Seq<u8>, ClipboardError>(ClipboardError::NoData),
        property != NONE ==> outcome_of(
            direct_read(v, elapsed_ms, seq, requestor, property, NONE, Seq::empty()).0,
        ) == Err::<Seq<u8>, ClipboardError>(ClipboardError::NoData),
{
}

/// One round of an incremental transfer that delivers chunk `c`: the
/// owner's new value is announced, its size asked, and the chunk taken.
pub open spec fn chunk_round(v: TransferView, c: Seq<u8>) -> TransferView {
    let announce = SelectionEvent::PropertyNotify { window: v.window, atom: v.property, new_value: true };
    let (v1, _) = poll_next(v, 0, Some((v.sequence, announce)));
    let (v2, _) = chunk_size_next(v1, c.len() as u32);
    chunk_next(v2, v.target, c).0
}

/// The rounds that deliver the chunks in order.
pub open spec fn chunk_rounds(v: TransferView, cs: Seq<Seq<u8>>) -> TransferView
    decreases cs.len(),
{
    if cs.len() == 0 {
        v
    } else {
        chunk_rounds(chunk_round(v, cs[0]), cs.drop_first())
    }
}

/// The chunks, joined.
pub open spec fn concat_all(cs: Seq<Seq<u8>>) -> Seq<u8>
    decreases cs.len(),
{
    if cs.len() == 0 {
        Seq::empty()
    } else {
        cs[0] + concat_all(cs.drop_first())
    }
}

/// A value too large for one transfer arrives whole through incremental
/// transfer: after the owner's `INCR` answer, the reader assembles the
/// non-empty chunks in order and completes on the empty one, with exactly
/// the value's bytes.
pub proof fn incremental_round_trip(
    v: TransferView,
    atoms: Atoms,
    target: u32,
    seq: u64,
    requestor: u32,
    property: u32,
    chunks: Seq<Seq<u8>>,
)
    requires
        fresh_read(v, atoms, target),
        !deadline_passed(v, 0),
        seq >= v.sequence,
        property != NONE,
        forall|i: int| 0 <= i < chunks.len() ==> (#[trigger] chunks[i]).len() > 0,
    ensures
        ({
            let (v1, s1) = direct_read(v, 0, seq, requestor, property, atoms.incr, Seq::empty());
            &&& s1 == ReadStep::DeleteProperty
            &&& chunk_rounds(v1, chunks.push(Seq::empty())).phase == ReadPhase::Complete
            &&& outcome_of(chunk_rounds(v1, chunks.push(Seq::empty())))
                == Ok::<Seq<u8>, ClipboardError>(concat_all(chunks))
        }),
{
    let (v1, _) = direct_read(v, 0, seq, requestor, property, atoms.incr, Seq::empty());
    assert(v1 == with_phase(v, ReadPhase::AwaitingChunkNotify));
    lemma_chunk_rounds(v1, chunks);
    assert(v1.data + concat_all(chunks) =~= concat_all(chunks));
}

proof fn lemma_chunk_rounds(v: TransferView, chunks: Seq<Seq<u8>>)
    requires
        v.phase == ReadPhase::AwaitingChunkNotify,
        !deadline_passed(v, 0),
        forall|i: int| 0 <= i < chunks.len() ==> (#[trigger] chunks[i]).len() > 0,
    ensures
        chunk_rounds(v, chunks.push(Seq::empty())) == with_data(
            v,
            ReadPhase::Complete,
            concat_all(chunks),
        ),
    decreases chunks.len(),
{
    let cs = chunks.push(Seq::empty());
    if chunks.len() == 0 {
        assert(cs.drop_first() =~= Seq::<Seq<u8>>::empty());
        assert(v.data + concat_all(chunks) =~= v.data);
        assert(chunk_round(v, cs[0]) == with_phase(v, ReadPhase::Complete));
        assert(chunk_rounds(v, cs) == chunk_rounds(chunk_round(v, cs[0]), cs.drop_first()));
        assert(chunk_rounds(with_phase(v, ReadPhase::Complete), cs.drop_first()) == with_phase(
            v,
            ReadPhase::Complete,
        ));
        assert(with_phase(v, ReadPhase::Complete) == with_data(v, ReadPhase::Complete, concat_all(chunks)));
    } else {
        let next = chunk_round(v, chunks[0]);
        assert(chunks[0].len() > 0);
        assert(next == with_data(v, ReadPhase::AwaitingChunkNotify, chunks[0]));
        let rest = chunks.drop_first();
        assert(cs.drop_first() =~= rest.push(Seq::empty()));
        assert forall|i: int| 0 <= i < rest.len() implies (#[trigger] rest[i]).len() > 0 by {
            assert(rest[i] == chunks[i + 1]);
        }
        lemma_chunk_rounds(next, rest);
        assert(cs[0] == chunks[0]);
        assert(chunk_rounds(v, cs) == chunk_rounds(next, cs.drop_first()));
        assert(next.data + concat_all(rest) =~= v.data + concat_all(chunks));
        assert(with_data(next, ReadPhase::Complete, concat_all(rest)) == with_data(
            v,
            ReadPhase::Complete,
            concat_all(chunks),
        ));
    }
}

/// Whether a line can stand in a URI list as it is: it holds no `\n` and
/// does not end with `\r`.
pub open spec fn plain_line(l: Seq<u8>) -> bool {
    &&& forall|j: int| 0 <= j < l.len() ==> l[j] != 10
    &&& (l.len() > 0 ==> l.last() != 13)
}

proof fn lemma_scan_append(a: Seq<u8>, b: Seq<u8>)
    requires
        forall|j: int| 0 <= j < b.len() ==> b[j] != 10,
    ensures
        scan_lines(a + b) == (scan_lines(a).0, scan_lines(a).1 + b),
    decreases b.len(),
{
    if b.len() == 0 {
        assert(a + b =~= a);
        assert(scan_lines(a).1 + b =~= scan_lines(a).1);
    } else {
        let ab = a + b;
        assert(ab.drop_last() =~= a + b.drop_last());
        assert(ab.last() == b.last());
        lemma_scan_append(a, b.drop_last());
        assert(scan_lines(a).1 + b.drop_last() + seq![b.last()] =~= scan_lines(a).1 + b);
        assert((scan_lines(a).1 + b.drop_last()).push(b.last()) =~= scan_lines(a).1 + b);
    }
}

proof fn lemma_scan_join(ls: Seq<Seq<u8>>)
    requires
        ls.len() > 0,
        forall|i: int| 0 <= i < ls.len() ==> plain_line(#[trigger] ls[i]),
    ensures
        scan_lines(join_lines(ls)) == (ls.drop_last(), ls.last()),
    decreases ls.len(),
{
    if ls.len() == 1 {
        lemma_scan_append(Seq::empty(), ls[0]);
        assert(Seq::<u8>::empty() + ls[0] =~= ls[0]);
        assert(ls.drop_last() =~= Seq::<Seq<u8>>::empty());
    } else {
        let rest = ls.drop_last();
        assert forall|i: int| 0 <= i < rest.len() implies plain_line(#[trigger] rest[i]) by {
            assert(rest[i] == ls[i]);
        }
        lemma_scan_join(rest);
        let x = join_lines(rest);
        let xn = x + seq![10u8];
        assert(xn.drop_last() =~= x);
        assert(plain_line(ls[rest.len() - 1]));
        assert(strip_cr(rest.last()) == rest.last());
        assert(rest.drop_last().push(rest.last()) =~= rest);
        assert(scan_lines(xn) == (rest, Seq::<u8>::empty()));
        assert(plain_line(ls.last()));
        lemma_scan_append(xn, ls.last());
        assert(Seq::<u8>::empty() + ls.last() =~= ls.last());
    }
}

proof fn lemma_keep_all_uris(ls: Seq<Seq<u8>>)
    requires
        forall|i: int| 0 <= i < ls.len() ==> file_prefix().is_prefix_of(#[trigger] ls[i]),
    ensures
        keep_uris(ls) == ls,
    decreases ls.len(),
{
    if ls.len() > 0 {
        let rest = ls.drop_last();
        assert forall|i: int| 0 <= i < rest.len() implies file_prefix().is_prefix_of(#[trigger] rest[i]) by {
            assert(rest[i] == ls[i]);
        }
        lemma_keep_all_uris(rest);
        assert(file_prefix().is_prefix_of(ls[ls.len() - 1]));
        assert(rest.push(ls.last()) =~= ls);
    }
}

/// A list of file URIs written to the clipboard reads back as the same
/// URIs, in the same order, when none of them holds a line break.
pub proof fn file_list_round_trip(files: Seq<String>, out: Seq<String>)
    requires
        forall|i: int| 0 <= i < files.len() ==> file_prefix().is_prefix_of(encode_utf8(#[trigger] files[i]@)),
        forall|i: int| 0 <= i < files.len() ==> plain_line(encode_utf8(#[trigger] files[i]@)),
        decoded_lines(out, keep_uris(lines_of(join_lines(uris_of(files))))),
    ensures
        out.len() == files.len(),
        forall|i: int| 0 <= i < files.len() ==> (#[trigger] out[i])@ == files[i]@,
{
    let ls = uris_of(files);
    assert forall|i: int| 0 <= i < ls.len() implies plain_line(#[trigger] ls[i]) by {
        assert(ls[i] == encode_utf8(files[i]@));
    }
    assert forall|i: int| 0 <= i < ls.len() implies file_prefix().is_prefix_of(#[trigger] ls[i]) by {
        assert(ls[i] == encode_utf8(files[i]@));
    }
    if ls.len() == 0 {
        assert(join_lines(ls) == Seq::<u8>::empty());
        assert(scan_lines(Seq::<u8>::empty()) == (Seq::<Seq<u8>>::empty(), Seq::<u8>::empty()));
        assert(lines_of(join_lines(ls)) =~= ls);
    } else {
        lemma_scan_join(ls);
        assert(file_prefix().is_prefix_of(ls.last()));
        assert(ls.last().len() > 0);
        assert(ls.drop_last().push(ls.last()) =~= ls);
        assert(lines_of(join_lines(ls)) == ls);
    }
    lemma_keep_all_uris(ls);
    assert forall|i: int| 0 <= i < files.len() implies (#[trigger] out[i])@ == files[i]@ by {
        assert(ls[i] == encode_utf8(files[i]@));
        encode_utf8_valid_utf8(files[i]@);
        encode_utf8_decode_utf8(files[i]@);
    }
}

} // verus!
