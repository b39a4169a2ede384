use clipboard_rs::atoms::NONE;
use clipboard_rs::facade::{decode_text, files_from_read, has_format, parse_uri_list, visible_formats};
use clipboard_rs::payload::{file_entries, uri_list};
use clipboard_rs::{
    build_payload, check_ownership, parse_atom_list, AtomCache, Atoms, ByteOrder, ClipboardContent,
    ClipboardError, OwnerReply, PendingTransfer, ReadPhase, ReadStep, SelectionEvent, SelectionOwner,
};

const OWNER_WINDOW: u32 = 200;
const READER_WINDOW: u32 = 100;
const REQUEST_SEQ: u64 = 7;

fn atoms() -> Atoms {
    Atoms {
        clipboard: 69,
        clipboard_manager: 70,
        property: 71,
        save_targets: 72,
        targets: 73,
        atom: 4,
        incr: 74,
        timestamp: 75,
        multiple: 76,
        utf8_string: 77,
        utf8_mime_0: 78,
        utf8_mime_1: 79,
        string: 31,
        text: 80,
        text_mime_unknown: 81,
        rtf: 82,
        rtf_1: 83,
        html: 84,
        png_mime: 85,
        file_list: 86,
        gnome_copy_files: 87,
        nautilus_file_list: 88,
    }
}

fn encode_atoms(list: &[u32]) -> Vec<u8> {
    let mut out = Vec::new();
    for a in list {
        out.extend_from_slice(&a.to_le_bytes());
    }
    out
}

/// Drives one direct read of `target` against `owner`, as the two
/// connections would exchange it.
fn read_from(owner: &SelectionOwner, atoms: &Atoms, target: u32) -> Result<Vec<u8>, ClipboardError> {
    let mut t = PendingTransfer::new(atoms, atoms.clipboard, target, atoms.property, READER_WINDOW, REQUEST_SEQ, None);
    assert_eq!(t.on_poll(0, None), ReadStep::Sleep);
    assert_eq!(t.on_poll(0, Some((REQUEST_SEQ - 1, SelectionEvent::Other))), ReadStep::Poll);
    let reply = owner.respond(target, atoms);
    let property = reply.notify_property(atoms.property);
    let step = t.on_poll(
        10,
        Some((REQUEST_SEQ, SelectionEvent::SelectionNotify { selection: atoms.clipboard, requestor: READER_WINDOW, property })),
    );
    match step {
        ReadStep::GetValue { window, property: p, type_ } => {
            assert_eq!(window, READER_WINDOW);
            assert_eq!(p, atoms.property);
            let (ty, value) = match reply {
                OwnerReply::Targets(list) => (atoms.atom, encode_atoms(&list)),
                OwnerReply::Entry(i) => (target, owner.entry_data(i).to_vec()),
                OwnerReply::Refuse => (NONE, Vec::new()),
            };
            if target == atoms.targets {
                assert_eq!(type_, atoms.atom);
            } else {
                assert_eq!(type_, target);
            }
            assert_eq!(t.on_value(ty, &value, None), ReadStep::Done);
        }
        ReadStep::Done => {}
        other => panic!("unexpected step {:?}", other),
    }
    t.finish()
}

fn owner_with(contents: Vec<ClipboardContent>) -> SelectionOwner {
    let atoms = atoms();
    let payload = build_payload(&contents, &atoms, &AtomCache::new()).unwrap();
    let mut owner = SelectionOwner::new();
    owner.replace(payload);
    owner
}

#[test]
fn text_round_trip_through_owner_and_reader() {
    let atoms = atoms();
    let text = "hell@$#%^&U都98好的😊o Rust!!!";
    let owner = owner_with(vec![ClipboardContent::Text(text.to_string())]);
    let bytes = read_from(&owner, &atoms, atoms.utf8_string).unwrap();
    assert_eq!(bytes, text.as_bytes());
    assert_eq!(decode_text(Ok(bytes)), text);
}

#[test]
fn multi_format_write_offers_all_formats_together() {
    let atoms = atoms();
    let plain = "hell@$#%^&U都98好的😊o Rust!!!";
    let rich = "\x1b[1m\x1b[4m\x1b[31mHello, Rust!\x1b[0m";
    let html = "<html><body><h1>Hello, Rust!</h1></body></html>";
    let mut owner = owner_with(vec![ClipboardContent::Text("old".to_string())]);
    let payload = build_payload(
        &vec![
            ClipboardContent::Text(plain.to_string()),
            ClipboardContent::Rtf(rich.to_string()),
            ClipboardContent::Html(html.to_string()),
        ],
        &atoms,
        &AtomCache::new(),
    )
    .unwrap();
    owner.replace(payload);
    assert_eq!(owner.len(), 3);
    match owner.respond(atoms.targets, &atoms) {
        OwnerReply::Targets(list) => {
            assert_eq!(list, vec![atoms.targets, atoms.save_targets, atoms.utf8_string, atoms.rtf, atoms.html]);
        }
        _ => panic!("expected a target list"),
    }
    assert_eq!(decode_text(read_from(&owner, &atoms, atoms.utf8_string)), plain);
    assert_eq!(decode_text(read_from(&owner, &atoms, atoms.rtf)), rich);
    assert_eq!(decode_text(read_from(&owner, &atoms, atoms.html)), html);
}

#[test]
fn has_agrees_with_available_formats() {
    let atoms = atoms();
    let owner = owner_with(vec![
        ClipboardContent::Text("a".to_string()),
        ClipboardContent::Html("<b>a</b>".to_string()),
    ]);
    let read = read_from(&owner, &atoms, atoms.targets);
    let data = read.clone().unwrap();
    let visible = visible_formats(&data, ByteOrder::Little, &atoms).unwrap();
    assert_eq!(visible, vec![atoms.utf8_string, atoms.html]);
    for a in [atoms.utf8_string, atoms.rtf, atoms.html, atoms.png_mime, atoms.file_list] {
        assert_eq!(has_format(&read, ByteOrder::Little, &atoms, Some(a)), visible.contains(&a));
    }
    // the protocol's own atoms are listed in the reply but never shown
    for a in [atoms.targets, atoms.save_targets] {
        assert!(!visible.contains(&a));
        assert!(!has_format(&read, ByteOrder::Little, &atoms, Some(a)));
    }
    assert!(!has_format(&read, ByteOrder::Little, &atoms, None));
    assert!(!has_format(&Err(ClipboardError::NoData), ByteOrder::Little, &atoms, Some(atoms.html)));
}

#[test]
fn clear_removes_every_format_and_can_repeat() {
    let atoms = atoms();
    let mut owner = owner_with(vec![ClipboardContent::Text("x".to_string())]);
    owner.replace(Vec::new());
    owner.replace(Vec::new());
    assert_eq!(owner.len(), 0);
    let read = read_from(&owner, &atoms, atoms.targets);
    assert_eq!(visible_formats(&read.clone().unwrap(), ByteOrder::Little, &atoms).unwrap(), Vec::<u32>::new());
    for a in [atoms.utf8_string, atoms.rtf, atoms.html, atoms.png_mime, atoms.file_list] {
        assert!(!has_format(&read, ByteOrder::Little, &atoms, Some(a)));
        assert!(!has_format(&read, ByteOrder::Little, &atoms, Some(atoms.targets)));
        assert!(!has_format(&read, ByteOrder::Little, &atoms, Some(atoms.save_targets)));
        assert_eq!(read_from(&owner, &atoms, a), Err(ClipboardError::NoData));
    }
}

#[test]
fn selection_clear_drops_payload_only_for_clipboard() {
    let atoms = atoms();
    let mut owner = owner_with(vec![ClipboardContent::Text("x".to_string())]);
    owner.on_selection_clear(atoms.clipboard_manager, &atoms);
    assert_eq!(owner.len(), 1);
    owner.on_selection_clear(atoms.clipboard, &atoms);
    assert_eq!(owner.len(), 0);
}

#[test]
fn incremental_transfer_assembles_large_value() {
    let atoms = atoms();
    let total: usize = 5 * 1024 * 1024 + 17;
    let value: Vec<u8> = (0..total).map(|i| (i % 251) as u8).collect();
    let mut t = PendingTransfer::new(&atoms, atoms.clipboard, atoms.png_mime, atoms.property, READER_WINDOW, REQUEST_SEQ, None);
    let step = t.on_poll(
        0,
        Some((REQUEST_SEQ, SelectionEvent::SelectionNotify { selection: atoms.clipboard, requestor: READER_WINDOW, property: atoms.property })),
    );
    assert_eq!(step, ReadStep::GetValue { window: READER_WINDOW, property: atoms.property, type_: atoms.png_mime });
    assert_eq!(t.on_value(atoms.incr, &(total as u32).to_le_bytes(), Some(total as u32)), ReadStep::DeleteProperty);
    assert_eq!(t.phase(), ReadPhase::AwaitingChunkNotify);
    let chunk_size = 256 * 1024;
    let mut offset = 0;
    let mut seq = REQUEST_SEQ + 1;
    loop {
        let end = usize::min(offset + chunk_size, total);
        let chunk = &value[offset..end];
        // a deletion is not an announcement of a new value
        let deleted = SelectionEvent::PropertyNotify { window: READER_WINDOW, atom: atoms.property, new_value: false };
        assert_eq!(t.on_poll(0, Some((seq, deleted))), ReadStep::Poll);
        let announced = SelectionEvent::PropertyNotify { window: READER_WINDOW, atom: atoms.property, new_value: true };
        assert_eq!(t.on_poll(0, Some((seq, announced))), ReadStep::GetChunkSize);
        assert_eq!(t.on_chunk_size(chunk.len() as u32), ReadStep::TakeChunk { length: chunk.len() as u32 });
        let step = t.on_chunk(atoms.png_mime, chunk);
        seq += 1;
        if chunk.is_empty() {
            assert_eq!(step, ReadStep::Done);
            break;
        }
        assert_eq!(step, ReadStep::Poll);
        offset = end;
    }
    let got = t.finish().unwrap();
    assert_eq!(got.len(), value.len());
    assert!(got == value);
}

#[test]
fn incremental_chunk_of_other_type_is_skipped() {
    let atoms = atoms();
    let mut t = PendingTransfer::new(&atoms, atoms.clipboard, atoms.html, atoms.property, READER_WINDOW, 1, None);
    t.on_poll(0, Some((1, SelectionEvent::SelectionNotify { selection: atoms.clipboard, requestor: READER_WINDOW, property: atoms.property })));
    t.on_value(atoms.incr, &[], None);
    let announced = SelectionEvent::PropertyNotify { window: READER_WINDOW, atom: atoms.property, new_value: true };
    t.on_poll(0, Some((2, announced)));
    t.on_chunk_size(3);
    assert_eq!(t.on_chunk(atoms.rtf, b"bad"), ReadStep::Poll);
    t.on_poll(0, Some((3, announced)));
    t.on_chunk_size(2);
    assert_eq!(t.on_chunk(atoms.html, b"ok"), ReadStep::Poll);
    t.on_poll(0, Some((4, announced)));
    t.on_chunk_size(0);
    assert_eq!(t.on_chunk(atoms.html, b""), ReadStep::Done);
    assert_eq!(t.finish().unwrap(), b"ok".to_vec());
}

#[test]
fn nonexistent_format_reads_as_no_data() {
    let atoms = atoms();
    let owner = owner_with(vec![ClipboardContent::Text("x".to_string())]);
    let mut names = AtomCache::new();
    names.insert("nonexistent/type".to_string(), 500);
    let atom = names.lookup(&"nonexistent/type".to_string()).unwrap();
    assert!(matches!(owner.respond(atom, &atoms), OwnerReply::Refuse));
    assert_eq!(read_from(&owner, &atoms, atom), Err(ClipboardError::NoData));
    // a notification that names a property the owner left empty
    let mut t = PendingTransfer::new(&atoms, atoms.clipboard, atom, atoms.property, READER_WINDOW, 1, None);
    t.on_poll(0, Some((1, SelectionEvent::SelectionNotify { selection: atoms.clipboard, requestor: READER_WINDOW, property: atoms.property })));
    assert_eq!(t.on_value(NONE, &[], None), ReadStep::Done);
    assert_eq!(t.finish(), Err(ClipboardError::NoData));
}

#[test]
fn reply_of_unexpected_type_is_a_mismatch() {
    let atoms = atoms();
    let mut t = PendingTransfer::new(&atoms, atoms.clipboard, atoms.html, atoms.property, READER_WINDOW, 1, None);
    t.on_poll(0, Some((1, SelectionEvent::SelectionNotify { selection: atoms.clipboard, requestor: READER_WINDOW, property: atoms.property })));
    assert_eq!(t.on_value(atoms.utf8_string, b"abc", None), ReadStep::Done);
    assert_eq!(t.finish(), Err(ClipboardError::TypeMismatch));
}

#[test]
fn notification_for_other_selection_is_ignored() {
    let atoms = atoms();
    let mut t = PendingTransfer::new(&atoms, atoms.clipboard, atoms.html, atoms.property, READER_WINDOW, 1, None);
    let other = SelectionEvent::SelectionNotify { selection: atoms.clipboard_manager, requestor: READER_WINDOW, property: atoms.property };
    assert_eq!(t.on_poll(0, Some((1, other))), ReadStep::Poll);
    assert_eq!(t.phase(), ReadPhase::AwaitingNotify);
}

#[test]
fn deadline_ends_read_with_timeout() {
    let atoms = atoms();
    let mut t = PendingTransfer::new(&atoms, atoms.clipboard, atoms.html, atoms.property, READER_WINDOW, 1, Some(100));
    assert_eq!(t.on_poll(99, None), ReadStep::Sleep);
    assert_eq!(t.on_poll(100, None), ReadStep::Done);
    assert_eq!(t.finish(), Err(ClipboardError::Timeout));
}

#[test]
fn reply_out_of_order_is_a_protocol_error() {
    let atoms = atoms();
    let mut t = PendingTransfer::new(&atoms, atoms.clipboard, atoms.html, atoms.property, READER_WINDOW, 1, None);
    assert_eq!(t.on_chunk(atoms.html, b"x"), ReadStep::Done);
    assert_eq!(t.finish(), Err(ClipboardError::Protocol));
    let unfinished = PendingTransfer::new(&atoms, atoms.clipboard, atoms.html, atoms.property, READER_WINDOW, 1, None);
    assert_eq!(unfinished.finish(), Err(ClipboardError::Protocol));
}

#[test]
fn files_round_trip_in_order() {
    let atoms = atoms();
    let files = vec!["file:///tmp/a.txt".to_string(), "file:///tmp/b.txt".to_string()];
    let owner = owner_with(vec![ClipboardContent::Files(files.clone())]);
    let read = read_from(&owner, &atoms, atoms.file_list);
    assert_eq!(files_from_read(read), files);
}

#[test]
fn file_paths_become_uris_under_three_formats() {
    let atoms = atoms();
    let files = vec!["/tmp/clipboard_rs_test_file1.txt".to_string(), "file:///tmp/b.txt".to_string()];
    let list = uri_list(&files);
    assert_eq!(list, b"file:///tmp/clipboard_rs_test_file1.txt\nfile:///tmp/b.txt".to_vec());
    let entries = file_entries(&files, &atoms);
    assert_eq!(entries.len(), 3);
    assert_eq!(entries[0].format, atoms.file_list);
    assert_eq!(entries[0].data, list);
    assert_eq!(entries[1].format, atoms.gnome_copy_files);
    assert_eq!(entries[1].data, [b"copy\n".to_vec(), list.clone()].concat());
    assert_eq!(entries[2].format, atoms.nautilus_file_list);
    assert_eq!(entries[2].data, entries[1].data);
}

#[test]
fn uri_list_lines_are_filtered_and_trimmed() {
    let data = b"# comment\r\nfile:///a\r\nhttp://x\nfile:///b\r\n\nfile:///c\r";
    assert_eq!(parse_uri_list(data), vec!["file:///a".to_string(), "file:///b".to_string(), "file:///c\r".to_string()]);
    assert_eq!(parse_uri_list(b""), Vec::<String>::new());
    assert_eq!(files_from_read(Err(ClipboardError::NoData)), Vec::<String>::new());
}

#[test]
fn invalid_utf8_is_replaced_when_decoding() {
    assert_eq!(decode_text(Ok(vec![b'a', 0xff, b'b'])), "a\u{FFFD}b");
    assert_eq!(decode_text(Err(ClipboardError::NoData)), "");
    assert_eq!(parse_uri_list(&[b'f', b'i', b'l', b'e', b':', b'/', b'/', 0xc3]), vec!["file://\u{FFFD}".to_string()]);
}

#[test]
fn atom_list_decodes_in_both_byte_orders() {
    assert_eq!(parse_atom_list(&[1, 0, 0, 0, 0x78, 0x56, 0x34, 0x12], ByteOrder::Little), Ok(vec![1, 0x12345678]));
    assert_eq!(parse_atom_list(&[0, 0, 0, 1, 0xff, 0xff, 0xff, 0xff], ByteOrder::Big), Ok(vec![1, u32::MAX]));
    assert_eq!(parse_atom_list(&[], ByteOrder::Little), Ok(vec![]));
    assert_eq!(parse_atom_list(&[1, 2, 3], ByteOrder::Little), Err(ClipboardError::Protocol));
    let atoms = atoms();
    assert_eq!(visible_formats(&[1, 2, 3, 4, 5], ByteOrder::Little, &atoms), Err(ClipboardError::Protocol));
}

#[test]
fn ownership_holds_only_for_own_window() {
    assert_eq!(check_ownership(Some(OWNER_WINDOW), OWNER_WINDOW), Ok(()));
    assert_eq!(check_ownership(Some(OWNER_WINDOW + 1), OWNER_WINDOW), Err(ClipboardError::Ownership));
    assert_eq!(check_ownership(None, OWNER_WINDOW), Err(ClipboardError::Ownership));
}

#[test]
fn refused_request_notifies_with_no_property() {
    assert_eq!(OwnerReply::Refuse.notify_property(71), NONE);
    assert_eq!(OwnerReply::Entry(0).notify_property(71), 71);
    assert_eq!(OwnerReply::Targets(vec![]).notify_property(71), 71);
}

#[test]
fn atom_cache_resolves_each_name_once() {
    let mut names = AtomCache::new();
    assert_eq!(names.lookup(&"image/webp".to_string()), None);
    names.insert("image/webp".to_string(), 300);
    names.insert("image/webp".to_string(), 301);
    names.insert("text/csv".to_string(), 302);
    assert_eq!(names.lookup(&"image/webp".to_string()), Some(300));
    assert_eq!(names.lookup(&"text/csv".to_string()), Some(302));
}

#[test]
fn custom_formats_need_resolved_names() {
    let atoms = atoms();
    let contents = vec![ClipboardContent::Other("text/csv".to_string(), vec![1, 2, 3])];
    let empty = AtomCache::new();
    assert_eq!(build_payload(&contents, &atoms, &empty).err(), Some(ClipboardError::UnresolvedFormat));
    let mixed = vec![ClipboardContent::Text("a".to_string()), ClipboardContent::Other("text/csv".to_string(), vec![1])];
    assert_eq!(build_payload(&mixed, &atoms, &empty).err(), Some(ClipboardError::UnresolvedFormat));
    let mut names = AtomCache::new();
    names.insert("text/csv".to_string(), 302);
    let payload = build_payload(&contents, &atoms, &names).unwrap();
    assert_eq!(payload.len(), 1);
    assert_eq!(payload[0].format, 302);
    assert_eq!(payload[0].data, vec![1, 2, 3]);
}

#[test]
fn error_messages_name_the_failure() {
    assert_eq!(ClipboardError::TypeMismatch.message(), "clipboard data type mismatch");
    assert_eq!(ClipboardError::Timeout.message(), "timeout while waiting for clipboard data");
}
