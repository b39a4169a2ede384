use clipboard_rs::common::{ContentData, RustImage, RustImageData};
use clipboard_rs::facade::{content_from_read, image_from_read};
use clipboard_rs::payload::{encode_images, payload_from};
use clipboard_rs::{
    build_payload, AtomCache, Atoms, ClipboardContent, ClipboardError, ClipboardHandler, ClipboardWatcher,
    ClipboardWatcherContext, ContentFormat, FilterType, WatchEvent, WatchStep,
};
use std::sync::{Arc, Mutex};
use std::time::{Duration, Instant};

fn atoms() -> Atoms {
    Atoms {
        clipboard: 1,
        clipboard_manager: 2,
        property: 3,
        save_targets: 5,
        targets: 6,
        atom: 4,
        incr: 7,
        timestamp: 8,
        multiple: 9,
        utf8_string: 10,
        utf8_mime_0: 11,
        utf8_mime_1: 12,
        string: 31,
        text: 13,
        text_mime_unknown: 14,
        rtf: 15,
        rtf_1: 16,
        html: 17,
        png_mime: 18,
        file_list: 19,
        gnome_copy_files: 20,
        nautilus_file_list: 21,
    }
}

fn small_image() -> RustImageData {
    RustImageData::from_dynamic_image(image::DynamicImage::new_rgba8(6, 4))
}

#[test]
fn content_reports_its_format_and_bytes() {
    let text = ClipboardContent::Text("héllo".to_string());
    assert!(matches!(text.get_format(), ContentFormat::Text));
    assert_eq!(text.as_bytes(), "héllo".as_bytes());
    assert_eq!(text.as_str(), Ok("héllo"));

    let other = ClipboardContent::Other("text/csv".to_string(), vec![b'a', b',', b'b']);
    match other.get_format() {
        ContentFormat::Other(name) => assert_eq!(name, "text/csv"),
        _ => panic!("unexpected format"),
    }
    assert_eq!(other.as_bytes(), b"a,b");
    assert_eq!(other.as_str(), Ok("a,b"));

    let binary = ClipboardContent::Other("application/x".to_string(), vec![0xff, 0xfe]);
    assert_eq!(binary.as_str(), Err(ClipboardError::InvalidUtf8));

    let files = ClipboardContent::Files(vec!["file:///a".to_string(), "file:///b".to_string()]);
    assert_eq!(files.as_bytes(), b"file:///a");
    assert_eq!(files.as_str(), Ok("file:///a"));
    let no_files = ClipboardContent::Files(vec![]);
    assert_eq!(no_files.as_bytes(), b"");
    assert_eq!(no_files.as_str(), Err(ClipboardError::NoData));

    let img = ClipboardContent::Image(RustImageData::empty());
    assert!(matches!(img.get_format(), ContentFormat::Image));
    assert_eq!(img.as_bytes(), b"");
    assert_eq!(img.as_str(), Err(ClipboardError::NotText));
}

#[test]
fn image_round_trips_through_png() {
    let img = small_image();
    assert!(!img.is_empty());
    assert_eq!(img.get_size(), (6, 4));
    let png = img.to_png().unwrap();
    assert_eq!(&png.get_bytes()[1..4], b"PNG");
    let back = RustImageData::from_bytes(png.get_bytes()).unwrap();
    assert_eq!(back.get_size(), (6, 4));
    assert_eq!(back.to_png().unwrap().into_inner(), png.into_inner());
    let jpeg = img.to_jpeg().unwrap();
    assert_eq!(&jpeg.get_bytes()[0..2], &[0xff, 0xd8]);
}

#[test]
fn image_scaling_changes_size() {
    let img = small_image();
    assert_eq!(img.thumbnail(3, 3).unwrap().get_size(), (3, 2));
    assert_eq!(img.resize(10, 1, FilterType::Nearest).unwrap().get_size(), (10, 1));
    assert!(img.get_dynamic_image().is_ok());
}

#[test]
fn empty_image_refuses_image_operations() {
    let empty = RustImageData::empty();
    assert!(empty.is_empty());
    assert_eq!(empty.get_size(), (0, 0));
    assert_eq!(empty.to_png().err(), Some(ClipboardError::EmptyImage));
    assert_eq!(empty.thumbnail(1, 1).err(), Some(ClipboardError::EmptyImage));
    assert_eq!(empty.resize(1, 1, FilterType::Nearest).err(), Some(ClipboardError::EmptyImage));
    assert_eq!(empty.get_dynamic_image().err(), Some(ClipboardError::EmptyImage));
    let atoms = atoms();
    let contents = vec![ClipboardContent::Image(RustImageData::empty())];
    assert_eq!(build_payload(&contents, &atoms, &AtomCache::new()).err(), Some(ClipboardError::EmptyImage));
}

#[test]
fn undecodable_image_bytes_are_a_codec_error() {
    assert_eq!(RustImageData::from_bytes(b"not an image").err(), Some(ClipboardError::ImageCodec));
    assert_eq!(image_from_read(Ok(b"not an image".to_vec())).err(), Some(ClipboardError::ImageCodec));
    assert_eq!(image_from_read(Err(ClipboardError::NoData)).err(), Some(ClipboardError::NoData));
}

#[test]
fn image_content_is_offered_as_png() {
    let atoms = atoms();
    let contents = vec![ClipboardContent::Image(small_image())];
    let payload = build_payload(&contents, &atoms, &AtomCache::new()).unwrap();
    assert_eq!(payload.len(), 1);
    assert_eq!(payload[0].format, atoms.png_mime);
    let back = image_from_read(Ok(payload[0].data.clone())).unwrap();
    assert_eq!(back.get_size(), (6, 4));
}

#[test]
fn read_results_become_content_or_are_skipped() {
    match content_from_read(&ContentFormat::Html, Ok(b"<b>x</b>".to_vec())) {
        Some(ClipboardContent::Html(s)) => assert_eq!(s, "<b>x</b>"),
        _ => panic!("unexpected format"),
    }
    match content_from_read(&ContentFormat::Other("a/b".to_string()), Ok(vec![1, 2])) {
        Some(ClipboardContent::Other(n, d)) => {
            assert_eq!(n, "a/b");
            assert_eq!(d, vec![1, 2]);
        }
        _ => panic!("unexpected format"),
    }
    match content_from_read(&ContentFormat::Files, Ok(b"file:///x\nfile:///y".to_vec())) {
        Some(ClipboardContent::Files(f)) => assert_eq!(f, vec!["file:///x".to_string(), "file:///y".to_string()]),
        _ => panic!("unexpected format"),
    }
    assert!(content_from_read(&ContentFormat::Text, Err(ClipboardError::NoData)).is_none());
    assert!(content_from_read(&ContentFormat::Image, Ok(vec![1, 2, 3])).is_none());
    let png = small_image().to_png().unwrap().into_inner();
    match content_from_read(&ContentFormat::Image, Ok(png)) {
        Some(ClipboardContent::Image(img)) => assert_eq!(img.get_size(), (6, 4)),
        _ => panic!("unexpected format"),
    }
    let text = "hell@$#%^&U都98好的😊o Rust!!!";
    match content_from_read(&ContentFormat::Text, Ok(text.as_bytes().to_vec())) {
        Some(c) => assert_eq!(c.as_str(), Ok(text)),
        None => panic!("text was skipped"),
    }
}

struct Recorder {
    id: usize,
    log: Arc<Mutex<Vec<usize>>>,
}

impl ClipboardHandler for Recorder {
    fn on_clipboard_change(&mut self) {
        self.log.lock().unwrap().push(self.id);
    }
}

#[test]
fn handlers_run_in_registration_order_on_owner_change() {
    let log = Arc::new(Mutex::new(Vec::new()));
    let mut watcher = ClipboardWatcherContext::new().unwrap();
    watcher
        .add_handler(Recorder { id: 1, log: log.clone() })
        .add_handler(Recorder { id: 2, log: log.clone() });
    assert_eq!(watcher.on_tick(false, WatchEvent::Other), WatchStep::Continue);
    assert_eq!(watcher.on_tick(false, WatchEvent::Nothing), WatchStep::Continue);
    assert!(log.lock().unwrap().is_empty());
    assert_eq!(watcher.on_tick(false, WatchEvent::OwnerChanged), WatchStep::Continue);
    assert_eq!(watcher.on_tick(false, WatchEvent::OwnerChanged), WatchStep::Continue);
    assert_eq!(*log.lock().unwrap(), vec![1, 2, 1, 2]);
    assert_eq!(watcher.on_tick(true, WatchEvent::OwnerChanged), WatchStep::Stop);
    assert_eq!(*log.lock().unwrap(), vec![1, 2, 1, 2]);
}

#[test]
fn dropping_the_shutdown_token_ends_the_watch() {
    let watcher: ClipboardWatcherContext<Recorder> = ClipboardWatcherContext::new().unwrap();
    let shutdown = watcher.get_shutdown_channel();
    drop(shutdown);
    let began = Instant::now();
    assert!(watcher.wait_for_stop());
    assert!(began.elapsed() < Duration::from_millis(600));
}

#[test]
fn watch_ends_within_one_poll_interval_after_stop() {
    let mut watcher: ClipboardWatcherContext<Recorder> = ClipboardWatcherContext::new().unwrap();
    let shutdown = watcher.get_shutdown_channel();
    let began = Instant::now();
    assert!(!watcher.wait_for_stop());
    assert!(began.elapsed() >= Duration::from_millis(400));
    let began = Instant::now();
    shutdown.stop();
    let mut rounds = 0;
    loop {
        let stopped = watcher.wait_for_stop();
        rounds += 1;
        if watcher.on_tick(stopped, WatchEvent::Nothing) == WatchStep::Stop {
            break;
        }
        assert!(rounds < 2);
    }
    assert!(began.elapsed() < Duration::from_millis(600));
}

#[test]
fn images_are_offered_as_their_png_bytes() {
    let atoms = atoms();
    let contents = vec![
        ClipboardContent::Image(small_image()),
        ClipboardContent::Text("between".to_string()),
        ClipboardContent::Image(RustImageData::from_dynamic_image(image::DynamicImage::new_rgb8(1, 1))),
    ];
    let pngs = encode_images(&contents).unwrap();
    assert_eq!(pngs.len(), 2);
    assert_eq!(pngs[0], small_image().to_png().unwrap().into_inner());
    let payload = payload_from(&contents, &atoms, &AtomCache::new(), &pngs).unwrap();
    assert_eq!(payload.len(), 3);
    assert_eq!(payload[0].format, atoms.png_mime);
    assert_eq!(payload[0].data, pngs[0]);
    assert_eq!(payload[1].format, atoms.utf8_string);
    assert_eq!(payload[1].data, b"between".to_vec());
    assert_eq!(payload[2].format, atoms.png_mime);
    assert_eq!(payload[2].data, pngs[1]);
    let given = vec![vec![1u8, 2], vec![3u8]];
    let payload = payload_from(&contents, &atoms, &AtomCache::new(), &given).unwrap();
    assert_eq!(payload[0].data, vec![1, 2]);
    assert_eq!(payload[2].data, vec![3]);
    let built = build_payload(&contents, &atoms, &AtomCache::new()).unwrap();
    assert_eq!(built[0].data, pngs[0]);
    assert_eq!(built[2].data, pngs[1]);
}
