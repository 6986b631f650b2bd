use std::collections::HashMap;

use media_import::CancelFlag;
use media_import::DirEntry;
use media_import::Event;
use media_import::FsTime;
use media_import::ImportStep;
use media_import::Importer;
use media_import::QueuedFile;
use media_import::ScanStep;
use media_import::Scanner;

fn dir(path: &str, name: &str) -> DirEntry {
    DirEntry { path: path.to_string(), name: name.to_string(), is_dir: true }
}

fn file(path: &str, name: &str) -> DirEntry {
    DirEntry { path: path.to_string(), name: name.to_string(), is_dir: false }
}

fn queued(path: &str, name: &str) -> QueuedFile {
    QueuedFile { path: path.to_string(), name: name.to_string() }
}

/// Drives a scan over an in-memory tree: a map from directory path to its
/// listing. Returns the queued paths, or what the scanner hands back after
/// cancellation.
fn run_scan(
    root: &str,
    tree: &HashMap<String, Vec<DirEntry>>,
    flag: &CancelFlag,
    cancel_after_queued: Option<usize>,
) -> Vec<String> {
    let mut scanner = Scanner::new(root.to_string());
    let mut queued_count: usize = 0;
    loop {
        match scanner.step(flag.is_set()) {
            ScanStep::Descend { path } => {
                let listing = tree.get(&path).cloned().unwrap_or_default();
                scanner.deliver_listing(listing);
            }
            ScanStep::Queued => {
                queued_count += 1;
                if cancel_after_queued == Some(queued_count) {
                    flag.set();
                }
            }
            ScanStep::Skipped => {}
            ScanStep::Cancelled | ScanStep::Done => break,
        }
    }
    scanner.into_result().into_iter().map(|q| q.path).collect()
}

fn sample_tree() -> HashMap<String, Vec<DirEntry>> {
    let mut tree = HashMap::new();
    tree.insert(
        "root".to_string(),
        vec![
            dir("root/.cache", ".cache"),
            file("root/a.jpg", "a.jpg"),
            dir("root/sub", "sub"),
            file("root/notes.txt", "notes.txt"),
            file("root/.secret.jpg", ".secret.jpg"),
            file("root/clip.MOV", "clip.MOV"),
        ],
    );
    tree.insert(
        "root/sub".to_string(),
        vec![file("root/sub/b.PNG", "b.PNG"), dir("root/sub/deep", "deep")],
    );
    tree.insert("root/sub/deep".to_string(), vec![file("root/sub/deep/c.tif", "c.tif")]);
    tree
}

#[test]
fn scan_keeps_exactly_the_supported_visible_files() {
    let flag = CancelFlag::new();
    let result = run_scan("root", &sample_tree(), &flag, None);
    assert_eq!(
        result,
        vec![
            "root/a.jpg".to_string(),
            "root/sub/b.PNG".to_string(),
            "root/sub/deep/c.tif".to_string(),
            "root/clip.MOV".to_string(),
        ]
    );
}

#[test]
fn scan_order_is_depth_first() {
    let flag = CancelFlag::new();
    let result = run_scan("root", &sample_tree(), &flag, None);
    let b = result.iter().position(|p| p == "root/sub/b.PNG").unwrap();
    let c = result.iter().position(|p| p == "root/sub/deep/c.tif").unwrap();
    let m = result.iter().position(|p| p == "root/clip.MOV").unwrap();
    assert!(b < c && c < m);
}

#[test]
fn cancelled_scan_returns_nothing() {
    let flag = CancelFlag::new();
    let result = run_scan("root", &sample_tree(), &flag, Some(1));
    assert_eq!(result, Vec::<String>::new());
}

#[test]
fn cancelled_scan_stops_stepping() {
    let flag = CancelFlag::new();
    let mut scanner = Scanner::new("root".to_string());
    flag.set();
    assert!(matches!(scanner.step(flag.is_set()), ScanStep::Cancelled));
    assert_eq!(scanner.into_result().len(), 0);
}

/// Drives a full import over a simulated destination: a map from path to
/// file size. Every source file has size `src_size`; copies land in the
/// map. Returns the counts.
fn run_import(
    queue: Vec<QueuedFile>,
    destination: &str,
    template: &str,
    fs: &mut HashMap<String, u64>,
    src_size: u64,
    flag: &CancelFlag,
) -> (u32, u32) {
    let mut importer = Importer::new(queue, destination.to_string(), template.to_string());
    loop {
        match importer.step(flag.is_set()) {
            ImportStep::Finished | ImportStep::Cancelled => break,
            ImportStep::Ignored => {}
            ImportStep::NeedTimestamp { .. } => {
                let created = FsTime { secs: 1_700_000_000, nanos: 0 };
                let modified = FsTime { secs: 1_700_000_500, nanos: 0 };
                let mut r = importer.resolve(&None, Some(created), Some(modified));
                loop {
                    match r {
                        ImportStep::CheckDest { dest } => {
                            let exists = fs.contains_key(&dest);
                            let same = fs.get(&dest) == Some(&src_size);
                            r = importer.dest_checked(exists, same);
                        }
                        ImportStep::Copy { dest, .. } => {
                            fs.insert(dest, src_size);
                            r = importer.copy_done(true);
                        }
                        ImportStep::Skipped | ImportStep::Copied | ImportStep::Ignored => break,
                        ImportStep::TooManyAttempts => return importer.counts(),
                        _ => panic!("unexpected step inside an item"),
                    }
                }
            }
            _ => panic!("unexpected step between items"),
        }
    }
    importer.counts()
}

#[test]
fn import_copies_a_new_file() {
    let flag = CancelFlag::new();
    let mut fs = HashMap::new();
    let counts = run_import(
        vec![queued("src/a.jpg", "a.jpg")],
        "dst",
        "fixed",
        &mut fs,
        5,
        &flag,
    );
    assert_eq!(counts, (1, 0));
    assert_eq!(fs.get("dst/fixed.jpg"), Some(&5));
    assert_eq!(fs.len(), 1);
}

#[test]
fn second_identical_import_only_skips() {
    let flag = CancelFlag::new();
    let mut fs = HashMap::new();
    let queue = || vec![queued("src/a.jpg", "a.jpg"), queued("src/b.png", "b.png")];
    let first = run_import(queue(), "dst", "stamp", &mut fs, 7, &flag);
    assert_eq!(first, (2, 0));
    let before: Vec<String> = {
        let mut k: Vec<String> = fs.keys().cloned().collect();
        k.sort();
        k
    };
    let second = run_import(queue(), "dst", "stamp", &mut fs, 7, &flag);
    assert_eq!(second, (0, 2));
    let after: Vec<String> = {
        let mut k: Vec<String> = fs.keys().cloned().collect();
        k.sort();
        k
    };
    assert_eq!(before, after);
}

#[test]
fn colliding_names_get_fresh_suffixes_and_nothing_is_overwritten() {
    let flag = CancelFlag::new();
    let mut fs = HashMap::new();
    fs.insert("dst/fixed.jpg".to_string(), 99);
    fs.insert("dst/fixed_1.jpg".to_string(), 98);
    let counts = run_import(
        vec![queued("src/a.jpg", "a.jpg")],
        "dst",
        "fixed",
        &mut fs,
        5,
        &flag,
    );
    assert_eq!(counts, (1, 0));
    assert_eq!(fs.get("dst/fixed.jpg"), Some(&99));
    assert_eq!(fs.get("dst/fixed_1.jpg"), Some(&98));
    assert_eq!(fs.get("dst/fixed_2.jpg"), Some(&5));
}

#[test]
fn exhausted_collision_suffixes_stop_the_run_with_an_error() {
    let flag = CancelFlag::new();
    let mut importer = Importer::new(
        vec![queued("src/a.jpg", "a.jpg")],
        "dst".to_string(),
        "fixed".to_string(),
    );
    assert!(matches!(importer.step(flag.is_set()), ImportStep::NeedTimestamp { .. }));
    let mut r = importer.resolve(
        &None,
        Some(FsTime { secs: 1_700_000_000, nanos: 0 }),
        Some(FsTime { secs: 1_700_000_000, nanos: 0 }),
    );
    let mut probes: u64 = 0;
    loop {
        match r {
            ImportStep::CheckDest { .. } => {
                probes += 1;
                r = importer.dest_checked(true, false);
            }
            ImportStep::TooManyAttempts => break,
            _ => panic!("expected only destination checks until the cap"),
        }
    }
    assert_eq!(probes, media_import::MAX_NAME_ATTEMPTS + 1);
    assert_eq!(importer.counts(), (0, 0));
}

#[test]
fn hidden_and_extensionless_queue_items_are_dropped() {
    let flag = CancelFlag::new();
    let mut fs = HashMap::new();
    let counts = run_import(
        vec![queued("src/.sneaky.jpg", ".sneaky.jpg"), queued("src/noext", "noext")],
        "dst",
        "fixed",
        &mut fs,
        5,
        &flag,
    );
    assert_eq!(counts, (0, 0));
    assert!(fs.is_empty());
}

#[test]
fn unresolvable_timestamp_drops_the_item() {
    let flag = CancelFlag::new();
    let mut importer = Importer::new(
        vec![queued("src/a.jpg", "a.jpg")],
        "dst".to_string(),
        "fixed".to_string(),
    );
    assert!(matches!(importer.step(flag.is_set()), ImportStep::NeedTimestamp { .. }));
    let r = importer.resolve(&None, None, Some(FsTime { secs: 1, nanos: 0 }));
    assert!(matches!(r, ImportStep::Ignored));
    assert!(matches!(importer.step(flag.is_set()), ImportStep::Finished));
    assert_eq!(importer.counts(), (0, 0));
}

#[test]
fn garbage_bytes_fall_back_to_filesystem_times() {
    let flag = CancelFlag::new();
    let mut importer = Importer::new(
        vec![queued("src/a.jpg", "a.jpg")],
        "dst".to_string(),
        "fixed".to_string(),
    );
    assert!(matches!(importer.step(flag.is_set()), ImportStep::NeedTimestamp { .. }));
    let garbage = Some(vec![0u8, 1, 2, 3, 4, 5]);
    let r = importer.resolve(
        &garbage,
        Some(FsTime { secs: 1_700_000_000, nanos: 0 }),
        Some(FsTime { secs: 1_700_000_500, nanos: 0 }),
    );
    match r {
        ImportStep::CheckDest { dest } => assert_eq!(dest, "dst/fixed.jpg"),
        other => panic!("expected a destination check, got {:?}", step_name(&other)),
    }
}

#[test]
fn cancellation_mid_import_keeps_partial_counts() {
    let flag = CancelFlag::new();
    let mut fs = HashMap::new();
    let mut importer = Importer::new(
        vec![queued("src/a.jpg", "a.jpg"), queued("src/b.png", "b.png")],
        "dst".to_string(),
        "%S".to_string(),
    );
    assert!(matches!(importer.step(flag.is_set()), ImportStep::NeedTimestamp { .. }));
    let r = importer.resolve(
        &None,
        Some(FsTime { secs: 1_700_000_000, nanos: 0 }),
        Some(FsTime { secs: 1_700_000_000, nanos: 0 }),
    );
    let dest = match r {
        ImportStep::CheckDest { dest } => dest,
        _ => panic!("expected a destination check"),
    };
    assert!(matches!(importer.dest_checked(false, false), ImportStep::Copy { .. }));
    fs.insert(dest, 5u64);
    assert!(matches!(importer.copy_done(true), ImportStep::Copied));
    flag.set();
    assert!(matches!(importer.step(flag.is_set()), ImportStep::Cancelled));
    assert_eq!(importer.counts(), (1, 0));
    assert_eq!(fs.len(), 1);
}

#[test]
fn malformed_template_drops_the_item_during_import() {
    let flag = CancelFlag::new();
    let mut importer = Importer::new(
        vec![queued("src/a.jpg", "a.jpg")],
        "dst".to_string(),
        "bad%Q".to_string(),
    );
    assert!(matches!(importer.step(flag.is_set()), ImportStep::NeedTimestamp { .. }));
    let r = importer.resolve(
        &None,
        Some(FsTime { secs: 1_700_000_000, nanos: 0 }),
        Some(FsTime { secs: 1_700_000_500, nanos: 0 }),
    );
    assert!(matches!(r, ImportStep::Ignored));
}

#[test]
fn finished_import_records_the_final_progress_event() {
    let flag = CancelFlag::new();
    let mut importer = Importer::new(vec![], "dst".to_string(), "fixed".to_string());
    assert!(matches!(importer.step(flag.is_set()), ImportStep::Finished));
    let events = importer.take_events();
    assert_eq!(events.len(), 1);
    match &events[0] {
        Event::Progress(p) => {
            assert_eq!(p.status.as_deref(), Some("Finished"));
            assert_eq!(p.progress_value, Some(0));
            assert_eq!(p.progress_max, 0);
        }
        Event::Log(_) => panic!("expected a progress event"),
    }
}

#[test]
fn scan_records_progress_and_log_events() {
    let flag = CancelFlag::new();
    let mut scanner = Scanner::new("root".to_string());
    assert!(matches!(scanner.step(flag.is_set()), ScanStep::Descend { .. }));
    scanner.deliver_listing(vec![file("root/a.jpg", "a.jpg")]);
    assert!(matches!(scanner.step(flag.is_set()), ScanStep::Queued));
    let events = scanner.take_events();
    assert_eq!(events.len(), 3);
    match &events[0] {
        Event::Progress(p) => assert_eq!(p.status.as_deref(), Some("Scanning root...")),
        Event::Log(_) => panic!("expected a progress event"),
    }
    match &events[1] {
        Event::Log(m) => assert_eq!(m, "Queued root/a.jpg"),
        Event::Progress(_) => panic!("expected a log event"),
    }
    match &events[2] {
        Event::Progress(p) => {
            assert_eq!(p.status, None);
            assert_eq!(p.progress_max, 1);
        }
        Event::Log(_) => panic!("expected a progress event"),
    }
}

fn scenario_exif_bytes() -> Vec<u8> {
    let field = exif::Field {
        tag: exif::Tag::DateTimeOriginal,
        ifd_num: exif::In::PRIMARY,
        value: exif::Value::Ascii(vec![b"2024:01:02 10:00:00".to_vec()]),
    };
    let mut writer = exif::experimental::Writer::new();
    writer.push_field(&field);
    let mut cursor = std::io::Cursor::new(Vec::new());
    writer.write(&mut cursor, false).expect("encoding the metadata sample failed");
    cursor.into_inner()
}

#[test]
fn example_scenario_imports_then_skips() {
    let flag = CancelFlag::new();
    let contents = Some(scenario_exif_bytes());
    let created = Some(FsTime { secs: 1_704_189_600, nanos: 0 });
    let modified = Some(FsTime { secs: 1_704_189_900, nanos: 0 });
    let queue = || vec![queued("src/a.jpg", "a.jpg")];
    let template = "%Y/%m/%d_%H%M%S";

    let mut importer = Importer::new(queue(), "dst".to_string(), template.to_string());
    assert!(matches!(importer.step(flag.is_set()), ImportStep::NeedTimestamp { .. }));
    let dest = match importer.resolve(&contents, created, modified) {
        ImportStep::CheckDest { dest } => dest,
        _ => panic!("expected a destination check"),
    };
    assert_eq!(dest, "dst/2024/01/02_100000.jpg");
    assert!(matches!(importer.dest_checked(false, false), ImportStep::Copy { .. }));
    assert!(matches!(importer.copy_done(true), ImportStep::Copied));
    assert!(matches!(importer.step(flag.is_set()), ImportStep::Finished));
    assert_eq!(importer.counts(), (1, 0));

    let mut second = Importer::new(queue(), "dst".to_string(), template.to_string());
    assert!(matches!(second.step(flag.is_set()), ImportStep::NeedTimestamp { .. }));
    assert!(matches!(second.resolve(&contents, created, modified), ImportStep::CheckDest { .. }));
    assert!(matches!(second.dest_checked(true, true), ImportStep::Skipped));
    assert!(matches!(second.step(flag.is_set()), ImportStep::Finished));
    assert_eq!(second.counts(), (0, 1));
}

#[test]
fn cancelled_import_still_records_the_final_progress_event() {
    let flag = CancelFlag::new();
    let mut importer = Importer::new(
        vec![queued("src/a.jpg", "a.jpg"), queued("src/b.png", "b.png")],
        "dst".to_string(),
        "fixed".to_string(),
    );
    flag.set();
    assert!(matches!(importer.step(flag.is_set()), ImportStep::Cancelled));
    let events = importer.take_events();
    assert_eq!(events.len(), 1);
    match &events[0] {
        Event::Progress(p) => {
            assert_eq!(p.status.as_deref(), Some("Finished"));
            assert_eq!(p.progress_value, Some(2));
            assert_eq!(p.progress_max, 2);
        }
        Event::Log(_) => panic!("expected a progress event"),
    }
    assert_eq!(importer.counts(), (0, 0));
}

#[test]
fn directory_read_failure_abandons_the_scan() {
    let flag = CancelFlag::new();
    let mut scanner = Scanner::new("root".to_string());
    assert!(matches!(scanner.step(flag.is_set()), ScanStep::Descend { .. }));
    scanner.listing_error();
    assert!(scanner.failed);
    assert!(!scanner.awaiting);
}

fn step_name(step: &ImportStep) -> &'static str {
    match step {
        ImportStep::Cancelled => "Cancelled",
        ImportStep::Finished => "Finished",
        ImportStep::Ignored => "Ignored",
        ImportStep::NeedTimestamp { .. } => "NeedTimestamp",
        ImportStep::CheckDest { .. } => "CheckDest",
        ImportStep::Copy { .. } => "Copy",
        ImportStep::Skipped => "Skipped",
        ImportStep::Copied => "Copied",
        ImportStep::TooManyAttempts => "TooManyAttempts",
    }
}
