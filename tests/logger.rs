use logger::{
    contains_text, read_contains, stamp_line, timestamp_line, Emit, Logger, OpenFlags, OpenMode,
    Sink, Stamp,
};

/// Carries out a list of emissions on a logger whose file is held in memory,
/// returning what went to the console.
fn perform(l: &mut Logger<Vec<u8>>, acts: Vec<Emit>) -> String {
    let mut console = String::new();
    for e in acts {
        match e.sink {
            Sink::Console => console.push_str(&e.text),
            Sink::File => {
                if let Some(f) = l.fl.as_mut() {
                    f.extend_from_slice(e.text.as_bytes());
                }
            }
        }
    }
    console
}

fn file_string(l: &Logger<Vec<u8>>) -> String {
    String::from_utf8(l.fl.clone().unwrap()).unwrap()
}

fn stamp(year: i32, month: u32, day: u32, offset_secs: i32) -> Stamp {
    Stamp { year, month, day, hour: 10, minute: 52, second: 37, offset_secs }
}

#[test]
fn test_new() {
    let l: Logger<Vec<u8>> = Logger::new();
    assert!(l.fl.is_none());
    assert_eq!(l.console, true);
    assert_eq!(l.has_file(), false);
}

#[test]
fn test_init() {
    let l = Logger::init(vec![1u8, 2], false);
    assert_eq!(l.fl, Some(vec![1u8, 2]));
    assert_eq!(l.console, false);
}

#[test]
fn test_console() {
    let mut l: Logger<Vec<u8>> = Logger::new();
    assert_eq!(l.console == true, true);
    l.console(false);
    assert_eq!(l.console == false, true);
}

#[test]
fn test_file() {
    let mut l: Logger<Vec<u8>> = Logger::new();
    l.file(vec![7u8]);
    assert_eq!(l.fl, Some(vec![7u8]));
    l.file(vec![8u8]);
    assert_eq!(l.fl, Some(vec![8u8]));
    assert_eq!(l.console, true);
}

#[test]
fn test_opt() {
    let mut l: Logger<Vec<u8>> = Logger::new();
    l.opt(Some(Vec::new()));
    assert_eq!(l.fl.is_some(), true);
    l.opt(None);
    assert_eq!(l.fl.is_none(), true);
}

#[test]
fn test_open() {
    let mut l: Logger<Vec<u8>> = Logger::new();
    assert_eq!(l.attach_opened(Some(Vec::new())), true);
    assert_eq!(l.has_file(), true);
}

#[test]
fn failed_open_leaves_no_file() {
    let mut l: Logger<Vec<u8>> = Logger::init(vec![1u8], true);
    assert_eq!(l.attach_opened(None), false);
    assert!(l.fl.is_none());
    assert_eq!(l.console, true);
}

#[test]
fn test_close() {
    let mut l: Logger<Vec<u8>> = Logger::new();
    l.attach_opened(Some(Vec::new()));
    assert_eq!(l.fl.is_some(), true);
    l.close();
    assert_eq!(l.fl.is_none(), true);
    assert_eq!(l.console, true);
}

#[test]
fn test_write() {
    let mut l: Logger<Vec<u8>> = Logger::new();
    l.attach_opened(Some(Vec::new()));
    l.console(false);
    let stxt = "abc 012 xyz 789";
    let acts = l.write_actions(stxt);
    assert_eq!(acts.len(), 1);
    let shown = perform(&mut l, acts);
    assert_eq!(shown, "");
    assert_eq!(file_string(&l), stxt);
    assert_eq!(contains_text(&file_string(&l), stxt), true);
}

#[test]
fn write_goes_to_console_then_file() {
    let l: Logger<Vec<u8>> = Logger::init(Vec::new(), true);
    let acts = l.write_actions("hi");
    assert_eq!(acts.len(), 2);
    assert_eq!(acts[0].sink, Sink::Console);
    assert_eq!(acts[0].text, "hi");
    assert_eq!(acts[1].sink, Sink::File);
    assert_eq!(acts[1].text, "hi");
}

#[test]
fn write_without_file_only_echoes() {
    let mut l: Logger<Vec<u8>> = Logger::new();
    let acts = l.write_actions("plain");
    assert_eq!(perform(&mut l, acts), "plain");
    l.console(false);
    assert_eq!(l.write_actions("plain").len(), 0);
}

#[test]
fn writes_accumulate_in_order() {
    let mut l: Logger<Vec<u8>> = Logger::init(Vec::new(), false);
    let a = l.write_actions("A");
    perform(&mut l, a);
    let b = l.write_actions("B");
    perform(&mut l, b);
    assert_eq!(file_string(&l), "AB");
}

#[test]
fn test_ts_write() {
    let mut l: Logger<Vec<u8>> = Logger::new();
    l.attach_opened(Some(Vec::new()));
    l.console(false);
    let sdt = "2020";
    let stxt = "abc 012 xyz 789";
    let acts = l.ts_write_at(&stamp(2020, 3, 16, -4 * 3600), stxt);
    perform(&mut l, acts);
    let text = file_string(&l);
    assert_eq!(contains_text(&text, sdt), true);
    assert_eq!(contains_text(&text, stxt), true);
    assert_eq!(text, "\n  Mon, 16 Mar 2020 10:52:37abc 012 xyz 789");
}

#[test]
fn ts_write_order_with_console() {
    let l: Logger<Vec<u8>> = Logger::init(Vec::new(), true);
    let acts = l.ts_write_actions("\n  T", "payload");
    let seen: Vec<(Sink, String)> = acts.into_iter().map(|e| (e.sink, e.text)).collect();
    assert_eq!(
        seen,
        vec![
            (Sink::Console, "\n  T".to_string()),
            (Sink::File, "\n  T".to_string()),
            (Sink::Console, "payload".to_string()),
            (Sink::File, "payload".to_string()),
        ]
    );
}

#[test]
fn timestamp_line_drops_offset() {
    assert_eq!(timestamp_line(&stamp(2020, 3, 16, -4 * 3600)), "\n  Mon, 16 Mar 2020 10:52:37");
    assert_eq!(timestamp_line(&stamp(2003, 7, 1, 2 * 3600)), "\n  Tue, 1 Jul 2003 10:52:37");
    assert_eq!(timestamp_line(&stamp(2024, 2, 29, 19800)), "\n  Thu, 29 Feb 2024 10:52:37");
    assert_eq!(timestamp_line(&stamp(999, 1, 1, 0)), "\n  Tue, 1 Jan 0999 10:52:37");
}

#[test]
fn stamp_line_cuts_six_characters() {
    assert_eq!(stamp_line("Tue, 1 Jul 2003 10:52:37 +0200"), "\n  Tue, 1 Jul 2003 10:52:37");
    assert_eq!(stamp_line("abcdef"), "\n  ");
    assert_eq!(stamp_line("abcd"), "\n");
    assert_eq!(stamp_line("abc"), "");
}

#[test]
fn stamp_validity() {
    assert!(stamp(2020, 2, 29, 0).is_valid());
    assert!(stamp(2000, 2, 29, 0).is_valid());
    assert!(!stamp(2019, 2, 29, 0).is_valid());
    assert!(!stamp(1900, 2, 29, 0).is_valid());
    assert!(!stamp(2020, 4, 31, 0).is_valid());
    assert!(!stamp(2020, 13, 1, 0).is_valid());
    assert!(!stamp(2020, 1, 0, 0).is_valid());
    assert!(!stamp(10000, 1, 1, 0).is_valid());
    assert!(!stamp(-1, 1, 1, 0).is_valid());
    assert!(!stamp(2020, 1, 1, 86400).is_valid());
    assert!(stamp(2020, 1, 1, -86399).is_valid());
    let late = Stamp { year: 2020, month: 1, day: 1, hour: 24, minute: 0, second: 0, offset_secs: 0 };
    assert!(!late.is_valid());
}

#[test]
fn open_flags_by_mode() {
    let t = OpenFlags::for_mode(OpenMode::Truncate);
    assert_eq!(t, OpenFlags { write: true, create: false, truncate: true, append: false });
    let a = OpenFlags::for_mode(OpenMode::Append);
    assert_eq!(a, OpenFlags { write: true, create: true, truncate: false, append: true });
    let lt = OpenFlags::for_logger(OpenMode::Truncate);
    assert_eq!(lt, OpenFlags { write: true, create: true, truncate: true, append: false });
    let la = OpenFlags::for_logger(OpenMode::Append);
    assert_eq!(la, OpenFlags { write: true, create: true, truncate: false, append: true });
}

#[test]
fn test_file_contains() {
    let text = "test contents with a short string";
    assert_eq!(contains_text(text, "a short"), true);
    assert_eq!(contains_text(text, "a long"), false);
    assert_eq!(contains_text(text, "string"), true);
    assert_eq!(contains_text(text, "test"), true);
    assert_eq!(contains_text(text, ""), true);
    assert_eq!(contains_text("ab", "abc"), false);
    assert_eq!(contains_text("", ""), true);
    assert_eq!(contains_text("größe", "öß"), true);
}

#[test]
fn failed_read_counts_as_empty() {
    assert_eq!(read_contains(&None, ""), true);
    assert_eq!(read_contains(&None, "x"), false);
    assert_eq!(read_contains(&Some("a short one".to_string()), "short"), true);
    assert_eq!(read_contains(&Some("a short one".to_string()), "long"), false);
}
