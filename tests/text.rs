use joplin_installer::mode::executable_mode;
use joplin_installer::progress::Progress;
use joplin_installer::text::{ends_with, join_path, same_text};

#[test]
fn suffix_tests() {
    assert!(ends_with("Joplin-2.14.0.AppImage", ".AppImage"));
    assert!(!ends_with("Joplin-2.14.0.deb", ".AppImage"));
    assert!(!ends_with("Joplin.appimage", ".AppImage"));
    assert!(ends_with(".AppImage", ".AppImage"));
    assert!(!ends_with("Image", ".AppImage"));
    assert!(ends_with("anything", ""));
    assert!(ends_with("née.AppImage", ".AppImage"));
}

#[test]
fn same_text_compares_exactly() {
    assert!(same_text("-d", "-d"));
    assert!(!same_text("-d", "-dd"));
    assert!(!same_text("-D", "-d"));
    assert!(same_text("", ""));
}

#[test]
fn join_path_puts_one_separator() {
    assert_eq!(join_path("/a/b", "c"), "/a/b/c");
    assert_eq!(join_path("/a/b/", "c"), "/a/b/c");
    assert_eq!(join_path("", "c"), "c");
}

#[test]
fn executable_mode_adds_bits() {
    assert_eq!(executable_mode(0o600), 0o755);
    assert_eq!(executable_mode(0o644), 0o755);
    assert_eq!(executable_mode(0o100664), 0o100775);
    assert_eq!(executable_mode(0o4700), 0o4755);
    assert_eq!(executable_mode(0o777), 0o777);
    assert_eq!(executable_mode(0), 0o755);
}

#[test]
fn progress_visibility() {
    let p = Progress::new(Some(100), false);
    assert_eq!((p.total, p.downloaded, p.visible), (100, 0, true));
    let p = Progress::new(Some(100), true);
    assert!(!p.visible);
    let p = Progress::new(None, false);
    assert_eq!((p.total, p.visible), (0, false));
    let p = Progress::new(Some(0), false);
    assert!(!p.visible);
}

#[test]
fn progress_counts_chunks() {
    let mut p = Progress::new(Some(10), false);
    p.record_chunk(4);
    p.record_chunk(6);
    assert_eq!(p.downloaded, 10);
    assert_eq!(p.total, 10);
    assert!(p.can_record(u64::MAX - 10));
    assert!(!p.can_record(u64::MAX - 9));
}
