use rfd::dialog::{decode_path, FileDialog, Filter, PathDecodeError};
use rfd::panel::{FileHandle, OutputFrom, Panel, PanelKind, RESPONSE_OK};
use rfd::window::WindowRef;

fn exts(v: &[&str]) -> Vec<String> {
    v.iter().map(|s| s.to_string()).collect()
}

fn opts_with_filters() -> FileDialog {
    FileDialog::new()
        .add_filter(Filter::new("Images".to_string(), exts(&["png", "jpg"])))
        .add_filter(Filter::new("Text".to_string(), exts(&["txt"])))
}

fn win(id: u64) -> Option<WindowRef> {
    Some(WindowRef { id })
}

#[test]
fn new_panel_is_unconfigured() {
    let p = Panel::new(PanelKind::Open, win(3), 21);
    assert_eq!(p.kind, PanelKind::Open);
    assert_eq!(p.level, 21);
    assert_eq!(p.key_window, win(3));
    assert!(p.can_choose_directories.is_none());
    assert!(p.can_choose_files.is_none());
    assert!(p.allows_multiple_selection.is_none());
    assert!(p.allowed_file_types.is_none());
    assert!(p.directory.is_none());
    assert!(p.selection.is_empty());
    assert_eq!(Panel::save_panel(None, 0).kind, PanelKind::Save);
    assert_eq!(Panel::open_panel(None, 0).kind, PanelKind::Open);
}

#[test]
fn add_filters_flattens_in_order() {
    let mut p = Panel::open_panel(None, 0);
    p.add_filters(&opts_with_filters());
    assert_eq!(p.allowed_file_types, Some(exts(&["png", "jpg", "txt"])));
}

#[test]
fn add_filters_with_empty_group() {
    let opt = FileDialog::new()
        .add_filter(Filter::new("None".to_string(), Vec::new()))
        .add_filter(Filter::new("Rust".to_string(), exts(&["rs"])));
    let mut p = Panel::open_panel(None, 0);
    p.add_filters(&opt);
    assert_eq!(p.allowed_file_types, Some(exts(&["rs"])));
}

#[test]
fn set_path_accepts_utf8() {
    let mut p = Panel::open_panel(None, 0);
    p.set_path("/Users/me/Documents".as_bytes());
    assert_eq!(p.directory, Some("/Users/me/Documents".to_string()));
}

#[test]
fn set_path_ignores_non_utf8() {
    let mut p = Panel::open_panel(None, 0);
    p.set_path(&[0x2f, 0xff, 0xfe]);
    assert!(p.directory.is_none());
    p.set_path("/tmp".as_bytes());
    p.set_path(&[0xc3]);
    assert_eq!(p.directory, Some("/tmp".to_string()));
}

#[test]
fn decode_path_checks_utf8() {
    assert_eq!(decode_path("/a/é".as_bytes()), Ok("/a/é".to_string()));
    assert_eq!(decode_path(&[0x61, 0x80]), Err(PathDecodeError::InvalidUtf8));
    assert_eq!(decode_path(&[]), Ok(String::new()));
}

#[test]
fn build_pick_file_flags() {
    let opt = opts_with_filters().set_directory(b"/home".to_vec());
    let p = Panel::build_pick_file(&opt, win(7), 5);
    assert_eq!(p.kind, PanelKind::Open);
    assert_eq!(p.can_choose_directories, Some(false));
    assert_eq!(p.can_choose_files, Some(true));
    assert_eq!(p.allows_multiple_selection, None);
    assert_eq!(p.allowed_file_types, Some(exts(&["png", "jpg", "txt"])));
    assert_eq!(p.directory, Some("/home".to_string()));
    assert_eq!(p.key_window, win(7));
    assert_eq!(p.level, 5);
}

#[test]
fn build_pick_files_flags() {
    let p = Panel::build_pick_files(&opts_with_filters(), None, 0);
    assert_eq!(p.kind, PanelKind::Open);
    assert_eq!(p.can_choose_directories, Some(false));
    assert_eq!(p.can_choose_files, Some(true));
    assert_eq!(p.allows_multiple_selection, Some(true));
    assert_eq!(p.allowed_file_types, Some(exts(&["png", "jpg", "txt"])));
    assert!(p.directory.is_none());
}

#[test]
fn build_pick_folder_flags() {
    let opt = opts_with_filters().set_directory(b"/srv".to_vec());
    let p = Panel::build_pick_folder(&opt, None, 0);
    assert_eq!(p.kind, PanelKind::Open);
    assert_eq!(p.can_choose_directories, Some(true));
    assert_eq!(p.can_choose_files, Some(false));
    assert_eq!(p.allows_multiple_selection, None);
    assert!(p.allowed_file_types.is_none());
    assert_eq!(p.directory, Some("/srv".to_string()));
}

#[test]
fn build_save_file_flags() {
    let opt = opts_with_filters().set_directory(b"/var".to_vec());
    let p = Panel::build_save_file(&opt, win(1), 0);
    assert_eq!(p.kind, PanelKind::Save);
    assert!(p.can_choose_directories.is_none());
    assert!(p.can_choose_files.is_none());
    assert!(p.allows_multiple_selection.is_none());
    assert!(p.allowed_file_types.is_none());
    assert_eq!(p.directory, Some("/var".to_string()));
}

#[test]
fn builders_skip_filters_when_none_given() {
    let opt = FileDialog::new();
    assert!(Panel::build_pick_file(&opt, None, 0).allowed_file_types.is_none());
    assert!(Panel::build_pick_files(&opt, None, 0).allowed_file_types.is_none());
    assert!(Panel::build_pick_folder(&opt, None, 0).allowed_file_types.is_none());
    assert!(Panel::build_save_file(&opt, None, 0).allowed_file_types.is_none());
}

#[test]
fn builder_flags_do_not_depend_on_options() {
    let a = Panel::build_pick_files(&FileDialog::new(), None, 0);
    let b = Panel::build_pick_files(&opts_with_filters().set_directory(b"/x".to_vec()), None, 0);
    assert_eq!(a.can_choose_directories, b.can_choose_directories);
    assert_eq!(a.can_choose_files, b.can_choose_files);
    assert_eq!(a.allows_multiple_selection, b.allows_multiple_selection);
}

fn selected(paths: &[&str]) -> Panel {
    let mut p = Panel::open_panel(None, 0);
    p.set_selection(exts(paths));
    p
}

#[test]
fn cancelled_run_yields_none() {
    let p = selected(&["/a", "/b"]);
    for code in [0, 2, -1, i32::MAX, i32::MIN] {
        assert!(<Option<String> as OutputFrom<Panel>>::from(&p, code).is_none());
        assert!(<Option<Vec<String>> as OutputFrom<Panel>>::from(&p, code).is_none());
        assert!(<Option<FileHandle> as OutputFrom<Panel>>::from(&p, code).is_none());
        assert!(<Option<Vec<FileHandle>> as OutputFrom<Panel>>::from(&p, code).is_none());
    }
}

#[test]
fn confirmed_single_path_round_trips() {
    let mut p = selected(&["/old"]);
    p.set_selection(exts(&["/Users/me/report.pdf"]));
    let r = <Option<String> as OutputFrom<Panel>>::from(&p, RESPONSE_OK);
    assert_eq!(r, Some("/Users/me/report.pdf".to_string()));
    let h = <Option<FileHandle> as OutputFrom<Panel>>::from(&p, 1).unwrap();
    assert_eq!(h.path, "/Users/me/report.pdf");
    assert_eq!(p.get_result(), "/Users/me/report.pdf");
}

#[test]
fn confirmed_without_selection_gives_empty_path() {
    let p = Panel::open_panel(None, 0);
    assert_eq!(<Option<String> as OutputFrom<Panel>>::from(&p, 1), Some(String::new()));
    assert_eq!(<Option<Vec<String>> as OutputFrom<Panel>>::from(&p, 1), Some(Vec::new()));
}

#[test]
fn confirmed_paths_keep_order_and_length() {
    let p = selected(&["/c", "/a", "/b", "/a"]);
    let r = <Option<Vec<String>> as OutputFrom<Panel>>::from(&p, 1).unwrap();
    assert_eq!(r, exts(&["/c", "/a", "/b", "/a"]));
    let h = <Option<Vec<FileHandle>> as OutputFrom<Panel>>::from(&p, 1).unwrap();
    let hp: Vec<String> = h.into_iter().map(|f| f.path).collect();
    assert_eq!(hp, exts(&["/c", "/a", "/b", "/a"]));
    assert_eq!(p.get_results(), exts(&["/c", "/a", "/b", "/a"]));
}

#[test]
fn record_selection_decodes_all() {
    let mut p = Panel::open_panel(None, 0);
    let raw = vec!["/x/ü".as_bytes().to_vec(), b"/y".to_vec()];
    assert_eq!(p.record_selection(&raw), Ok(()));
    assert_eq!(p.selection, exts(&["/x/ü", "/y"]));
}

#[test]
fn record_selection_rejects_bad_bytes() {
    let mut p = selected(&["/kept"]);
    let raw = vec![b"/ok".to_vec(), vec![0xff]];
    assert_eq!(p.record_selection(&raw), Err(PathDecodeError::InvalidUtf8));
    assert_eq!(p.selection, exts(&["/kept"]));
}

#[test]
fn restore_target_is_captured_window() {
    assert_eq!(Panel::open_panel(win(9), 0).restore_target(), win(9));
    assert_eq!(Panel::save_panel(None, 0).restore_target(), None);
}

#[test]
fn file_handle_wraps_path() {
    assert_eq!(FileHandle::wrap("/p".to_string()).path, "/p");
}
