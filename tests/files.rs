use mermaid_gui::{
    FileOperationResult, FileService, MAX_RECENT_FILES, PathKind, ScanAction, ScannedEntry,
    scan_action,
};

fn entry(path: &str, kind: PathKind, extension: Option<&str>) -> ScannedEntry {
    ScannedEntry { path: path.to_string(), kind, extension: extension.map(|e| e.to_string()) }
}

#[test]
fn recent_files_move_to_front() {
    let mut service = FileService::new();
    service.add_to_recent_files("/a.mmd".to_string(), "a.mmd".to_string(), 1);
    service.add_to_recent_files("/b.mmd".to_string(), "b.mmd".to_string(), 2);
    service.add_to_recent_files("/a.mmd".to_string(), "a.mmd".to_string(), 3);
    let recent = service.get_recent_files();
    assert_eq!(recent.len(), 2);
    assert_eq!(recent[0].path, "/a.mmd");
    assert_eq!(recent[0].last_opened, 3);
    assert_eq!(recent[1].path, "/b.mmd");
}

#[test]
fn recent_files_keep_ten() {
    let mut service = FileService::new();
    for i in 0..15u64 {
        service.add_to_recent_files(format!("/f{}.mmd", i), format!("f{}.mmd", i), i);
    }
    let recent = service.get_recent_files();
    assert_eq!(recent.len(), MAX_RECENT_FILES);
    assert_eq!(recent[0].path, "/f14.mmd");
    assert_eq!(recent[9].path, "/f5.mmd");
    service.clear_recent_files();
    assert!(service.get_recent_files().is_empty());
}

#[test]
fn scan_actions() {
    assert_eq!(scan_action(&entry("/d/a.mmd", PathKind::File, Some("mmd")), false), ScanAction::Collect);
    assert_eq!(scan_action(&entry("/d/a.mermaid", PathKind::File, Some("mermaid")), true), ScanAction::Collect);
    assert_eq!(scan_action(&entry("/d/a.md", PathKind::File, Some("md")), true), ScanAction::Skip);
    assert_eq!(scan_action(&entry("/d/README", PathKind::File, None), true), ScanAction::Skip);
    assert_eq!(scan_action(&entry("/d/sub", PathKind::Directory, None), true), ScanAction::Descend);
    assert_eq!(scan_action(&entry("/d/sub", PathKind::Directory, None), false), ScanAction::Skip);
}

#[test]
fn find_mermaid_files_filters_entries() {
    let service = FileService::new();
    let entries = vec![
        entry("/d/a.mmd", PathKind::File, Some("mmd")),
        entry("/d/sub", PathKind::Directory, None),
        entry("/d/sub/b.mermaid", PathKind::File, Some("mermaid")),
        entry("/d/notes.txt", PathKind::File, Some("txt")),
    ];
    assert_eq!(
        service.find_mermaid_files("/d", PathKind::Directory, &entries),
        Ok(vec!["/d/a.mmd".to_string(), "/d/sub/b.mermaid".to_string()])
    );
    assert_eq!(
        service.find_mermaid_files("/nope", PathKind::Missing, &vec![]),
        Err("Directory does not exist: /nope".to_string())
    );
    assert_eq!(
        service.find_mermaid_files("/d/a.mmd", PathKind::File, &vec![]),
        Err("Path is not a directory".to_string())
    );
}

#[test]
fn file_operation_results() {
    let ok = FileOperationResult::success("saved".to_string(), Some("/a.mmd".to_string()));
    assert!(ok.success);
    assert_eq!(ok.path, Some("/a.mmd".to_string()));
    let err = FileOperationResult::error("failed".to_string());
    assert!(!err.success);
    assert_eq!(err.message, "failed");
    assert_eq!(err.path, None);
}
