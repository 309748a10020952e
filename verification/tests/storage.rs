use aftman::result::AftmanError;
use aftman::storage::home::resolve_root_with_home;
use aftman::storage::home::Home;
use aftman::storage::home::HOME_DIR_NAME;
use aftman::storage::install::InstallCache;
use aftman::storage::tool_storage::ToolStorage;
use aftman::storage::trust::TrustCache;
use aftman::util::FileReadOutcome;

fn loaded_home() -> Home {
    let trust = TrustCache::from_read_outcome("/tmp/h/trusted.txt", FileReadOutcome::Missing);
    let install =
        InstallCache::from_read_outcome("/tmp/h/installed.txt", FileReadOutcome::Missing);
    let storage = ToolStorage::new("/tmp/h");
    Home::assemble("/tmp/h".to_string(), trust, install, Ok(storage)).unwrap()
}

#[test]
fn trust_cache_round_trips() {
    let text = "author/tool\nother/thing\n";
    let tc =
        TrustCache::from_read_outcome("/tmp/h/trusted.txt", FileReadOutcome::Found(text.to_string()))
            .unwrap();
    assert_eq!(tc.to_file_text(), text);
    assert!(tc.is_trusted("author/tool"));
    assert!(tc.is_trusted("other/thing"));
    assert!(!tc.is_trusted("author/other"));
}

#[test]
fn trust_cache_missing_is_empty() {
    let tc = TrustCache::from_read_outcome("/tmp/h/trusted.txt", FileReadOutcome::Missing).unwrap();
    assert_eq!(tc.to_file_text(), "");
    assert!(!tc.is_trusted("author/tool"));
}

#[test]
fn trust_cache_rejects_empty_line() {
    let r = TrustCache::from_read_outcome(
        "/tmp/h/trusted.txt",
        FileReadOutcome::Found("author/tool\n\n".to_string()),
    );
    assert!(matches!(r, Err(AftmanError::Parse(p, _)) if p == "/tmp/h/trusted.txt"));
}

#[test]
fn trust_cache_rejects_missing_trailing_newline() {
    let r = TrustCache::from_read_outcome(
        "/tmp/h/trusted.txt",
        FileReadOutcome::Found("author/tool".to_string()),
    );
    assert!(matches!(r, Err(AftmanError::Parse(_, _))));
}

#[test]
fn trust_cache_read_failure_is_io() {
    let r = TrustCache::from_read_outcome(
        "/tmp/h/trusted.txt",
        FileReadOutcome::Failed("disk gone".to_string()),
    );
    assert!(matches!(r, Err(AftmanError::Io(p, c)) if p == "/tmp/h/trusted.txt" && c == "disk gone"));
}

#[test]
fn trust_cache_add() {
    let mut tc =
        TrustCache::from_read_outcome("/tmp/h/trusted.txt", FileReadOutcome::Missing).unwrap();
    assert!(tc.add("author/tool".to_string()));
    assert!(!tc.add("author/tool".to_string()));
    assert!(!tc.add("".to_string()));
    assert!(!tc.add("two\nlines".to_string()));
    assert!(tc.is_trusted("author/tool"));
    assert_eq!(tc.to_file_text(), "author/tool\n");
    assert_eq!(tc.tools().len(), 1);
}

#[test]
fn install_cache_round_trips_and_records() {
    let text = "author/tool@1.2.3\n";
    let mut ic = InstallCache::from_read_outcome(
        "/tmp/h/installed.txt",
        FileReadOutcome::Found(text.to_string()),
    )
    .unwrap();
    assert_eq!(ic.to_file_text(), text);
    assert!(ic.is_installed("author/tool@1.2.3"));
    assert!(ic.record("other/thing@0.1.0".to_string()));
    assert!(!ic.record("other/thing@0.1.0".to_string()));
    assert_eq!(ic.to_file_text(), "author/tool@1.2.3\nother/thing@0.1.0\n");
    assert_eq!(ic.records().len(), 2);
}

#[test]
fn install_cache_rejects_malformed() {
    let r = InstallCache::from_read_outcome(
        "/tmp/h/installed.txt",
        FileReadOutcome::Found("\nbad".to_string()),
    );
    assert!(matches!(r, Err(AftmanError::Parse(_, _))));
}

#[test]
fn tool_storage_paths() {
    let ts = ToolStorage::new("/tmp/h");
    assert_eq!(ts.dir(), "/tmp/h/tool-storage");
    assert_eq!(ts.tool_dir("author/tool"), "/tmp/h/tool-storage/author/tool");
}

#[test]
fn resolve_root_prefers_nonempty_override() {
    let r = resolve_root_with_home(Some("/tmp/a".to_string()), Some("/tmp/u".to_string()));
    assert!(matches!(r, Ok(p) if p == "/tmp/a"));
}

#[test]
fn resolve_root_falls_back_to_home_dir() {
    let r = resolve_root_with_home(None, Some("/tmp/u".to_string()));
    assert!(matches!(r, Ok(p) if p == format!("/tmp/u/{}", HOME_DIR_NAME)));
}

#[test]
fn resolve_root_treats_empty_override_as_unset() {
    let r = resolve_root_with_home(Some(String::new()), Some("/tmp/u".to_string()));
    assert!(matches!(r, Ok(p) if p == "/tmp/u/.aftman"));
}

#[test]
fn resolve_root_without_home_fails() {
    let r = resolve_root_with_home(None, None);
    assert!(matches!(r, Err(AftmanError::HomeNotFound)));
    let r = resolve_root_with_home(Some(String::new()), None);
    assert!(matches!(r, Err(AftmanError::HomeNotFound)));
}

#[test]
fn assemble_joins_loaded_stores() {
    let home = loaded_home();
    assert_eq!(home.path(), "/tmp/h");
    assert_eq!(home.trust_cache().to_file_text(), "");
    assert_eq!(home.install_cache().to_file_text(), "");
    assert_eq!(home.tool_storage().dir(), "/tmp/h/tool-storage");
}

#[test]
fn assemble_propagates_first_load_failure() {
    let trust = TrustCache::from_read_outcome("/tmp/h/trusted.txt", FileReadOutcome::Missing);
    let install = InstallCache::from_read_outcome(
        "/tmp/h/installed.txt",
        FileReadOutcome::Found("corrupt\n\n".to_string()),
    );
    let storage = ToolStorage::new("/tmp/h");
    let r = Home::assemble("/tmp/h".to_string(), trust, install, Ok(storage));
    assert!(matches!(r, Err(AftmanError::Parse(p, _)) if p == "/tmp/h/installed.txt"));
}

#[test]
fn drop_warning_owed_only_without_save() {
    let mut home = loaded_home();
    assert!(home.should_warn_on_drop(true));
    assert!(!home.should_warn_on_drop(false));
    assert!(!home.did_save());
    home.mark_saved();
    assert!(home.did_save());
    assert!(!home.should_warn_on_drop(true));
    assert!(!home.should_warn_on_drop(false));
}

#[test]
fn home_routes_mutations() {
    let mut home = loaded_home();
    assert!(home.trust_tool("author/tool".to_string()));
    assert!(!home.trust_tool("author/tool".to_string()));
    assert!(home.trust_cache().is_trusted("author/tool"));
    assert!(home.record_install("author/tool@1.0.0".to_string()));
    assert!(home.install_cache().is_installed("author/tool@1.0.0"));
    assert_eq!(home.trust_cache().to_file_text(), "author/tool\n");
}
