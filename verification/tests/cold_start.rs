use aftman::manifests::auth::AuthManifest;
use aftman::manifests::auth::MANIFEST_DEFAULT_CONTENTS;
use aftman::sources::ArtifactProvider;
use aftman::util::FileReadOutcome;

async fn read_outcome(path: &str) -> FileReadOutcome {
    match tokio::fs::read_to_string(path).await {
        Ok(t) => FileReadOutcome::Found(t),
        Err(e) if e.kind() == std::io::ErrorKind::NotFound => FileReadOutcome::Missing,
        Err(e) => FileReadOutcome::Failed(e.to_string()),
    }
}

#[test]
fn cold_start_materializes_default_manifest() {
    let rt = tokio::runtime::Builder::new_current_thread().enable_all().build().unwrap();
    rt.block_on(async {
        let dir = "/tmp/aftman-test-cold-start";
        let path = AuthManifest::file_path(dir);
        tokio::fs::create_dir_all(dir).await.unwrap();
        let _ = tokio::fs::remove_file(&path).await;

        let (m, written) =
            AuthManifest::from_read_outcome_or_default(&path, read_outcome(&path).await).unwrap();
        tokio::fs::write(&path, written.expect("a missing manifest must be written")).await.unwrap();
        assert!(!m.has_token(ArtifactProvider::Github));

        let on_disk = tokio::fs::read_to_string(&path).await.unwrap();
        assert_eq!(on_disk, MANIFEST_DEFAULT_CONTENTS);

        let (m2, rewritten) =
            AuthManifest::from_read_outcome_or_default(&path, read_outcome(&path).await).unwrap();
        assert!(rewritten.is_none());
        assert_eq!(m2.to_toml_text(), m.to_toml_text());
    });
}

#[test]
fn saved_comments_survive_edit_on_disk() {
    let rt = tokio::runtime::Builder::new_current_thread().enable_all().build().unwrap();
    rt.block_on(async {
        let dir = "/tmp/aftman-test-comments";
        let path = AuthManifest::file_path(dir);
        tokio::fs::create_dir_all(dir).await.unwrap();
        tokio::fs::write(&path, "# hello\ngithub = \"x\"\n").await.unwrap();

        let mut m =
            AuthManifest::from_read_outcome(&path, read_outcome(&path).await).unwrap();
        assert!(m.set_token(ArtifactProvider::Github, "y"));
        tokio::fs::write(&path, m.to_toml_text()).await.unwrap();

        let reread = tokio::fs::read_to_string(&path).await.unwrap();
        assert!(reread.starts_with("# hello\n"));
        assert!(reread.contains("github = \"y\""));
    });
}
