use aftman::manifests::auth::AuthManifest;
use aftman::manifests::auth::MANIFEST_DEFAULT_CONTENTS;
use aftman::manifests::auth::MANIFEST_FILE_NAME;
use aftman::result::AftmanError;
use aftman::sources::ArtifactProvider;
use aftman::util::FileReadOutcome;

#[test]
fn parse_serialize_round_trips_byte_identically() {
    let text = "# leading comment\n\ngithub = \"abc\" # trailing comment\nother = 3\n\n# done\n";
    let m = AuthManifest::from_toml_text(text).unwrap();
    assert_eq!(m.to_toml_text(), text);
}

#[test]
fn parse_rejects_malformed_text() {
    assert!(AuthManifest::from_toml_text("= nonsense =").is_err());
    assert!(AuthManifest::from_toml_text("github = ").is_err());
}

#[test]
fn set_token_then_get_token() {
    let mut m = AuthManifest::from_toml_text("").unwrap();
    let had = m.set_token(ArtifactProvider::Github, "token-one");
    assert!(!had);
    assert_eq!(m.get_token(ArtifactProvider::Github), Some("token-one".to_string()));
    assert!(m.has_token(ArtifactProvider::Github));
}

#[test]
fn set_token_twice_replaces() {
    let mut m = AuthManifest::from_toml_text("").unwrap();
    assert!(!m.set_token(ArtifactProvider::Github, "first"));
    assert!(m.set_token(ArtifactProvider::Github, "second"));
    assert_eq!(m.get_token(ArtifactProvider::Github), Some("second".to_string()));
}

#[test]
fn get_token_ignores_non_string_values() {
    let m = AuthManifest::from_toml_text("github = 3\n").unwrap();
    assert!(m.has_token(ArtifactProvider::Github));
    assert_eq!(m.get_token(ArtifactProvider::Github), None);
}

#[test]
fn get_token_absent() {
    let m = AuthManifest::from_toml_text("# nothing here\n").unwrap();
    assert!(!m.has_token(ArtifactProvider::Github));
    assert_eq!(m.get_token(ArtifactProvider::Github), None);
}

#[test]
fn default_manifest_matches_template_and_has_no_tokens() {
    let m = AuthManifest::default_manifest();
    assert_eq!(m.to_toml_text(), MANIFEST_DEFAULT_CONTENTS);
    assert!(!m.has_token(ArtifactProvider::Github));
    assert!(MANIFEST_DEFAULT_CONTENTS.contains("https://"));
}

#[test]
fn comment_preservation_across_mutation() {
    let mut m = AuthManifest::from_toml_text("# hello\ngithub = \"x\"\n").unwrap();
    let had = m.set_token(ArtifactProvider::Github, "y");
    assert!(had);
    let out = m.to_toml_text();
    assert!(out.starts_with("# hello\n"));
    assert!(out.contains("github = \"y\""));
}

#[test]
fn insertion_appends_new_key() {
    let mut m = AuthManifest::from_toml_text("# header\nexisting = \"kept\"\n").unwrap();
    assert!(!m.set_token(ArtifactProvider::Github, "z"));
    let out = m.to_toml_text();
    assert!(out.starts_with("# header\nexisting = \"kept\"\n"));
    assert!(out.contains("github = \"z\""));
}

#[test]
fn manifest_file_path_is_under_dir() {
    assert_eq!(AuthManifest::file_path("/tmp/h"), format!("/tmp/h/{}", MANIFEST_FILE_NAME));
}

#[test]
fn load_decision_missing_is_file_not_found() {
    let r = AuthManifest::from_read_outcome("/tmp/h/auth.toml", FileReadOutcome::Missing);
    assert!(matches!(r, Err(AftmanError::FileNotFound(p)) if p == "/tmp/h/auth.toml"));
}

#[test]
fn load_decision_failure_is_io() {
    let r = AuthManifest::from_read_outcome(
        "/tmp/h/auth.toml",
        FileReadOutcome::Failed("permission denied".to_string()),
    );
    assert!(
        matches!(r, Err(AftmanError::Io(p, c)) if p == "/tmp/h/auth.toml" && c == "permission denied")
    );
}

#[test]
fn load_decision_malformed_is_parse() {
    let r = AuthManifest::from_read_outcome(
        "/tmp/h/auth.toml",
        FileReadOutcome::Found("= broken".to_string()),
    );
    assert!(matches!(r, Err(AftmanError::Parse(p, _)) if p == "/tmp/h/auth.toml"));
}

#[test]
fn load_or_create_decision_is_idempotent() {
    let first =
        AuthManifest::from_read_outcome_or_default("/tmp/h/auth.toml", FileReadOutcome::Missing);
    let (m1, written) = first.unwrap();
    let written = written.expect("a missing manifest must be materialized");
    assert_eq!(written, m1.to_toml_text());

    let second = AuthManifest::from_read_outcome_or_default(
        "/tmp/h/auth.toml",
        FileReadOutcome::Found(written.clone()),
    );
    let (m2, rewritten) = second.unwrap();
    assert!(rewritten.is_none());
    assert_eq!(m1.to_toml_text(), m2.to_toml_text());
}

#[test]
fn load_or_create_decision_keeps_found_text() {
    let text = "# mine\ngithub = \"kept\"\n";
    let r = AuthManifest::from_read_outcome_or_default(
        "/tmp/h/auth.toml",
        FileReadOutcome::Found(text.to_string()),
    );
    let (m, written) = r.unwrap();
    assert!(written.is_none());
    assert_eq!(m.to_toml_text(), text);
}

#[test]
fn loaded_text_is_kept_verbatim_until_mutation() {
    // without a trailing newline
    let m = AuthManifest::from_toml_text("a = 1").unwrap();
    assert_eq!(m.to_toml_text(), "a = 1");
    // with a leading byte-order mark
    let m = AuthManifest::from_toml_text("\u{feff}a = 1\n").unwrap();
    assert_eq!(m.to_toml_text(), "\u{feff}a = 1\n");
}

#[test]
fn mutation_hands_serialization_to_the_encoder() {
    // the encoder supplies the trailing newline the loaded text lacked
    let mut m = AuthManifest::from_toml_text("a = 1").unwrap();
    m.set_token(ArtifactProvider::Github, "y");
    let out = m.to_toml_text();
    assert!(out.starts_with("a = 1\n"));
    assert!(out.contains("github = \"y\""));
    // and it cannot restore a byte-order mark the lexer skipped
    let mut m = AuthManifest::from_toml_text("\u{feff}a = 1\n").unwrap();
    m.set_token(ArtifactProvider::Github, "y");
    assert!(m.to_toml_text().starts_with("a = 1\n"));
}

#[test]
fn default_manifest_has_no_entries_at_all() {
    let mut m = AuthManifest::default_manifest();
    assert_eq!(m.get_token(ArtifactProvider::Github), None);
    assert!(!m.set_token(ArtifactProvider::Github, "fresh"));
}

#[test]
fn provider_key_is_lowercase_ascii() {
    assert_eq!(ArtifactProvider::Github.as_str(), "github");
}

#[test]
fn cloned_manifest_is_identical() {
    let mut m = AuthManifest::from_toml_text("# c\ngithub = \"x\"\n").unwrap();
    let c = m.clone();
    assert_eq!(c.to_toml_text(), m.to_toml_text());
    assert_eq!(c.get_token(ArtifactProvider::Github), m.get_token(ArtifactProvider::Github));
    // the clone is independent of later mutation
    m.set_token(ArtifactProvider::Github, "changed");
    assert_eq!(c.get_token(ArtifactProvider::Github), Some("x".to_string()));
}
