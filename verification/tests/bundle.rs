use corpora_cli::archive::build_archive;
use corpora_cli::archive::build_archive_for_paths;
use corpora_cli::archive::extract_archive;
use corpora_cli::collector::CollectedFile;
use corpora_cli::collector::CollectionError;
use corpora_cli::collector::ExcludeGlobs;
use corpora_cli::collector::collect_paths;
use corpora_cli::collector::build_local_state;
use corpora_cli::config::CorporaConfig;
use corpora_cli::config::ServerConfig;
use corpora_cli::collector::CollectorKind;
use corpora_cli::collector::get_collector;
use corpora_cli::identity::content_identity;

fn file(path: &str, content: &[u8]) -> CollectedFile {
    CollectedFile { rel_path: path.to_string(), content: Some(content.to_vec()) }
}

fn vanished(path: &str) -> CollectedFile {
    CollectedFile { rel_path: path.to_string(), content: None }
}

fn config() -> CorporaConfig {
    CorporaConfig {
        name: "demo".to_string(),
        server: ServerConfig { base_url: "http://app:8877".to_string() },
        url: "https://example.invalid/demo.git".to_string(),
        exclude_globs: None,
        root_path: "/work/demo".to_string(),
        relative_path: String::new(),
        id: None,
    }
}

#[test]
fn archive_round_trip_reproduces_contents() {
    let files = vec![
        file("notes/a.md", b"alpha\n"),
        file("b.md", b"beta\n"),
        file("empty.md", b""),
    ];
    let bytes = build_archive(&files, &ExcludeGlobs::none()).unwrap();
    let entries = extract_archive(&bytes).unwrap();
    assert_eq!(entries.len(), 3);
    assert_eq!(entries[0].0, "notes/a.md");
    assert_eq!(entries[0].1, b"alpha\n".to_vec());
    assert_eq!(entries[1].0, "b.md");
    assert_eq!(entries[1].1, b"beta\n".to_vec());
    assert_eq!(entries[2].0, "empty.md");
    assert_eq!(entries[2].1, Vec::<u8>::new());
}

#[test]
fn archive_skips_vanished_files() {
    let files = vec![file("kept.md", b"still here"), vanished("gone.md")];
    let bytes = build_archive(&files, &ExcludeGlobs::none()).unwrap();
    let entries = extract_archive(&bytes).unwrap();
    assert_eq!(entries.len(), 1);
    assert_eq!(entries[0].0, "kept.md");
}

#[test]
fn snapshot_archive_holds_only_collected_files() {
    // The full corpus snapshot carries the collected set and nothing else:
    // a binary file and a glob-excluded path stay out, even at initialization.
    let excludes = ExcludeGlobs::new(vec!["secrets/**".to_string()]).unwrap();
    let files = vec![
        file("doc.md", b"prose"),
        file("raw.bin", &[0xff, 0x00, 0xfe]),
        file("secrets/key.txt", b"text, but the path is excluded"),
        vanished("raced.md"),
    ];
    let bytes = build_archive(&files, &excludes).unwrap();
    let entries = extract_archive(&bytes).unwrap();
    assert_eq!(entries.len(), 1);
    assert_eq!(entries[0].0, "doc.md");
    assert_eq!(entries[0].1, b"prose".to_vec());
}

#[test]
fn subset_archive_holds_exactly_the_named_paths() {
    let files = vec![file("a.md", b"one"), file("b.md", b"two"), file("c.md", b"three")];
    let subset = vec!["c.md".to_string(), "a.md".to_string()];
    let bytes = build_archive_for_paths(&files, &subset).unwrap();
    let entries = extract_archive(&bytes).unwrap();
    assert_eq!(entries.len(), 2);
    assert_eq!(entries[0].0, "a.md");
    assert_eq!(entries[1].0, "c.md");
}

#[test]
fn extract_refuses_bytes_that_are_no_archive() {
    assert!(extract_archive(&b"not an archive at all".to_vec()).is_err());
}

#[test]
fn excluded_path_is_never_collected() {
    let excludes = ExcludeGlobs::new(vec!["*.png".to_string(), "secrets/**".to_string()]).unwrap();
    let files = vec![
        file("kept.md", b"text"),
        file("image.png", b"text bytes, but the path is excluded"),
        file("secrets/key.txt", b"text"),
    ];
    let paths = collect_paths(&files, &excludes);
    assert_eq!(paths, vec!["kept.md".to_string()]);
    let state = build_local_state(&files, &excludes);
    assert!(state.get(&"image.png".to_string()).is_none());
    assert!(state.get(&"secrets/key.txt".to_string()).is_none());
    assert!(state.get(&"kept.md".to_string()).is_some());
}

#[test]
fn binary_file_never_enters_local_state() {
    let excludes = ExcludeGlobs::none();
    let files = vec![file("doc.md", b"prose"), file("blob.bin", &[0xff, 0x00, 0xfe])];
    let paths = collect_paths(&files, &excludes);
    assert_eq!(paths, vec!["doc.md".to_string()]);
    let state = build_local_state(&files, &excludes);
    assert!(state.get(&"blob.bin".to_string()).is_none());
}

#[test]
fn vanished_file_is_skipped_not_an_error() {
    let excludes = ExcludeGlobs::none();
    let files = vec![file("here.md", b"x"), vanished("raced.md")];
    let paths = collect_paths(&files, &excludes);
    assert_eq!(paths, vec!["here.md".to_string()]);
    let state = build_local_state(&files, &excludes);
    assert!(state.get(&"raced.md".to_string()).is_none());
}

#[test]
fn local_state_binds_each_kept_path_to_its_identity() {
    let excludes = ExcludeGlobs::none();
    let files = vec![file("a.md", b"alpha"), file("b.md", b"beta")];
    let state = build_local_state(&files, &excludes);
    assert_eq!(state.get(&"a.md".to_string()), Some(&content_identity(&b"alpha".to_vec())));
    assert_eq!(state.get(&"b.md".to_string()), Some(&content_identity(&b"beta".to_vec())));
}

#[test]
fn invalid_exclusion_pattern_is_reported() {
    let built = ExcludeGlobs::new(vec!["ok.md".to_string(), "bad[".to_string()]);
    assert!(matches!(built, Err(CollectionError::InvalidPattern(_))));
}

#[test]
fn collector_choice_follows_the_repository() {
    let cfg = config();
    assert!(matches!(get_collector(&cfg, true), Ok(CollectorKind::Git)));
    assert!(matches!(get_collector(&cfg, false), Err(CollectionError::NoCollector)));
}
