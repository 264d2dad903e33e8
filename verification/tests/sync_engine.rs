use corpora_cli::archive::extract_archive;
use corpora_cli::collector::CollectedFile;
use corpora_cli::collector::CollectionError;
use corpora_cli::collector::ExcludeGlobs;
use corpora_cli::diff::StateMap;
use corpora_cli::diff::SyncPlan;
use corpora_cli::diff::diff;
use corpora_cli::identity::content_identity;
use corpora_cli::sync::SyncAction;
use corpora_cli::sync::SyncEngine;
use corpora_cli::sync::SyncError;
use corpora_cli::sync::SyncEvent;
use corpora_cli::sync::SyncOutcome;
use corpora_cli::sync::SyncState;

fn file(path: &str, content: &[u8]) -> CollectedFile {
    CollectedFile { rel_path: path.to_string(), content: Some(content.to_vec()) }
}

fn map_of(entries: &[(&str, &str)]) -> StateMap {
    let mut m = StateMap::new();
    for (p, h) in entries {
        m.insert(p.to_string(), h.to_string());
    }
    m
}

fn sorted(mut v: Vec<String>) -> Vec<String> {
    v.sort();
    v
}

#[test]
fn diff_scenario_update_and_delete() {
    let local = map_of(&[("a.md", "h1"), ("b.md", "h2")]);
    let remote = map_of(&[("b.md", "h2"), ("c.md", "h3")]);
    let plan = diff(&local, &remote);
    assert_eq!(plan.update, vec!["a.md".to_string()]);
    assert_eq!(plan.delete, vec!["c.md".to_string()]);
}

#[test]
fn diff_detects_changed_identity() {
    let local = map_of(&[("a.md", "h1"), ("b.md", "h2-new")]);
    let remote = map_of(&[("a.md", "h1"), ("b.md", "h2-old")]);
    let plan = diff(&local, &remote);
    assert_eq!(plan.update, vec!["b.md".to_string()]);
    assert!(plan.delete.is_empty());
}

#[test]
fn diff_of_identical_maps_is_empty() {
    let local = map_of(&[("a.md", "h1"), ("b.md", "h2")]);
    let remote = map_of(&[("b.md", "h2"), ("a.md", "h1")]);
    let plan = diff(&local, &remote);
    assert!(plan.is_empty());
}

#[test]
fn diff_sets_are_disjoint() {
    let local = map_of(&[("a.md", "x"), ("b.md", "y"), ("d.md", "w")]);
    let remote = map_of(&[("b.md", "z"), ("c.md", "v")]);
    let plan = diff(&local, &remote);
    assert_eq!(sorted(plan.update.clone()), vec!["a.md".to_string(), "b.md".to_string(), "d.md".to_string()]);
    assert_eq!(plan.delete, vec!["c.md".to_string()]);
    for p in &plan.update {
        assert!(!plan.delete.contains(p));
    }
}

#[test]
fn state_map_insert_replaces_binding() {
    let mut m = StateMap::new();
    m.insert("a.md".to_string(), "old".to_string());
    m.insert("a.md".to_string(), "new".to_string());
    assert_eq!(m.len(), 1);
    assert_eq!(m.get(&"a.md".to_string()), Some(&"new".to_string()));
    assert_eq!(m.get(&"missing.md".to_string()), None);
}

#[test]
fn plan_emptiness_checks_both_sets() {
    let some = SyncPlan { update: vec!["a".to_string()], delete: vec![] };
    assert!(!some.is_empty());
    let none = SyncPlan { update: vec![], delete: vec![] };
    assert!(none.is_empty());
}

#[test]
fn pass_without_corpus_id_aborts_at_once() {
    let engine = SyncEngine::new(ExcludeGlobs::none());
    let (engine, action) = engine.step(SyncEvent::Started { corpus_id: None });
    assert!(matches!(action, SyncAction::Finish));
    assert!(matches!(
        engine.state,
        SyncState::Done { outcome: SyncOutcome::Aborted(SyncError::NotInitialized) }
    ));
}

#[test]
fn pass_aborts_on_collection_failure() {
    let engine = SyncEngine::new(ExcludeGlobs::none());
    let (engine, _) = engine.step(SyncEvent::Started { corpus_id: Some("c1".to_string()) });
    let (engine, action) = engine.step(SyncEvent::Collected(Err(CollectionError::QueryFailed(
        "not a repository".to_string(),
    ))));
    assert!(matches!(action, SyncAction::Finish));
    assert!(matches!(
        engine.state,
        SyncState::Done { outcome: SyncOutcome::Aborted(SyncError::Collection(_)) }
    ));
}

#[test]
fn pass_aborts_on_fetch_failure() {
    let engine = SyncEngine::new(ExcludeGlobs::none());
    let (engine, _) = engine.step(SyncEvent::Started { corpus_id: Some("c1".to_string()) });
    let (engine, _) = engine.step(SyncEvent::Collected(Ok(vec![file("a.md", b"one")])));
    let (engine, action) = engine.step(SyncEvent::Fetched(Err("connection refused".to_string())));
    assert!(matches!(action, SyncAction::Finish));
    assert!(matches!(
        engine.state,
        SyncState::Done { outcome: SyncOutcome::Aborted(SyncError::Api(_)) }
    ));
}

#[test]
fn identical_states_short_circuit() {
    let engine = SyncEngine::new(ExcludeGlobs::none());
    let (engine, _) = engine.step(SyncEvent::Started { corpus_id: Some("c1".to_string()) });
    let (engine, _) = engine.step(SyncEvent::Collected(Ok(vec![
        file("a.md", b"one"),
        file("b.md", b"two"),
    ])));
    // The remote already holds exactly what is local: no archive is built, no
    // further call is asked for, the pass is over at once.
    let mut remote = StateMap::new();
    remote.insert("a.md".to_string(), content_identity(&b"one".to_vec()));
    remote.insert("b.md".to_string(), content_identity(&b"two".to_vec()));
    let (engine, action) = engine.step(SyncEvent::Fetched(Ok(remote)));
    assert!(matches!(action, SyncAction::Finish));
    assert!(matches!(engine.state, SyncState::Done { outcome: SyncOutcome::NoChanges }));
}

#[test]
fn declined_pass_is_cleaned_and_makes_no_changes() {
    let engine = SyncEngine::new(ExcludeGlobs::none());
    let (engine, _) = engine.step(SyncEvent::Started { corpus_id: Some("c1".to_string()) });
    let (engine, _) = engine.step(SyncEvent::Collected(Ok(vec![file("a.md", b"one")])));
    let (engine, action) = engine.step(SyncEvent::Fetched(Ok(StateMap::new())));
    match action {
        SyncAction::ConfirmPlan { update, delete } => {
            assert_eq!(update, vec!["a.md".to_string()]);
            assert!(delete.is_empty());
        },
        _ => panic!("expected the plan to be presented"),
    }
    let (engine, action) = engine.step(SyncEvent::Confirmed(false));
    assert!(matches!(action, SyncAction::RemoveArchive));
    let (engine, action) = engine.step(SyncEvent::Cleaned(true));
    assert!(matches!(action, SyncAction::Finish));
    assert!(matches!(engine.state, SyncState::Done { outcome: SyncOutcome::Declined }));
}

#[test]
fn accepted_pass_uploads_exactly_the_update_set() {
    let excludes = ExcludeGlobs::new(vec!["*.png".to_string()]).unwrap();
    let engine = SyncEngine::new(excludes);
    let (engine, _) = engine.step(SyncEvent::Started { corpus_id: Some("c1".to_string()) });
    let (engine, _) = engine.step(SyncEvent::Collected(Ok(vec![
        file("a.md", b"one"),
        file("b.md", b"two"),
        file("shot.png", b"looks like text, path is excluded"),
        file("raw.bin", &[0xff, 0x00]),
    ])));
    let mut remote = StateMap::new();
    remote.insert("b.md".to_string(), content_identity(&b"two".to_vec()));
    remote.insert("c.md".to_string(), "h3".to_string());
    let (engine, action) = engine.step(SyncEvent::Fetched(Ok(remote)));
    match action {
        SyncAction::ConfirmPlan { update, delete } => {
            assert_eq!(update, vec!["a.md".to_string()]);
            assert_eq!(delete, vec!["c.md".to_string()]);
        },
        _ => panic!("expected the plan to be presented"),
    }
    let (engine, action) = engine.step(SyncEvent::Confirmed(true));
    match action {
        SyncAction::Upload { corpus_id, archive, delete } => {
            assert_eq!(corpus_id, "c1");
            assert_eq!(delete, vec!["c.md".to_string()]);
            let entries = extract_archive(&archive).unwrap();
            assert_eq!(entries.len(), 1);
            assert_eq!(entries[0].0, "a.md");
            assert_eq!(entries[0].1, b"one".to_vec());
        },
        _ => panic!("expected the upload to be asked for"),
    }
    let (engine, action) = engine.step(SyncEvent::Uploaded(Ok(())));
    assert!(matches!(action, SyncAction::RemoveArchive));
    let (engine, action) = engine.step(SyncEvent::Cleaned(true));
    assert!(matches!(action, SyncAction::Finish));
    assert!(matches!(engine.state, SyncState::Done { outcome: SyncOutcome::UploadSucceeded }));
}

#[test]
fn failed_upload_still_cleans_up() {
    let engine = SyncEngine::new(ExcludeGlobs::none());
    let (engine, _) = engine.step(SyncEvent::Started { corpus_id: Some("c1".to_string()) });
    let (engine, _) = engine.step(SyncEvent::Collected(Ok(vec![file("a.md", b"one")])));
    let (engine, _) = engine.step(SyncEvent::Fetched(Ok(StateMap::new())));
    let (engine, _) = engine.step(SyncEvent::Confirmed(true));
    // The upload fails; the very next action must remove the archive, and
    // only then is the pass over.
    let (engine, action) = engine.step(SyncEvent::Uploaded(Err("500 internal error".to_string())));
    assert!(matches!(action, SyncAction::RemoveArchive));
    assert!(matches!(engine.state, SyncState::CleaningUp { .. }));
    let (engine, action) = engine.step(SyncEvent::Cleaned(true));
    assert!(matches!(action, SyncAction::Finish));
    match engine.state {
        SyncState::Done { outcome: SyncOutcome::UploadFailed(message) } => {
            assert_eq!(message, "500 internal error");
        },
        _ => panic!("expected the pass to end as a failed upload"),
    }
}

#[test]
fn cleanup_failure_is_only_a_warning() {
    let engine = SyncEngine::new(ExcludeGlobs::none());
    let (engine, _) = engine.step(SyncEvent::Started { corpus_id: Some("c1".to_string()) });
    let (engine, _) = engine.step(SyncEvent::Collected(Ok(vec![file("a.md", b"one")])));
    let (engine, _) = engine.step(SyncEvent::Fetched(Ok(StateMap::new())));
    let (engine, _) = engine.step(SyncEvent::Confirmed(true));
    let (engine, _) = engine.step(SyncEvent::Uploaded(Ok(())));
    let (engine, _) = engine.step(SyncEvent::Cleaned(false));
    assert!(matches!(engine.state, SyncState::Done { outcome: SyncOutcome::UploadSucceeded }));
}

#[test]
fn delete_only_pass_uploads_an_empty_archive() {
    let engine = SyncEngine::new(ExcludeGlobs::none());
    let (engine, _) = engine.step(SyncEvent::Started { corpus_id: Some("c1".to_string()) });
    let (engine, _) = engine.step(SyncEvent::Collected(Ok(Vec::new())));
    let mut remote = StateMap::new();
    remote.insert("stale.md".to_string(), "h9".to_string());
    let (engine, _) = engine.step(SyncEvent::Fetched(Ok(remote)));
    let (_, action) = engine.step(SyncEvent::Confirmed(true));
    match action {
        SyncAction::Upload { archive, delete, .. } => {
            assert_eq!(delete, vec!["stale.md".to_string()]);
            assert!(extract_archive(&archive).unwrap().is_empty());
        },
        _ => panic!("expected the upload to be asked for"),
    }
}
