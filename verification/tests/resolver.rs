use cliq_resolver::resolve::CandidateDir;
use cliq_resolver::resolve::Chosen;
use cliq_resolver::resolve::DirListing;
use cliq_resolver::resolve::ResolveError;
use cliq_resolver::resolve::resolve;
use cliq_resolver::scan::DirOutcome;
use cliq_resolver::scan::scan_dir;

fn listed(path: &str, names: &[&str]) -> CandidateDir {
    CandidateDir {
        path: path.to_string(),
        state: DirListing::Listed(names.iter().map(|n| n.to_string()).collect()),
    }
}

fn missing(path: &str) -> CandidateDir {
    CandidateDir {
        path: path.to_string(),
        state: DirListing::Missing,
    }
}

#[test]
fn single_artifact_is_chosen() {
    let dirs = vec![
        listed("/proj/cliq", &["readme.md"]),
        listed("/proj", &["notes.txt", "app.cliq.json"]),
    ];
    let r = resolve(&dirs);
    assert!(matches!(r, Ok(Chosen::Artifact { dir: 1, file: 1 })));
}

#[test]
fn artifact_wins_over_source_in_same_directory() {
    let dirs = vec![listed("/proj", &["a.cliq.json", "b.usage.kdl"])];
    let r = resolve(&dirs);
    assert!(matches!(r, Ok(Chosen::Artifact { dir: 0, file: 0 })));
}

#[test]
fn single_source_is_chosen_when_no_artifact() {
    let dirs = vec![listed("/proj", &["readme.md", "app.usage.kdl"])];
    let r = resolve(&dirs);
    assert!(matches!(r, Ok(Chosen::Source { dir: 0, file: 1 })));
}

#[test]
fn source_in_subdirectory_wins_over_later_candidates() {
    let dirs = vec![
        listed("/proj/cliq", &["app.usage.kdl"]),
        listed("/proj", &["x.cliq.json"]),
    ];
    let r = resolve(&dirs);
    assert!(matches!(r, Ok(Chosen::Source { dir: 0, file: 0 })));
}

#[test]
fn two_artifacts_in_base_abort_even_with_clean_later_candidate() {
    let dirs = vec![
        listed("/proj", &["x.cliq.json", "y.cliq.json"]),
        listed("/parent", &["ok.cliq.json"]),
    ];
    let r = resolve(&dirs);
    match r {
        Err(ResolveError::AmbiguousArtifact { dir }) => assert_eq!(dir, "/proj"),
        other => panic!("expected an ambiguous-artifact error, got {:?}", result_name(&other)),
    }
}

#[test]
fn ambiguity_in_second_candidate_after_empty_first() {
    let dirs = vec![
        listed("/proj/cliq", &[]),
        listed("/proj", &["x.cliq.json", "y.cliq.json"]),
        listed("/parent", &["ok.cliq.json"]),
    ];
    let r = resolve(&dirs);
    match r {
        Err(ResolveError::AmbiguousArtifact { dir }) => assert_eq!(dir, "/proj"),
        other => panic!("expected an ambiguous-artifact error, got {:?}", result_name(&other)),
    }
}

#[test]
fn two_sources_abort_when_no_artifact() {
    let dirs = vec![listed("/proj", &["a.usage.kdl", "b.usage.kdl"])];
    let r = resolve(&dirs);
    match r {
        Err(ResolveError::AmbiguousSource { dir }) => assert_eq!(dir, "/proj"),
        other => panic!("expected an ambiguous-source error, got {:?}", result_name(&other)),
    }
}

#[test]
fn not_found_when_every_candidate_is_empty_handed() {
    let dirs = vec![
        missing("/proj/cliq"),
        listed("/proj", &["readme.md", "cliq.json.bak"]),
        listed("/parent", &[]),
    ];
    let r = resolve(&dirs);
    assert!(matches!(r, Err(ResolveError::NotFound)));
}

#[test]
fn not_found_with_no_candidates_at_all() {
    let dirs: Vec<CandidateDir> = Vec::new();
    let r = resolve(&dirs);
    assert!(matches!(r, Err(ResolveError::NotFound)));
}

#[test]
fn unreadable_directory_surfaces_io_error() {
    let dirs = vec![CandidateDir {
        path: "/proj".to_string(),
        state: DirListing::Unreadable("permission denied".to_string()),
    }];
    let r = resolve(&dirs);
    match r {
        Err(ResolveError::Io { path, message }) => {
            assert_eq!(path, "/proj");
            assert_eq!(message, "permission denied");
        }
        other => panic!("expected an I/O error, got {:?}", result_name(&other)),
    }
}

#[test]
fn unreadable_directory_after_a_match_is_never_reached() {
    let dirs = vec![
        listed("/proj", &["app.cliq.json"]),
        CandidateDir {
            path: "/parent".to_string(),
            state: DirListing::Unreadable("permission denied".to_string()),
        },
    ];
    let r = resolve(&dirs);
    assert!(matches!(r, Ok(Chosen::Artifact { dir: 0, file: 0 })));
}

#[test]
fn scan_matches_suffix_not_exact_name() {
    let entries = vec!["notes.txt".to_string(), "app.cliq.json".to_string()];
    assert!(matches!(scan_dir(&entries), DirOutcome::Artifact(1)));

    let exact = vec!["cliq.json".to_string()];
    assert!(matches!(scan_dir(&exact), DirOutcome::Artifact(0)));

    let trailing = vec!["cliq.json.bak".to_string()];
    assert!(matches!(scan_dir(&trailing), DirOutcome::NoMatch));

    let upper = vec!["APP.CLIQ.JSON".to_string()];
    assert!(matches!(scan_dir(&upper), DirOutcome::NoMatch));

    let source = vec!["x.usage.kdl".to_string(), "y.txt".to_string()];
    assert!(matches!(scan_dir(&source), DirOutcome::Source(0)));

    let truncated = vec!["usage.kd".to_string()];
    assert!(matches!(scan_dir(&truncated), DirOutcome::NoMatch));
}

#[test]
fn scan_reports_multiples() {
    let arts = vec!["a.cliq.json".to_string(), "b.cliq.json".to_string()];
    assert!(matches!(scan_dir(&arts), DirOutcome::MultipleArtifacts));

    let srcs = vec!["a.usage.kdl".to_string(), "b.usage.kdl".to_string()];
    assert!(matches!(scan_dir(&srcs), DirOutcome::MultipleSources));

    // an artifact ambiguity is reported even when sources are also present
    let both = vec![
        "a.cliq.json".to_string(),
        "b.cliq.json".to_string(),
        "c.usage.kdl".to_string(),
    ];
    assert!(matches!(scan_dir(&both), DirOutcome::MultipleArtifacts));
}

fn result_name(r: &Result<Chosen, ResolveError>) -> &'static str {
    match r {
        Ok(Chosen::Artifact { .. }) => "Ok(Artifact)",
        Ok(Chosen::Source { .. }) => "Ok(Source)",
        Err(ResolveError::AmbiguousArtifact { .. }) => "Err(AmbiguousArtifact)",
        Err(ResolveError::AmbiguousSource { .. }) => "Err(AmbiguousSource)",
        Err(ResolveError::Io { .. }) => "Err(Io)",
        Err(ResolveError::NotFound) => "Err(NotFound)",
    }
}
