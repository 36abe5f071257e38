use velmora_desktop::api::{file_request, HttpStatus, Method};
use velmora_desktop::assets::{
    directory_error, ensure_asset_cached, fetch_manifest, AssetAction, AssetEntry, AssetEvent, AssetManifest,
    AssetState, DirectoryFault, ManifestReply, Precache, SetupProgress, ASSET_PARALLELISM,
};
use velmora_desktop::error::AppError;
use velmora_desktop::json::Json;
use velmora_desktop::setup::{
    first_run_batch, is_first_run, prepare_first_run, recheck_batch, recheck_manifest, RecheckAction, RecheckEvent,
    RecheckState, SetupAction, SetupEvent, SetupState,
};
use velmora_desktop::store::Edit;

fn asset(key: &str, size: u64) -> AssetEntry {
    AssetEntry {
        key: key.to_string(),
        url: "https://velmora.cc/logo.png".to_string(),
        category: String::new(),
        size,
        sha: String::new(),
    }
}

fn manifest(version: &str, keys: &[&str]) -> AssetManifest {
    AssetManifest {
        version: version.to_string(),
        assets: keys.iter().map(|k| asset(k, 10)).collect(),
        count: keys.len() as u32,
    }
}

fn told(progress: &[SetupProgress]) -> Vec<(String, String, u32, u32)> {
    progress
        .iter()
        .map(|p| (p.step.clone(), p.label.clone(), p.current, p.total))
        .collect()
}

fn line(step: &str, label: &str, current: u32) -> (String, String, u32, u32) {
    (step.to_string(), label.to_string(), current, 4)
}

#[test]
fn only_the_mark_ends_the_first_run() {
    assert!(is_first_run(None));
    assert!(is_first_run(Some(&Json::Bool(false))));
    assert!(is_first_run(Some(&Json::Text("true".to_string()))));
    assert!(!is_first_run(Some(&Json::Bool(true))));
}

#[test]
fn the_preparation_goes_through_its_four_stages() {
    let step = prepare_first_run(SetupState::Begin, SetupEvent::Begin);
    assert_eq!(told(&step.progress), vec![line("server", "Vérification du royaume…", 0)]);
    match step.action {
        SetupAction::Probe(request) => {
            assert_eq!(request.url, "https://velmora.cc/api/mobile/status");
        }
        other => panic!("{:?}", other),
    }
    let step = prepare_first_run(step.state, SetupEvent::Probed);
    assert_eq!(
        told(&step.progress),
        vec![
            line("server", "Royaume joignable", 1),
            line("manifest", "Récupération du manifeste de ressources…", 1),
        ]
    );
    assert!(matches!(step.action, SetupAction::FetchManifest(_)));
    let step = prepare_first_run(step.state, SetupEvent::Manifest(manifest("v7", &["a"])));
    assert_eq!(told(&step.progress), vec![line("manifest", "Manifeste reçu", 2)]);
    let back = match step.action {
        SetupAction::Precache { manifest, batch } => {
            assert_eq!(batch, Precache { done: 0, total: 1, announced: true });
            manifest
        }
        other => panic!("{:?}", other),
    };
    assert_eq!(back, manifest("v7", &["a"]));
    let step = prepare_first_run(step.state, SetupEvent::Precached(Ok(back)));
    assert_eq!(
        told(&step.progress),
        vec![
            line("assets", "Ressources prêtes", 3),
            line("config", "Configuration des préférences…", 3),
        ]
    );
    match step.action {
        SetupAction::Persist(plan) => {
            assert_eq!(plan.file, "settings.json");
            assert!(plan.strict);
            assert_eq!(
                plan.edits,
                vec![
                    Edit::Put {
                        key: "setup_completed".to_string(),
                        value: serde_json::Value::Bool(true)
                    },
                    Edit::Put {
                        key: "notifications_enabled".to_string(),
                        value: serde_json::Value::Bool(true)
                    },
                    Edit::Put {
                        key: "cached_manifest_version".to_string(),
                        value: serde_json::Value::String("v7".to_string())
                    },
                ]
            );
            match &plan.edits[0] {
                Edit::Put { value, .. } => {
                    assert!(!is_first_run(Some(&Json::from_value(value.clone()))));
                }
                Edit::Delete { .. } => unreachable!(),
            }
        }
        other => panic!("{:?}", other),
    }
    let step = prepare_first_run(step.state, SetupEvent::Persisted(None));
    assert_eq!(told(&step.progress), vec![line("done", "Royaume prêt", 4)]);
    assert!(matches!(step.action, SetupAction::Finish(Ok(()))));
    assert_eq!(step.state, SetupState::Over);
}

#[test]
fn a_preparation_that_fails_says_why() {
    let failure = AppError::Internal("mkdir assets : refus".to_string());
    let step = prepare_first_run(SetupState::Assets, SetupEvent::Precached(Err(failure)));
    assert!(step.progress.is_empty());
    match step.action {
        SetupAction::Finish(Err(e)) => {
            assert_eq!(e, AppError::Internal("mkdir assets : refus".to_string()));
        }
        other => panic!("{:?}", other),
    }
    let step = prepare_first_run(
        SetupState::Settings,
        SetupEvent::Persisted(Some("disque plein".to_string())),
    );
    match step.action {
        SetupAction::Finish(Err(e)) => {
            assert_eq!(e, AppError::Internal("disque plein".to_string()));
        }
        other => panic!("{:?}", other),
    }
    let step = prepare_first_run(SetupState::Probe, SetupEvent::Begin);
    assert!(matches!(step.action, SetupAction::Nothing));
    assert_eq!(step.state, SetupState::Probe);
}

#[test]
fn a_new_version_is_downloaded_and_kept() {
    let (state, action) = recheck_manifest(RecheckState::Begin, RecheckEvent::Begin);
    match action {
        RecheckAction::FetchManifest(request) => {
            assert_eq!(request.url, "https://velmora.cc/api/mobile/asset-manifest");
        }
        other => panic!("{:?}", other),
    }
    let (state, action) =
        recheck_manifest(state, RecheckEvent::Manifest(manifest("v2", &["a"])));
    assert!(matches!(action, RecheckAction::ReadKept));
    let kept = Some(Json::Text("v1".to_string()));
    let (state, action) = recheck_manifest(state, RecheckEvent::Kept(Ok(kept)));
    let back = match action {
        RecheckAction::Precache { manifest, batch } => {
            assert_eq!(batch, Precache { done: 0, total: 1, announced: false });
            manifest
        }
        other => panic!("{:?}", other),
    };
    assert_eq!(back.version, "v2");
    let (state, action) = recheck_manifest(state, RecheckEvent::Precached(Ok(back)));
    match action {
        RecheckAction::Persist(plan) => {
            assert!(plan.strict);
            assert_eq!(plan.file, "settings.json");
            assert_eq!(
                plan.edits,
                vec![Edit::Put {
                    key: "cached_manifest_version".to_string(),
                    value: serde_json::Value::String("v2".to_string()),
                }]
            );
        }
        other => panic!("{:?}", other),
    }
    let (state, action) = recheck_manifest(state, RecheckEvent::Persisted(None));
    assert!(matches!(action, RecheckAction::Finish(Ok(true))));
    assert!(matches!(state, RecheckState::Over));
}

#[test]
fn a_known_version_is_left_alone() {
    let kept = |json| {
        let (state, _) = recheck_manifest(
            RecheckState::Manifest,
            RecheckEvent::Manifest(manifest("v2", &[])),
        );
        recheck_manifest(state, RecheckEvent::Kept(Ok(json))).1
    };
    assert!(matches!(
        kept(Some(Json::Text("v2".to_string()))),
        RecheckAction::Finish(Ok(false))
    ));
    assert!(matches!(kept(None), RecheckAction::Precache { .. }));
    assert!(matches!(kept(Some(Json::Bool(true))), RecheckAction::Precache { .. }));
}

#[test]
fn a_check_without_a_manifest_does_nothing() {
    let empty = fetch_manifest(ManifestReply::Unreachable);
    let (state, action) =
        recheck_manifest(RecheckState::Manifest, RecheckEvent::Manifest(empty));
    assert!(matches!(state, RecheckState::Over));
    assert!(matches!(action, RecheckAction::Finish(Ok(false))));
}

#[test]
fn a_check_that_fails_says_why() {
    let (state, _) =
        recheck_manifest(RecheckState::Manifest, RecheckEvent::Manifest(manifest("v2", &[])));
    let (_, action) = recheck_manifest(state, RecheckEvent::Kept(Err("verrou".to_string())));
    match action {
        RecheckAction::Finish(Err(e)) => assert_eq!(e, AppError::Internal("verrou".to_string())),
        other => panic!("{:?}", other),
    }
    let failure = AppError::Internal("refus".to_string());
    let (_, action) =
        recheck_manifest(RecheckState::Assets, RecheckEvent::Precached(Err(failure)));
    match action {
        RecheckAction::Finish(Err(e)) => assert_eq!(e, AppError::Internal("refus".to_string())),
        other => panic!("{:?}", other),
    }
    let fault = RecheckEvent::Persisted(Some("disque plein".to_string()));
    let (_, action) = recheck_manifest(RecheckState::Settings, fault);
    match action {
        RecheckAction::Finish(Err(e)) => {
            assert_eq!(e, AppError::Internal("disque plein".to_string()));
        }
        other => panic!("{:?}", other),
    }
}

#[test]
fn a_missing_directory_is_an_internal_error() {
    assert_eq!(
        directory_error(DirectoryFault::NoCache("inconnu".to_string())),
        AppError::Internal("app_cache_dir : inconnu".to_string())
    );
    assert_eq!(
        directory_error(DirectoryFault::NotMade("refus".to_string())),
        AppError::Internal("mkdir assets : refus".to_string())
    );
}

#[test]
fn manifests_that_are_not_delivered_are_empty() {
    let ok = HttpStatus::from_u16(200).unwrap();
    let down = HttpStatus::from_u16(503).unwrap();
    let delivered = fetch_manifest(ManifestReply::Answered(ok, Some(manifest("v1", &["a"]))));
    assert_eq!(delivered, manifest("v1", &["a"]));
    let empty = manifest("", &[]);
    assert_eq!(fetch_manifest(ManifestReply::Answered(ok, None)), empty);
    assert_eq!(
        fetch_manifest(ManifestReply::Answered(down, Some(manifest("v1", &["a"])))),
        empty
    );
    assert_eq!(fetch_manifest(ManifestReply::Unreachable), empty);
}

#[test]
fn a_file_of_the_right_size_is_left_alone() {
    let (state, action) =
        ensure_asset_cached(&asset("logo.png", 10), AssetState::Begin, AssetEvent::Begin);
    assert_eq!(state, AssetState::Probe);
    assert_eq!(action, AssetAction::Measure { file: "logo.png".to_string() });
    let probed = |size, found| {
        ensure_asset_cached(&asset("a", size), AssetState::Probe, AssetEvent::Size(found))
    };
    assert_eq!(probed(10, Some(10)), (AssetState::Over, AssetAction::Finish(true)));
    assert_eq!(probed(0, Some(3)), (AssetState::Over, AssetAction::Finish(true)));
    for (size, found) in [(10, Some(9)), (10, None), (0, None)] {
        match probed(size, found) {
            (AssetState::Answer, AssetAction::Request(request)) => {
                assert_eq!(request, file_request("https://velmora.cc/logo.png"));
                assert_eq!(request.method, Method::Get);
                assert_eq!(request.url, "https://velmora.cc/logo.png");
                assert_eq!(request.bearer, None);
                assert!(!request.accept_json);
            }
            other => panic!("{:?}", other),
        }
    }
}

#[test]
fn a_download_writes_the_whole_file_before_it_is_named() {
    let a = asset("logo.png", 10);
    let ok = HttpStatus::from_u16(200).unwrap();
    let (state, action) =
        ensure_asset_cached(&a, AssetState::Answer, AssetEvent::Answer(Some(ok)));
    assert_eq!(action, AssetAction::ReadBody);
    let (state, action) = ensure_asset_cached(&a, state, AssetEvent::Body(true));
    assert_eq!(
        action,
        AssetAction::WritePart { file: "logo.png".to_string(), extension: "part".to_string() }
    );
    let (state, action) = ensure_asset_cached(&a, state, AssetEvent::Written(true));
    assert_eq!(
        action,
        AssetAction::RenamePart { file: "logo.png".to_string(), extension: "part".to_string() }
    );
    let (state, action) = ensure_asset_cached(&a, state, AssetEvent::Renamed(true));
    assert_eq!(action, AssetAction::Finish(true));
    assert_eq!(state, AssetState::Over);
}

#[test]
fn a_download_that_fails_is_only_reported() {
    let a = asset("a", 10);
    let missing = HttpStatus::from_u16(404).unwrap();
    let failed = (AssetState::Over, AssetAction::Finish(false));
    let answer = AssetState::Answer;
    assert_eq!(ensure_asset_cached(&a, answer, AssetEvent::Answer(None)), failed);
    assert_eq!(ensure_asset_cached(&a, answer, AssetEvent::Answer(Some(missing))), failed);
    assert_eq!(ensure_asset_cached(&a, AssetState::Body, AssetEvent::Body(false)), failed);
    assert_eq!(ensure_asset_cached(&a, AssetState::Written, AssetEvent::Written(false)), failed);
    assert_eq!(ensure_asset_cached(&a, AssetState::Renamed, AssetEvent::Renamed(false)), failed);
    assert_eq!(
        ensure_asset_cached(&a, AssetState::Probe, AssetEvent::Renamed(true)),
        (AssetState::Probe, AssetAction::Nothing)
    );
}

#[test]
fn a_batch_counts_its_downloads() {
    let mut batch = Precache::start(&manifest("v1", &["a", "b"]), true);
    assert_eq!((batch.done, batch.total), (0, 2));
    let first = batch.asset_done("b").unwrap();
    assert_eq!(
        first,
        SetupProgress {
            step: "assets".to_string(),
            label: "Téléchargement : b".to_string(),
            current: 1,
            total: 2,
        }
    );
    let last = batch.asset_done("a").unwrap();
    assert_eq!((last.current, last.total), (2, 2));
    assert_eq!(ASSET_PARALLELISM, 8);
}

#[test]
fn an_empty_or_silent_batch() {
    let batch = Precache::start(&manifest("v1", &[]), true);
    assert_eq!(batch.total, 1);
    let mut silent = Precache::start(&manifest("v1", &["a"]), false);
    assert_eq!(silent.asset_done("a"), None);
    assert_eq!(silent.done, 1);
}

#[test]
fn only_the_first_start_announces_its_downloads() {
    let both = manifest("v1", &["a", "b"]);
    let mut first = first_run_batch(&both);
    assert_eq!(first, Precache::start(&both, true));
    assert_eq!(told(&[first.asset_done("a").unwrap()])[0].1, "Téléchargement : a");
    let mut later = recheck_batch(&both);
    assert_eq!(later, Precache::start(&both, false));
    assert_eq!(later.asset_done("a"), None);
    assert_eq!((later.done, later.total), (1, 2));
}

#[test]
fn a_stray_event_does_not_lose_the_manifest() {
    let (state, _) =
        recheck_manifest(RecheckState::Manifest, RecheckEvent::Manifest(manifest("v3", &["a"])));
    let (state, action) = recheck_manifest(state, RecheckEvent::Begin);
    assert!(matches!(action, RecheckAction::Nothing));
    let (state, action) = recheck_manifest(state, RecheckEvent::Kept(Ok(None)));
    let back = match action {
        RecheckAction::Precache { manifest, .. } => manifest,
        other => panic!("{:?}", other),
    };
    let (state, action) = recheck_manifest(state, RecheckEvent::Persisted(None));
    assert!(matches!(action, RecheckAction::Nothing));
    match recheck_manifest(state, RecheckEvent::Precached(Ok(back))).1 {
        RecheckAction::Persist(plan) => assert_eq!(
            plan.edits,
            vec![Edit::Put {
                key: "cached_manifest_version".to_string(),
                value: serde_json::Value::String("v3".to_string()),
            }]
        ),
        other => panic!("{:?}", other),
    }
}
