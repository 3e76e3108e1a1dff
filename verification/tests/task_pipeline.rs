use asset_mirror::tasks::{
    run_all, summarize, to_download_task, to_edge_task, DownloadDecision, Outcome, StorageConfig,
    Task, TaskError, TaskEvents, UploadDecision,
};
use asset_mirror::utils::Config;

const PRIMARY_HOST: &str = "https://raw.communitydragon.org";
const FALLBACK_HOST: &str = "https://cdn.example.net";

fn events_upload(primary_ok: bool, fallback_ok: bool) -> TaskEvents {
    TaskEvents {
        dest_exists: false,
        fetch_ok: true,
        save_ok: true,
        primary_ok,
        fallback_ok,
    }
}

fn events_download(dest_exists: bool, fetch_ok: bool, save_ok: bool) -> TaskEvents {
    TaskEvents {
        dest_exists,
        fetch_ok,
        save_ok,
        primary_ok: true,
        fallback_ok: true,
    }
}

#[test]
fn test_invalid_reference_rejected() {
    let cfg = Config::default();
    let r = to_edge_task("/other/path/a.png", &cfg, PRIMARY_HOST, FALLBACK_HOST);
    assert_eq!(r.unwrap_err(), TaskError::InvalidReference);
    let r = to_download_task("  /not-assets/x ", &cfg, "base", PRIMARY_HOST);
    assert_eq!(r.unwrap_err(), TaskError::InvalidReference);
}

#[test]
fn test_empty_reference_rejected() {
    let cfg = Config::default();
    let up = to_edge_task("", &cfg, PRIMARY_HOST, FALLBACK_HOST);
    assert_eq!(up.unwrap_err(), TaskError::InvalidReference);
    let down = to_download_task("", &cfg, "base", PRIMARY_HOST);
    assert_eq!(down.unwrap_err(), TaskError::InvalidReference);
    let blank = to_edge_task("   \t ", &cfg, PRIMARY_HOST, FALLBACK_HOST);
    assert_eq!(blank.unwrap_err(), TaskError::InvalidReference);
}

#[test]
fn test_upload_task_example() {
    let cfg = Config::default();
    let t = to_edge_task(
        "/lol-game-data/assets/ASSETS/Loot/jhin_tile_37.jpg",
        &cfg,
        PRIMARY_HOST,
        FALLBACK_HOST,
    )
    .unwrap();
    assert_eq!(t.key, "lol-game-data/assets/ASSETS/Loot/jhin_tile_37.jpg");
    assert_eq!(
        t.primary_url,
        "https://raw.communitydragon.org/latest/plugins/rcp-be-lol-game-data/global/default/assets/loot/jhin_tile_37.jpg"
    );
    assert_eq!(
        t.fallback_url,
        "https://cdn.example.net/latest/plugins/rcp-be-lol-game-data/global/default/assets/loot/jhin_tile_37.jpg"
    );
}

#[test]
fn test_upload_reference_trimmed() {
    let cfg = Config::default();
    let t = to_edge_task(
        "  /lol-game-data/assets/ASSETS/x.png \n",
        &cfg,
        PRIMARY_HOST,
        FALLBACK_HOST,
    )
    .unwrap();
    assert_eq!(t.reference, "/lol-game-data/assets/ASSETS/x.png");
    assert_eq!(t.key, "lol-game-data/assets/ASSETS/x.png");
}

#[test]
fn test_upload_fallback_attempted() {
    let cfg = Config::default();
    let t = to_edge_task(
        "/lol-game-data/assets/ASSETS/x.png",
        &cfg,
        PRIMARY_HOST,
        FALLBACK_HOST,
    )
    .unwrap();
    let first = t.start();
    assert_eq!(
        first,
        UploadDecision::Upload(t.primary_url.clone(), t.key.clone())
    );
    // The primary upload fails deterministically: the task must try the
    // fallback URL against the same key before any terminal outcome.
    let second = t.after_primary(false);
    assert_eq!(
        second,
        UploadDecision::Upload(t.fallback_url.clone(), t.key.clone())
    );
    assert_eq!(t.after_fallback(true), Outcome::Succeeded);
    assert_eq!(t.run(false, true), Outcome::Succeeded);
    assert_eq!(t.run(false, false), Outcome::Failed(TaskError::TransportError));
    assert_eq!(t.run(true, false), Outcome::Succeeded);
}

#[test]
fn test_download_task_paths() {
    let cfg = Config::default();
    let t = to_download_task(
        "/lol-game-data/assets/ASSETS/Loot/jhin_tile_37.jpg",
        &cfg,
        "mirror",
        PRIMARY_HOST,
    )
    .unwrap();
    assert_eq!(t.save_path, "mirror/lol-game-data/assets/ASSETS/Loot/jhin_tile_37.jpg");
    // Local downloads keep the reference's casing; only the storage
    // mirror's fetch path is lower-cased.
    assert_eq!(
        t.url,
        "https://raw.communitydragon.org/latest/plugins/rcp-be-lol-game-data/global/default/ASSETS/Loot/jhin_tile_37.jpg"
    );
    let t2 = to_download_task("/lol-game-data/assets/a", &cfg, "mirror/", PRIMARY_HOST).unwrap();
    assert_eq!(t2.save_path, "mirror/lol-game-data/assets/a");
}

#[test]
fn test_gate_existing() {
    let cfg = Config::default();
    let t = to_download_task("/lol-game-data/assets/a.png", &cfg, "base", PRIMARY_HOST).unwrap();
    let gated = t.clone().gate_existing(true);
    assert_eq!(gated.unwrap_err(), TaskError::AlreadyExists);
    let passed = t.clone().gate_existing(false);
    assert_eq!(passed.unwrap(), t);
}

#[test]
fn test_download_skip_existing() {
    let cfg = Config::default();
    let t = to_download_task("/lol-game-data/assets/a.png", &cfg, "base", PRIMARY_HOST).unwrap();
    // Destination already present: the run ends as SkippedExisting
    // before any fetch, whatever the network would have answered.
    assert_eq!(
        t.on_destination(true),
        DownloadDecision::Finish(Outcome::SkippedExisting)
    );
    assert_eq!(t.run(true, false, false), Outcome::SkippedExisting);
    assert_eq!(t.run(true, true, true), Outcome::SkippedExisting);
}

#[test]
fn test_download_outcomes() {
    let cfg = Config::default();
    let t = to_download_task("/lol-game-data/assets/a.png", &cfg, "base", PRIMARY_HOST).unwrap();
    assert_eq!(
        t.on_destination(false),
        DownloadDecision::Fetch(t.url.clone())
    );
    assert_eq!(t.on_fetch(true), DownloadDecision::Save(t.save_path.clone()));
    assert_eq!(t.run(false, false, true), Outcome::Failed(TaskError::TransportError));
    assert_eq!(t.run(false, true, false), Outcome::Failed(TaskError::IOError));
    assert_eq!(t.run(false, true, true), Outcome::Succeeded);
}

#[test]
fn test_run_all_isolation() {
    let cfg = Config::default();
    let mut tasks: Vec<Task> = Vec::new();
    let mut events: Vec<TaskEvents> = Vec::new();
    for i in 0..5 {
        let reference = format!("/lol-game-data/assets/ASSETS/file_{}.png", i);
        if i % 2 == 0 {
            let t = to_download_task(&reference, &cfg, "base", PRIMARY_HOST).unwrap();
            tasks.push(Task::Download(t));
            events.push(events_download(false, true, true));
        } else {
            let t = to_edge_task(&reference, &cfg, PRIMARY_HOST, FALLBACK_HOST).unwrap();
            tasks.push(Task::Upload(t));
            events.push(events_upload(true, true));
        }
    }
    // Task 2 is built to always fail: both its fetch and its save fail.
    events[2] = events_download(false, false, false);
    let outcomes = run_all(&tasks, &events);
    assert_eq!(outcomes.len(), 5);
    for (i, o) in outcomes.iter().enumerate() {
        if i == 2 {
            assert_eq!(*o, Outcome::Failed(TaskError::TransportError));
        } else {
            assert_eq!(*o, Outcome::Succeeded);
        }
    }
}

#[test]
fn test_run_all_mixed_outcomes() {
    let cfg = Config::default();
    let d = to_download_task("/lol-game-data/assets/a", &cfg, "base", PRIMARY_HOST).unwrap();
    let u = to_edge_task("/lol-game-data/assets/b", &cfg, PRIMARY_HOST, FALLBACK_HOST).unwrap();
    let tasks = vec![Task::Download(d.clone()), Task::Upload(u), Task::Download(d)];
    let events = vec![
        events_download(true, true, true),
        events_upload(false, true),
        events_download(false, true, false),
    ];
    let outcomes = run_all(&tasks, &events);
    assert_eq!(
        outcomes,
        vec![
            Outcome::SkippedExisting,
            Outcome::Succeeded,
            Outcome::Failed(TaskError::IOError),
        ]
    );
}

#[test]
fn test_summarize_counts_each_outcome_once() {
    let outcomes = vec![
        Outcome::Succeeded,
        Outcome::SkippedExisting,
        Outcome::Failed(TaskError::TransportError),
        Outcome::Succeeded,
        Outcome::Failed(TaskError::IOError),
    ];
    let s = summarize(&outcomes);
    assert_eq!(s.succeeded, 2);
    assert_eq!(s.skipped, 1);
    assert_eq!(s.failed, 2);
    let empty = summarize(&Vec::new());
    assert_eq!((empty.succeeded, empty.skipped, empty.failed), (0, 0, 0));
}

#[test]
fn test_storage_config() {
    let ok = StorageConfig::from_values(
        Some("https://storage.example.net".to_string()),
        Some("key-id".to_string()),
        Some("key-secret".to_string()),
        Some("assets".to_string()),
    );
    let cfg = ok.unwrap();
    assert_eq!(cfg.endpoint, "https://storage.example.net");
    assert_eq!(cfg.bucket, "assets");
    let missing = StorageConfig::from_values(
        Some("https://storage.example.net".to_string()),
        None,
        Some("key-secret".to_string()),
        Some("assets".to_string()),
    );
    assert_eq!(missing.unwrap_err(), TaskError::ConfigurationError);
}
