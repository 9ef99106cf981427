use crate_info_mirroring::{
    build_new_path, check_metadata_file, is_fresh, is_short_shard, known_versions,
    metadata_file_name, shard_path, CacheLookup, Crate, CrateMetadata, CrateTask, DirPath,
    DispatchStep, Dispatcher, TaskAction, TaskEvent, TaskOutcome, TaskStage, Version,
};

fn strings(v: &[&str]) -> Vec<String> {
    v.iter().map(|s| s.to_string()).collect()
}

fn parts(p: &DirPath) -> Vec<String> {
    (0..p.len()).map(|i| p.component(i)).collect()
}

fn record(versions: &[&str]) -> CrateMetadata {
    let crate_data = Crate {
        created_at: "2020-01-01".to_string(),
        description: None,
        documentation: None,
        downloads: 3,
        homepage: None,
        id: "serde".to_string(),
        keywords: vec![],
        license: Some("MIT".to_string()),
        max_version: "1.0.1".to_string(),
        name: "serde".to_string(),
        repository: None,
        updated_at: "2021-01-01".to_string(),
    };
    let versions = versions
        .iter()
        .enumerate()
        .map(|(i, n)| Version::new(i as u64, n.to_string()))
        .collect();
    CrateMetadata { crate_data, versions }
}

#[test]
fn shard_one_char() {
    assert_eq!(parts(&shard_path("a")), strings(&["1", "a"]));
}

#[test]
fn shard_two_chars() {
    assert_eq!(parts(&shard_path("ab")), strings(&["2", "ab"]));
}

#[test]
fn shard_three_chars() {
    assert_eq!(parts(&shard_path("abc")), strings(&["ab", "c", "abc"]));
}

#[test]
fn shard_four_chars() {
    assert_eq!(parts(&shard_path("abcd")), strings(&["ab", "cd", "abcd"]));
}

#[test]
fn shard_long_name() {
    assert_eq!(parts(&shard_path("serde")), strings(&["se", "rd", "serde"]));
}

#[test]
fn new_path_takes_last_component() {
    let out = DirPath::from_parts(strings(&["mirror", "se"]));
    let src = DirPath::from_parts(strings(&["index", "se", "rd"]));
    assert_eq!(parts(&build_new_path(&out, &src)), strings(&["mirror", "se", "rd"]));
}

#[test]
fn new_path_mirrors_nesting() {
    let src = shard_path("serde");
    let mut out = DirPath::from_parts(strings(&["out"]));
    let mut walked = DirPath::from_parts(strings(&["in"]));
    for i in 0..src.len() {
        walked = walked.join(&src.component(i));
        out = build_new_path(&out, &walked);
    }
    assert_eq!(parts(&out), strings(&["out", "se", "rd", "serde"]));
}

#[test]
fn file_name_of_path() {
    assert_eq!(DirPath::new().file_name(), None);
    let p = DirPath::from_parts(strings(&["a", "b"]));
    assert_eq!(p.file_name(), Some("b".to_string()));
}

#[test]
fn short_shards() {
    assert!(is_short_shard("1"));
    assert!(is_short_shard("2"));
    assert!(!is_short_shard("3"));
    assert!(!is_short_shard("12"));
    assert!(!is_short_shard("se"));
    assert!(!is_short_shard(""));
}

#[test]
fn metadata_file_is_name_dot_json() {
    assert_eq!(metadata_file_name("serde"), "serde.json");
}

#[test]
fn version_text_is_number() {
    let v = Version::new(7, "1.2.3".to_string());
    assert_eq!(v.to_string(), "1.2.3");
    assert_eq!(v.id, 7);
}

#[test]
fn known_versions_in_order() {
    let meta = record(&["1.0.0", "0.9.0", "1.0.1"]);
    assert_eq!(known_versions(&meta), strings(&["1.0.0", "0.9.0", "1.0.1"]));
}

#[test]
fn fresh_when_all_known() {
    assert!(is_fresh(&strings(&["1.0.0", "1.0.1"]), &strings(&["1.0.1", "1.0.0"])));
    assert!(is_fresh(&strings(&["1.0.0"]), &strings(&[])));
    assert!(is_fresh(&strings(&[]), &strings(&[])));
}

#[test]
fn stale_when_version_unknown() {
    assert!(!is_fresh(&strings(&["1.0.0"]), &strings(&["1.0.0", "1.1.0"])));
    assert!(!is_fresh(&strings(&[]), &strings(&["0.1.0"])));
}

#[test]
fn missing_cache_is_stale() {
    assert!(!check_metadata_file(&CacheLookup::Missing, &Some(strings(&[]))));
}

#[test]
fn unreadable_cache_is_stale() {
    assert!(!check_metadata_file(&CacheLookup::Unreadable, &Some(strings(&[]))));
}

#[test]
fn unlisted_source_is_stale() {
    let cache = CacheLookup::Parsed(record(&["1.0.0"]));
    assert!(!check_metadata_file(&cache, &None));
}

#[test]
fn parsed_cache_freshness() {
    let cache = CacheLookup::Parsed(record(&["1.0.0", "1.0.1"]));
    assert!(check_metadata_file(&cache, &Some(strings(&["1.0.0", "1.0.1"]))));
    assert!(!check_metadata_file(&cache, &Some(strings(&["1.0.0", "1.0.2"]))));
}

#[test]
fn second_run_fetches_nothing() {
    let cache = CacheLookup::Parsed(record(&["1.0.0", "1.0.1"]));
    let fresh = check_metadata_file(&cache, &Some(strings(&["1.0.0", "1.0.1"])));
    let mut task = CrateTask::new("serde".to_string());
    assert!(matches!(task.step(TaskEvent::DestProbed(true)), TaskAction::CheckCache));
    let last = task.step(TaskEvent::CacheChecked(fresh));
    assert!(matches!(last, TaskAction::Finish(TaskOutcome::Fresh)));
    assert!(task.stage() == TaskStage::Done);
}

#[test]
fn new_version_fetches_once() {
    let serde = CacheLookup::Parsed(record(&["1.0.0"]));
    let other = CacheLookup::Parsed(record(&["0.1.0"]));
    assert!(!check_metadata_file(&serde, &Some(strings(&["1.0.0", "1.0.1"]))));
    assert!(check_metadata_file(&other, &Some(strings(&["0.1.0"]))));
    let mut task = CrateTask::new("serde".to_string());
    task.step(TaskEvent::DestProbed(true));
    assert!(matches!(task.step(TaskEvent::CacheChecked(false)), TaskAction::Fetch));
}

#[test]
fn first_fetch_creates_and_writes() {
    let mut task = CrateTask::new("rand".to_string());
    assert_eq!(task.name(), "rand");
    assert_eq!(task.file_name(), "rand.json");
    assert!(matches!(task.step(TaskEvent::DestProbed(false)), TaskAction::CreateDir));
    assert!(matches!(task.step(TaskEvent::DirCreated(Ok(()))), TaskAction::Fetch));
    match task.step(TaskEvent::Fetched(Ok("{\"versions\":[]}".to_string()))) {
        TaskAction::Write(blob) => assert_eq!(blob, "{\"versions\":[]}"),
        _ => panic!("expected a write"),
    }
    assert!(matches!(
        task.step(TaskEvent::Written(Ok(()))),
        TaskAction::Finish(TaskOutcome::Downloaded)
    ));
}

#[test]
fn fetch_error_names_package() {
    let mut task = CrateTask::new("rand".to_string());
    task.step(TaskEvent::DestProbed(true));
    task.step(TaskEvent::CacheChecked(false));
    match task.step(TaskEvent::Fetched(Err("timeout".to_string()))) {
        TaskAction::Finish(TaskOutcome::Failed(m)) => {
            assert_eq!(m, "Error fetching data for rand: timeout")
        }
        _ => panic!("expected a failure"),
    }
    assert!(task.stage() == TaskStage::Done);
}

#[test]
fn dir_error_ends_task() {
    let mut task = CrateTask::new("rand".to_string());
    task.step(TaskEvent::DestProbed(false));
    match task.step(TaskEvent::DirCreated(Err("denied".to_string()))) {
        TaskAction::Finish(TaskOutcome::Failed(m)) => assert_eq!(m, "denied"),
        _ => panic!("expected a failure"),
    }
}

#[test]
fn write_error_ends_task() {
    let mut task = CrateTask::new("rand".to_string());
    task.step(TaskEvent::DestProbed(true));
    task.step(TaskEvent::CacheChecked(false));
    task.step(TaskEvent::Fetched(Ok("{}".to_string())));
    match task.step(TaskEvent::Written(Err("disk full".to_string()))) {
        TaskAction::Finish(TaskOutcome::Failed(m)) => assert_eq!(m, "disk full"),
        _ => panic!("expected a failure"),
    }
}

#[test]
fn task_accepts_only_expected_event() {
    let task = CrateTask::new("rand".to_string());
    assert!(task.accepts(&TaskEvent::DestProbed(true)));
    assert!(!task.accepts(&TaskEvent::CacheChecked(true)));
    assert!(!task.accepts(&TaskEvent::Written(Ok(()))));
}

#[test]
fn dispatcher_bounds_running_tasks() {
    let mut d = Dispatcher::new(2);
    let mut running: u32 = 0;
    let mut most: u32 = 0;
    for _ in 0..5 {
        d.package_found();
        loop {
            match d.next() {
                DispatchStep::Start => {
                    d.task_started();
                    running += 1;
                    most = most.max(running);
                }
                DispatchStep::Wait => {
                    d.task_completed(true);
                    running -= 1;
                }
                DispatchStep::Walk => break,
                DispatchStep::Return => panic!("walk is not over"),
            }
        }
    }
    assert_eq!(most, 2);
    assert_eq!(running, 2);
}

#[test]
fn dispatcher_waits_for_every_task() {
    let mut d = Dispatcher::new(3);
    for _ in 0..3 {
        d.package_found();
        assert!(d.next() == DispatchStep::Start);
        d.task_started();
    }
    assert!(d.next() == DispatchStep::Walk);
    d.walk_finished();
    d.task_completed(true);
    assert!(d.next() == DispatchStep::Wait);
    d.task_completed(true);
    assert!(d.next() == DispatchStep::Wait);
    d.task_completed(true);
    assert!(d.next() == DispatchStep::Return);
    assert_eq!(d.found(), 3);
}

#[test]
fn dispatcher_failure_does_not_end_run() {
    let mut d = Dispatcher::new(1);
    d.package_found();
    d.task_started();
    d.package_found();
    assert!(d.next() == DispatchStep::Wait);
    d.task_completed(false);
    assert!(d.next() == DispatchStep::Start);
    d.task_started();
    d.walk_finished();
    assert!(d.next() == DispatchStep::Wait);
    d.task_completed(true);
    assert!(d.next() == DispatchStep::Return);
    assert_eq!(d.failed(), 1);
}

#[test]
fn empty_walk_returns_at_once() {
    let mut d = Dispatcher::new(16);
    assert!(d.next() == DispatchStep::Walk);
    d.walk_finished();
    assert!(d.next() == DispatchStep::Return);
    assert_eq!(d.found(), 0);
}
