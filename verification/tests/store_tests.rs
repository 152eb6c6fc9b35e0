use mikan_subscribe::store::StateFilter;
use mikan_subscribe::store::Tasks;
use mikan_subscribe::task::Date;
use mikan_subscribe::task::Task;
use mikan_subscribe::task::TaskState;

fn sample_task(added_at: u64, state: TaskState) -> Task {
    Task {
        url: "magnet:stub".to_string(),
        anime_title: "Show".to_string(),
        weekday: "Monday".to_string(),
        air_date: Date { year: 2024, month: 1, day: 15 },
        bangumi_id: 7,
        added_at,
        state,
    }
}

#[test]
fn insert_and_get() {
    let mut tasks = Tasks::new();
    assert!(tasks.get("ep01".to_string()).is_none());
    tasks.insert("ep01".to_string(), sample_task(100, TaskState::Pending));
    let got = tasks.get("ep01".to_string()).unwrap();
    assert_eq!(got.added_at, 100);
    assert_eq!(got.url, "magnet:stub");
    assert!(matches!(got.state, TaskState::Pending));
}

#[test]
fn reinsert_preserves_added_at() {
    let mut tasks = Tasks::new();
    tasks.insert("ep01".to_string(), sample_task(100, TaskState::Pending));
    // A later upsert carries a fresh added_at and a different state; the
    // stored added_at must survive, everything else must be replaced.
    let mut newer = sample_task(999, TaskState::Pending);
    newer.anime_title = "Show (retitled)".to_string();
    tasks.insert("ep01".to_string(), newer);
    let got = tasks.get("ep01".to_string()).unwrap();
    assert_eq!(got.added_at, 100);
    assert_eq!(got.anime_title, "Show (retitled)");
}

#[test]
fn reinsert_resets_state_only_on_explicit_add() {
    let mut tasks = Tasks::new();
    tasks.insert("ep01".to_string(), sample_task(100, TaskState::Pending));
    tasks.update_state("ep01".to_string(), TaskState::Blocked);
    // A metadata refresh through update_state does not touch added_at and
    // does not resurrect the job.
    let got = tasks.get("ep01".to_string()).unwrap();
    assert_eq!(got.added_at, 100);
    assert!(matches!(got.state, TaskState::Blocked));
    // An explicit re-add does resurrect it, still keeping added_at.
    tasks.insert("ep01".to_string(), sample_task(500, TaskState::Pending));
    let got = tasks.get("ep01".to_string()).unwrap();
    assert_eq!(got.added_at, 100);
    assert!(matches!(got.state, TaskState::Pending));
}

#[test]
fn update_state_missing_name_is_noop() {
    let mut tasks = Tasks::new();
    tasks.update_state("ghost".to_string(), TaskState::Blocked);
    assert!(tasks.get("ghost".to_string()).is_none());
}

#[test]
fn update_state_replaces_only_state() {
    let mut tasks = Tasks::new();
    tasks.insert("ep01".to_string(), sample_task(100, TaskState::Pending));
    tasks.update_state("ep01".to_string(), TaskState::Downloading);
    let got = tasks.get("ep01".to_string()).unwrap();
    assert!(matches!(got.state, TaskState::Downloading));
    assert_eq!(got.added_at, 100);
    assert_eq!(got.url, "magnet:stub");
}

#[test]
fn delete_removes_record() {
    let mut tasks = Tasks::new();
    tasks.insert("ep01".to_string(), sample_task(100, TaskState::Pending));
    tasks.insert("ep02".to_string(), sample_task(101, TaskState::Pending));
    tasks.delete("ep01");
    assert!(tasks.get("ep01".to_string()).is_none());
    assert!(tasks.get("ep02".to_string()).is_some());
    // Deleting an absent name changes nothing.
    tasks.delete("ep01");
    assert!(tasks.get("ep02".to_string()).is_some());
}

#[test]
fn scan_filters_by_state_kind() {
    let mut tasks = Tasks::new();
    tasks.insert("a".to_string(), sample_task(1, TaskState::Pending));
    tasks.insert("b".to_string(), sample_task(2, TaskState::Downloading));
    tasks.insert("c".to_string(), sample_task(3, TaskState::Blocked));
    tasks.insert(
        "d".to_string(),
        sample_task(
            4,
            TaskState::Downloaded {
                file_path: "tmp/d".to_string(),
                info_hash: "h".to_string(),
            },
        ),
    );
    let filter = StateFilter {
        pending: true,
        downloading: true,
        blocked: false,
        downloaded: false,
        finished: false,
    };
    let mut names: Vec<String> = tasks
        .get_with_state(&filter)
        .into_iter()
        .map(|(n, _)| n)
        .collect();
    names.sort();
    assert_eq!(names, vec!["a".to_string(), "b".to_string()]);
}

#[test]
fn scan_of_empty_table_is_empty() {
    let tasks = Tasks::new();
    let filter = StateFilter {
        pending: true,
        downloading: true,
        blocked: true,
        downloaded: true,
        finished: true,
    };
    assert!(tasks.get_with_state(&filter).is_empty());
}
