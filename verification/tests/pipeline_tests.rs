use mikan_subscribe::client::ClientSlot;
use mikan_subscribe::client::client;
use mikan_subscribe::client::init_client;
use mikan_subscribe::llama::Llama;
use mikan_subscribe::llama::LlamaSlot;
use mikan_subscribe::llama::Role;
use mikan_subscribe::llama::first_content;
use mikan_subscribe::seen::SEEN_TTL_SECONDS;
use mikan_subscribe::seen::Subscribe;
use mikan_subscribe::store::Tasks;
use mikan_subscribe::task::Anime;
use mikan_subscribe::task::Date;
use mikan_subscribe::task::Subscription;
use mikan_subscribe::task::TaskState;
use mikan_subscribe::tokens::Onedrive;
use mikan_subscribe::upload::UploadPlan;
use mikan_subscribe::upload::remote_path;
use mikan_subscribe::upload::upload_plan;
use mikan_subscribe::worker::JobQueue;
use mikan_subscribe::worker::SubmitOutcome;
use mikan_subscribe::worker::TransferOutcome;
use mikan_subscribe::worker::handle_submit;
use mikan_subscribe::worker::handle_transfer;
use mikan_subscribe::worker::pool_add;

/// One job driven end to end: `Pending` after the add, `Downloading` after
/// the engine accepts it, `Downloaded` with the engine-reported payload
/// after completion, `Finished` after the publish sweep — and the remote
/// path lands in the year-month quarter bucket of its air date.
#[test]
fn end_to_end_state_sequence() {
    let mut tasks = Tasks::new();
    let mut queue = JobQueue::new();
    let sub = Subscription {
        magnet: "magnet:stub".to_string(),
        anime: Anime {
            rss: String::new(),
            weekday: "Monday".to_string(),
            name: "Show".to_string(),
            air_date: Date { year: 2024, month: 1, day: 15 },
            bangumi_tv_id: 7,
        },
    };
    pool_add(&mut tasks, &mut queue, &"ep01".to_string(), &sub, 100);
    assert!(matches!(
        tasks.get("ep01".to_string()).unwrap().state,
        TaskState::Pending
    ));

    let (name, job) = queue.dequeue().unwrap();
    assert_eq!(name, "ep01");
    assert_eq!(job.magnet, "magnet:stub");
    let proceed = handle_submit(&mut tasks, &name, &SubmitOutcome::Submitted { id: 1 });
    assert!(proceed);
    assert!(matches!(
        tasks.get("ep01".to_string()).unwrap().state,
        TaskState::Downloading
    ));

    let acts = handle_transfer(
        &mut tasks,
        &name,
        &TransferOutcome::Completed {
            file_name: Some("ep01/video.mkv".to_string()),
            info_hash: "abc".to_string(),
        },
        3600,
        "tmp",
    );
    assert!(!acts.delete_engine_resource);
    let task = tasks.get("ep01".to_string()).unwrap();
    match &task.state {
        TaskState::Downloaded { file_path, info_hash } => {
            assert_eq!(file_path, "tmp/ep01/video.mkv");
            assert_eq!(info_hash, "abc");
        }
        other => panic!("expected Downloaded, got {:?}", other),
    }

    let video = Some("tmp/ep01/video.mkv".to_string());
    let plan = upload_plan(&task, &video, 200);
    let new_state = match plan {
        UploadPlan::Publish { video_path, new_state } => {
            assert_eq!(video_path, "tmp/ep01/video.mkv");
            new_state
        }
        UploadPlan::FinishOnly { .. } => panic!("a found payload must be published"),
    };
    let upload_to = remote_path(task.air_date, &task.weekday, &task.anime_title, "01 - Show.mkv");
    assert!(upload_to.starts_with("2024年1月/"));
    tasks.update_state("ep01".to_string(), new_state);
    match tasks.get("ep01".to_string()).unwrap().state {
        TaskState::Finished { file_path, finish_time, .. } => {
            assert_eq!(file_path, "tmp/ep01/video.mkv");
            assert_eq!(finish_time, 200);
        }
        other => panic!("expected Finished, got {:?}", other),
    }
}

#[test]
fn first_content_picks_first_wellformed_line() {
    let lines = vec![
        "The title in the filename is \"永生\".".to_string(),
        "not json either".to_string(),
        "{\"title\": \"永生\", \"season\": 3, \"episode\": 6}".to_string(),
        "{\"title\": \"later\", \"season\": 1, \"episode\": 1}".to_string(),
    ];
    let c = first_content(&lines).unwrap();
    assert_eq!(c.title, "永生");
    assert_eq!(c.season, 3);
    assert_eq!(c.episode, 6);
}

#[test]
fn first_content_rejects_illformed_lines() {
    assert!(first_content(&Vec::new()).is_none());
    let lines = vec![
        "42".to_string(),
        "{\"title\": \"x\"}".to_string(),
        "{\"title\": 7, \"season\": 1, \"episode\": 1}".to_string(),
        "{\"title\": \"x\", \"season\": 1, \"episode\": 5000000000}".to_string(),
    ];
    assert!(first_content(&lines).is_none());
}

#[test]
fn llama_initializes_once() {
    let mut slot = LlamaSlot::new();
    assert!(Llama::get(&slot).is_none());
    Llama::init(&mut slot, "m", "https://llm.example", "tok").unwrap();
    let l = Llama::get(&slot).unwrap();
    assert_eq!(l.url(), "https://llm.example");
    assert_eq!(l.token(), "tok");
    // A second initialization is refused and changes nothing.
    let err = Llama::init(&mut slot, "m2", "u2", "t2");
    assert!(err.is_err());
    assert_eq!(Llama::get(&slot).unwrap().url(), "https://llm.example");
}

#[test]
fn decode_request_ends_with_the_file_name() {
    let mut slot = LlamaSlot::new();
    Llama::init(&mut slot, "model-x", "u", "t").unwrap();
    let req = Llama::get(&slot)
        .unwrap()
        .build_decode_request("[ANi] Some Show - 01 [1080P].mp4");
    assert_eq!(req.model, "model-x");
    assert_eq!(req.messages.len(), 14);
    assert!(matches!(req.messages[0].role, Role::System));
    assert!(matches!(req.messages[13].role, Role::User));
    assert_eq!(
        req.messages[13].content.as_deref(),
        Some("[ANi] Some Show - 01 [1080P].mp4")
    );
}

#[test]
fn client_config_is_set_once_and_ignores_empty_proxy() {
    let mut slot = ClientSlot::new();
    let c = init_client(&mut slot, Some(String::new()));
    assert_eq!(c.proxy, None);
    let again = init_client(&mut slot, Some("socks5://127.0.0.1:1080".to_string()));
    assert_eq!(again.proxy, None);
    assert_eq!(client(&slot).proxy, None);

    let mut slot2 = ClientSlot::new();
    let c2 = init_client(&mut slot2, Some("socks5://127.0.0.1:1080".to_string()));
    assert_eq!(c2.proxy.as_deref(), Some("socks5://127.0.0.1:1080"));
    assert_eq!(
        client(&slot2).proxy.as_deref(),
        Some("socks5://127.0.0.1:1080")
    );
}

#[test]
fn seen_items_expire_after_their_ttl() {
    let mut seen = Subscribe::new();
    seen.insert("old".to_string(), 1000);
    seen.insert("fresh".to_string(), 5000);
    // At `now`, "old" is exactly ttl old (dropped); "fresh" is younger.
    let ttl = 4000;
    seen.clear_expire(5000, ttl);
    assert!(seen.get("old".to_string()).is_none());
    assert_eq!(seen.get("fresh".to_string()), Some(5000));
    // An entry dated in the future survives a purge.
    let mut seen2 = Subscribe::new();
    seen2.insert("future".to_string(), 10_000);
    seen2.clear_expire(5000, ttl);
    assert_eq!(seen2.get("future".to_string()), Some(10_000));
    assert!(SEEN_TTL_SECONDS == 60 * 60 * 24 * 365);
}

#[test]
fn seen_insert_get_delete() {
    let mut seen = Subscribe::new();
    assert!(seen.get("a".to_string()).is_none());
    seen.insert("a".to_string(), 7);
    seen.insert("a".to_string(), 9);
    assert_eq!(seen.get("a".to_string()), Some(9));
    seen.delete("a".to_string());
    assert!(seen.get("a".to_string()).is_none());
}

#[test]
fn refresh_tokens_are_kept_per_backend() {
    let mut tokens = Onedrive::new();
    assert!(tokens.get_refresh_token("drive".to_string()).is_none());
    tokens.insert_refresh_token("tok-1".to_string(), "drive".to_string());
    tokens.insert_refresh_token("tok-2".to_string(), "drive".to_string());
    tokens.insert_refresh_token("other".to_string(), "dav".to_string());
    assert_eq!(
        tokens.get_refresh_token("drive".to_string()).as_deref(),
        Some("tok-2")
    );
    assert_eq!(
        tokens.get_refresh_token("dav".to_string()).as_deref(),
        Some("other")
    );
}
