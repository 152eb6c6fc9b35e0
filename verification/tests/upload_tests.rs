use mikan_subscribe::task::Date;
use mikan_subscribe::task::Task;
use mikan_subscribe::task::TaskState;
use mikan_subscribe::upload::EpisodeInfo;
use mikan_subscribe::upload::UploadPlan;
use mikan_subscribe::upload::generate_file_name;
use mikan_subscribe::upload::generate_folder_name;
use mikan_subscribe::upload::has_video_extension;
use mikan_subscribe::upload::remote_path;
use mikan_subscribe::upload::sanitize_filename;
use mikan_subscribe::upload::upload_plan;

#[test]
fn sanitize_replaces_reserved_characters() {
    assert_eq!(
        sanitize_filename("a\\b/c:d*e?f\"g<h>i|j"),
        "a_b_c_d_e_f_g_h_i_j"
    );
    assert_eq!(sanitize_filename("plain name.mkv"), "plain name.mkv");
    assert_eq!(sanitize_filename(""), "");
    assert_eq!(sanitize_filename("永生 第三季"), "永生 第三季");
}

#[test]
fn video_extensions_are_mp4_and_mkv() {
    assert!(has_video_extension("video.mkv"));
    assert!(has_video_extension("a.b.mp4"));
    assert!(!has_video_extension("video.MKV"));
    assert!(!has_video_extension("video.avi"));
    assert!(!has_video_extension("video"));
    assert!(!has_video_extension("video."));
    // A leading dot marks a hidden file, not an extension.
    assert!(!has_video_extension(".mkv"));
}

#[test]
fn date_validity() {
    let d = Date::new(2024, 2, 29);
    assert!(d.check());
    assert!(!Date { year: 2023, month: 2, day: 29 }.check());
    assert!(!Date { year: 2024, month: 13, day: 1 }.check());
    assert!(!Date { year: -1, month: 1, day: 1 }.check());
}

#[test]
fn folder_name_buckets_by_nearest_quarter() {
    // Mid-January lies nearest to the January quarter start.
    assert_eq!(
        generate_folder_name(Date { year: 2024, month: 1, day: 15 }),
        "2024年1月"
    );
    // Late March lies nearer to the April start than to January's.
    assert_eq!(
        generate_folder_name(Date { year: 2023, month: 3, day: 20 }),
        "2023年4月"
    );
    // Late December lies nearest to the October start of the same year.
    assert_eq!(
        generate_folder_name(Date { year: 2023, month: 12, day: 25 }),
        "2023年10月"
    );
    // The exact quarter start maps to itself.
    assert_eq!(
        generate_folder_name(Date { year: 2024, month: 7, day: 1 }),
        "2024年7月"
    );
    // Equidistant dates fall to the earlier quarter.
    assert_eq!(
        generate_folder_name(Date { year: 2023, month: 2, day: 15 }),
        "2023年1月"
    );
}

#[test]
fn display_name_uses_local_title_when_present() {
    let episodes = vec![
        EpisodeInfo { name: "Other".to_string(), name_cn: String::new(), sort: 1, ep: 1 },
        EpisodeInfo { name: "Original".to_string(), name_cn: "本地".to_string(), sort: 9, ep: 9 },
    ];
    let name = generate_file_name("raw [09].mkv", "mkv", Some(9), &episodes);
    assert_eq!(name, "09 - 本地.mkv");
}

#[test]
fn display_name_falls_back_to_original_title() {
    let episodes = vec![EpisodeInfo {
        name: "Original: Name?".to_string(),
        name_cn: String::new(),
        sort: 12,
        ep: 12,
    }];
    let name = generate_file_name("raw.mp4", "mp4", Some(12), &episodes);
    // The chosen title is sanitized and the episode zero-padded.
    assert_eq!(name, "12 - Original_ Name_.mp4");
}

#[test]
fn display_name_keeps_file_name_without_decode_or_match() {
    let episodes = vec![EpisodeInfo {
        name: "Original".to_string(),
        name_cn: String::new(),
        sort: 1,
        ep: 1,
    }];
    assert_eq!(generate_file_name("raw.mkv", "mkv", None, &episodes), "raw.mkv");
    assert_eq!(
        generate_file_name("raw.mkv", "mkv", Some(5), &episodes),
        "raw.mkv"
    );
    assert_eq!(
        generate_file_name("raw.mkv", "mkv", Some(5), &Vec::new()),
        "raw.mkv"
    );
}

#[test]
fn display_name_matches_on_sort_number_too() {
    let episodes = vec![EpisodeInfo {
        name: "Original".to_string(),
        name_cn: String::new(),
        sort: 31,
        ep: 5,
    }];
    assert_eq!(
        generate_file_name("raw.mkv", "mkv", Some(31), &episodes),
        "31 - Original.mkv"
    );
}

#[test]
fn remote_path_joins_all_components() {
    let p = remote_path(
        Date { year: 2024, month: 1, day: 15 },
        "Monday",
        "Show",
        "01 - Ep.mkv",
    );
    assert_eq!(p, "2024年1月/Monday/Show/01 - Ep.mkv");
}

fn downloaded_task() -> Task {
    Task {
        url: "magnet:stub".to_string(),
        anime_title: "Show".to_string(),
        weekday: "Monday".to_string(),
        air_date: Date { year: 2024, month: 1, day: 15 },
        bangumi_id: 7,
        added_at: 1,
        state: TaskState::Downloaded {
            file_path: "tmp/ep01".to_string(),
            info_hash: "abc".to_string(),
        },
    }
}

#[test]
fn no_payload_goes_straight_to_finished() {
    let plan = upload_plan(&downloaded_task(), &None, 500);
    match plan {
        UploadPlan::FinishOnly { new_state } => match new_state {
            TaskState::Finished { file_path, info_hash, finish_time } => {
                assert_eq!(file_path, "tmp/ep01");
                assert_eq!(info_hash, "abc");
                assert_eq!(finish_time, 500);
            }
            other => panic!("expected Finished, got {:?}", other),
        },
        UploadPlan::Publish { .. } => panic!("no payload must not be published"),
    }
}

#[test]
fn found_payload_is_published_then_finished() {
    let video = Some("tmp/ep01/video.mkv".to_string());
    let plan = upload_plan(&downloaded_task(), &video, 501);
    match plan {
        UploadPlan::Publish { video_path, new_state } => {
            assert_eq!(video_path, "tmp/ep01/video.mkv");
            match new_state {
                TaskState::Finished { finish_time, .. } => assert_eq!(finish_time, 501),
                other => panic!("expected Finished, got {:?}", other),
            }
        }
        UploadPlan::FinishOnly { .. } => panic!("a found payload must be published"),
    }
}
