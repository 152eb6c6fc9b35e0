//! The upload coordinator's logic: recognizing a payload file, building the
//! publish path (quarter bucket / weekday / series / display name), and the
//! decision for one `Downloaded` job.
//!
//! Walking the output directory and pushing bytes to the storage backends
//! happen outside; the functions here decide and compute.

use vstd::prelude::*;

use crate::task::Date;
use crate::task::Task;
use crate::task::TaskState;
use crate::task::spec_days_in_month;
use crate::task::spec_is_leap_year;
use crate::text::chars_to_string;
use crate::text::pad2;
use crate::text::spec_join_path;
use crate::text::spec_pad2;
use crate::text::spec_dec;
use crate::text::str_chars;
use crate::text::join_path;
use crate::text::u64_to_string;

verus! {

// ---------------------------------------------------------------------------
// Recognizing a payload file
// ---------------------------------------------------------------------------
/// Index of the last `.` in a name, `-1` when there is none.
pub open spec fn spec_last_dot(s: Seq<char>) -> int
    decreases s.len(),
{
    if s.len() == 0 {
        -1
    } else if s.last() == '.' {
        s.len() - 1
    } else {
        spec_last_dot(s.drop_last())
    }
}

/// Whether a file name carries a recognized media extension: what follows
/// its last `.` is `mp4` or `mkv`, and the `.` neither starts the name (a
/// leading dot marks a hidden file, not an extension) nor is absent.
pub open spec fn spec_is_video_name(s: Seq<char>) -> bool {
    let d = spec_last_dot(s);
    d > 0 && (s.subrange(d + 1, s.len() as int) == seq!['m', 'p', '4'] || s.subrange(
        d + 1,
        s.len() as int,
    ) == seq!['m', 'k', 'v'])
}

proof fn lemma_last_dot_at(s: Seq<char>, d: int)
    requires
        0 <= d < s.len(),
        s[d] == '.',
        forall|j: int| d < j < s.len() ==> s[j] != '.',
    ensures
        spec_last_dot(s) == d,
    decreases s.len(),
{
    if d == s.len() - 1 {
    } else {
        assert(s.last() != '.');
        assert(forall|j: int| d < j < s.drop_last().len() ==> s.drop_last()[j] != '.');
        assert(s.drop_last()[d] == s[d]);
        lemma_last_dot_at(s.drop_last(), d);
    }
}

proof fn lemma_last_dot_none(s: Seq<char>)
    requires
        forall|j: int| 0 <= j < s.len() ==> s[j] != '.',
    ensures
        spec_last_dot(s) == -1,
    decreases s.len(),
{
    if s.len() > 0 {
        assert(forall|j: int| 0 <= j < s.drop_last().len() ==> s.drop_last()[j] != '.');
        lemma_last_dot_none(s.drop_last());
    }
}

/// Whether a file name ends in a recognized media extension.
pub fn has_video_extension(name: &str) -> (r: bool)
    ensures
        r == spec_is_video_name(name@),
{
    let v = str_chars(name);
    let n = v.len();
    let mut last_dot: Option<usize> = None;
    for i in 0..n
        invariant
            n == v@.len(),
            v@ == name@,
            match last_dot {
                Some(d) => d < i && v@[d as int] == '.' && forall|j: int|
                    d < j < i ==> v@[j] != '.',
                None => forall|j: int| 0 <= j < i ==> v@[j] != '.',
            },
    {
        if v[i] == '.' {
            last_dot = Some(i);
        }
    }
    match last_dot {
        Some(d) => {
            proof {
                lemma_last_dot_at(name@, d as int);
            }
            if d == 0 || n - d - 1 != 3 {
                proof {
                    if d > 0 {
                        assert(name@.subrange(d + 1, n as int).len() != 3);
                    }
                }
                false
            } else {
                let ghost ext = name@.subrange(d + 1, n as int);
                proof {
                    assert(ext.len() == 3);
                    assert(ext[0] == v@[d + 1]);
                    assert(ext[1] == v@[d + 2]);
                    assert(ext[2] == v@[d + 3]);
                }
                let is_mp4 = v[d + 1] == 'm' && v[d + 2] == 'p' && v[d + 3] == '4';
                let is_mkv = v[d + 1] == 'm' && v[d + 2] == 'k' && v[d + 3] == 'v';
                proof {
                    if is_mp4 {
                        assert(ext =~= seq!['m', 'p', '4']);
                    }
                    if is_mkv {
                        assert(ext =~= seq!['m', 'k', 'v']);
                    }
                }
                is_mp4 || is_mkv
            }
        },
        None => {
            proof {
                lemma_last_dot_none(name@);
            }
            false
        },
    }
}

// ---------------------------------------------------------------------------
// Display-name sanitizing
// ---------------------------------------------------------------------------
/// Characters a storage path must not carry; each is replaced by `_`.
pub open spec fn spec_sanitize_char(c: char) -> char {
    if c == '\\' || c == '/' || c == ':' || c == '*' || c == '?' || c == '"' || c == '<' || c == '>'
        || c == '|' {
        '_'
    } else {
        c
    }
}

/// A name with every reserved character replaced by `_`.
pub open spec fn spec_sanitize(s: Seq<char>) -> Seq<char> {
    s.map_values(|c: char| spec_sanitize_char(c))
}

/// Replaces the characters a storage path must not carry by `_`.
pub fn sanitize_filename(filename: &str) -> (r: String)
    ensures
        r@ == spec_sanitize(filename@),
{
    let v = str_chars(filename);
    let n = v.len();
    let mut out: Vec<char> = Vec::new();
    for i in 0..n
        invariant
            n == v@.len(),
            v@ == filename@,
            out@.len() == i,
            forall|j: int| 0 <= j < i ==> out@[j] == spec_sanitize_char(v@[j]),
    {
        let c = v[i];
        let mapped = if c == '\\' || c == '/' || c == ':' || c == '*' || c == '?' || c == '"' || c
            == '<' || c == '>' || c == '|' {
            '_'
        } else {
            c
        };
        out.push(mapped);
    }
    proof {
        assert(out@ =~= spec_sanitize(filename@));
    }
    chars_to_string(&out)
}

// ---------------------------------------------------------------------------
// The quarter bucket
// ---------------------------------------------------------------------------
/// Days in the months before `month` of the given year.
pub open spec fn spec_days_before_month(year: int, month: int) -> int {
    let leap: int = if spec_is_leap_year(year) {
        1
    } else {
        0
    };
    if month == 1 {
        0
    } else if month == 2 {
        31
    } else if month == 3 {
        59 + leap
    } else if month == 4 {
        90 + leap
    } else if month == 5 {
        120 + leap
    } else if month == 6 {
        151 + leap
    } else if month == 7 {
        181 + leap
    } else if month == 8 {
        212 + leap
    } else if month == 9 {
        243 + leap
    } else if month == 10 {
        273 + leap
    } else if month == 11 {
        304 + leap
    } else {
        334 + leap
    }
}

/// Ordinal of a date within its year, January the first being day one.
pub open spec fn spec_day_of_year(d: Date) -> int {
    d.day + spec_days_before_month(d.year as int, d.month as int)
}

pub open spec fn spec_abs(x: int) -> int {
    if x < 0 {
        -x
    } else {
        x
    }
}

/// The month (1, 4, 7 or 10) whose quarter-start date lies nearest — by
/// days within the same year — to the given date; the earlier quarter wins
/// a tie.
pub open spec fn spec_quarter_month(d: Date) -> int {
    let doy = spec_day_of_year(d);
    let d1 = spec_abs(doy - spec_day_of_year(Date { year: d.year, month: 1, day: 1 }));
    let d2 = spec_abs(doy - spec_day_of_year(Date { year: d.year, month: 4, day: 1 }));
    let d3 = spec_abs(doy - spec_day_of_year(Date { year: d.year, month: 7, day: 1 }));
    let d4 = spec_abs(doy - spec_day_of_year(Date { year: d.year, month: 10, day: 1 }));
    if d1 <= d2 && d1 <= d3 && d1 <= d4 {
        1
    } else if d2 <= d3 && d2 <= d4 {
        4
    } else if d3 <= d4 {
        7
    } else {
        10
    }
}

/// The quarter bucket's folder name: the year, then the quarter's starting
/// month, in the feed's local convention (`年` year, `月` month).
pub open spec fn spec_folder_name(d: Date) -> Seq<char> {
    spec_dec(d.year as int) + seq!['年'] + spec_dec(spec_quarter_month(d)) + seq!['月']
}

fn is_leap_year(year: i32) -> (r: bool)
    requires
        0 <= year,
    ensures
        r == spec_is_leap_year(year as int),
{
    (year % 4 == 0 && year % 100 != 0) || year % 400 == 0
}

fn days_before_month(year: i32, month: u8) -> (r: u16)
    requires
        0 <= year,
        1 <= month <= 12,
    ensures
        r == spec_days_before_month(year as int, month as int),
{
    let leap: u16 = if is_leap_year(year) {
        1
    } else {
        0
    };
    match month {
        1 => 0,
        2 => 31,
        3 => 59 + leap,
        4 => 90 + leap,
        5 => 120 + leap,
        6 => 151 + leap,
        7 => 181 + leap,
        8 => 212 + leap,
        9 => 243 + leap,
        10 => 273 + leap,
        11 => 304 + leap,
        _ => 334 + leap,
    }
}

fn day_of_year(d: Date) -> (r: u16)
    requires
        d.valid(),
    ensures
        r == spec_day_of_year(d),
        1 <= r <= 366,
    {
    d.day as u16 + days_before_month(d.year, d.month)
}

fn dist(a: u16, b: u16) -> (r: u16)
    ensures
        r == spec_abs(a - b),
{
    if a >= b {
        a - b
    } else {
        b - a
    }
}

/// The quarter-start month nearest to the date, see [`spec_quarter_month`].
fn quarter_month(d: Date) -> (m: u8)
    requires
        d.valid(),
    ensures
        m == spec_quarter_month(d),
{
    let doy = day_of_year(d);
    let d1 = dist(doy, day_of_year(Date { year: d.year, month: 1, day: 1 }));
    let d2 = dist(doy, day_of_year(Date { year: d.year, month: 4, day: 1 }));
    let d3 = dist(doy, day_of_year(Date { year: d.year, month: 7, day: 1 }));
    let d4 = dist(doy, day_of_year(Date { year: d.year, month: 10, day: 1 }));
    if d1 <= d2 && d1 <= d3 && d1 <= d4 {
        1
    } else if d2 <= d3 && d2 <= d4 {
        4
    } else if d3 <= d4 {
        7
    } else {
        10
    }
}

/// The quarter bucket's folder name for a date, such as the year-month
/// label of the quarter that starts nearest to it.
pub fn generate_folder_name(date: Date) -> (r: String)
    requires
        date.valid(),
    ensures
        r@ == spec_folder_name(date),
{
    let mut s = u64_to_string(date.year as u64);
    s.push('年');
    let m = quarter_month(date);
    let mut s = s.concat(u64_to_string(m as u64).as_str());
    s.push('月');
    proof {
        assert(s@ =~= spec_folder_name(date));
    }
    s
}

// ---------------------------------------------------------------------------
// The display name
// ---------------------------------------------------------------------------
/// One episode entry of the external catalogue, as plain values.
#[derive(Clone, PartialEq, Eq, Debug)]
pub struct EpisodeInfo {
    pub name: String,
    pub name_cn: String,
    pub sort: u32,
    pub ep: u32,
}

/// Whether a catalogue entry is the one the classifier decoded: its `ep` or
/// its `sort` number equals the decoded episode.
pub open spec fn ep_matches(e: EpisodeInfo, episode: u32) -> bool {
    e.ep == episode || e.sort == episode
}

/// The first catalogue entry matching the decoded episode, if any.
pub open spec fn spec_first_match(s: Seq<EpisodeInfo>, episode: u32) -> Option<EpisodeInfo>
    decreases s.len(),
{
    if s.len() == 0 {
        None
    } else if ep_matches(s[0], episode) {
        Some(s[0])
    } else {
        spec_first_match(s.drop_first(), episode)
    }
}

proof fn lemma_first_match_at(s: Seq<EpisodeInfo>, episode: u32, i: int)
    requires
        0 <= i < s.len(),
        ep_matches(s[i], episode),
        forall|j: int| 0 <= j < i ==> !ep_matches(s[j], episode),
    ensures
        spec_first_match(s, episode) == Some(s[i]),
    decreases i,
{
    if i == 0 {
    } else {
        assert(!ep_matches(s[0], episode));
        assert(s.drop_first()[i - 1] == s[i]);
        assert(forall|j: int| 0 <= j < i - 1 ==> !ep_matches(s.drop_first()[j], episode));
        lemma_first_match_at(s.drop_first(), episode, i - 1);
    }
}

proof fn lemma_first_match_none(s: Seq<EpisodeInfo>, episode: u32)
    requires
        forall|j: int| 0 <= j < s.len() ==> !ep_matches(s[j], episode),
    ensures
        spec_first_match(s, episode) is None,
    decreases s.len(),
{
    if s.len() > 0 {
        assert(forall|j: int| 0 <= j < s.drop_first().len() ==> !ep_matches(
            s.drop_first()[j],
            episode,
        ));
        lemma_first_match_none(s.drop_first(), episode);
    }
}

/// The title to display for a catalogue entry: the local-language name when
/// it is present, the original name otherwise.
pub open spec fn spec_chosen_title(e: EpisodeInfo) -> Seq<char> {
    if e.name_cn@.len() == 0 {
        e.name@
    } else {
        e.name_cn@
    }
}

/// The enriched display name: zero-padded episode number, the sanitized
/// title, and the original extension.
pub open spec fn spec_display_name(episode: u32, title: Seq<char>, ext: Seq<char>) -> Seq<char> {
    spec_pad2(episode as int) + seq![' ', '-', ' '] + spec_sanitize(title) + seq!['.'] + ext
}

/// The display name of an uploaded file. With a decoded episode number and
/// a catalogue entry matching it, the name is rebuilt as
/// `NN - Title.ext`; in every other case the original file name is kept.
pub fn generate_file_name(
    file_name: &str,
    ext: &str,
    episode: Option<u32>,
    episodes: &Vec<EpisodeInfo>,
) -> (r: String)
    ensures
        match episode {
            None => r@ == file_name@,
            Some(ep) => match spec_first_match(episodes@, ep) {
                None => r@ == file_name@,
                Some(e) => r@ == spec_display_name(ep, spec_chosen_title(e), ext@),
            },
        },
{
    match episode {
        None => file_name.to_owned(),
        Some(ep) => {
            let n = episodes.len();
            let mut found: Option<usize> = None;
            for i in 0..n
                invariant
                    n == episodes@.len(),
                    match found {
                        Some(f) => f < n && ep_matches(episodes@[f as int], ep) && forall|j: int|
                            0 <= j < f ==> !ep_matches(episodes@[j], ep),
                        None => forall|j: int| 0 <= j < i ==> !ep_matches(episodes@[j], ep),
                    },
            {
                if found.is_none() && (episodes[i].ep == ep || episodes[i].sort == ep) {
                    found = Some(i);
                }
            }
            match found {
                None => {
                    proof {
                        lemma_first_match_none(episodes@, ep);
                    }
                    file_name.to_owned()
                },
                Some(f) => {
                    proof {
                        lemma_first_match_at(episodes@, ep, f as int);
                    }
                    let e = &episodes[f];
                    let title = if e.name_cn.as_str().is_empty() {
                        &e.name
                    } else {
                        &e.name_cn
                    };
                    let st = sanitize_filename(title.as_str());
                    let mut s = pad2(ep);
                    s.append(" - ");
                    s.append(st.as_str());
                    s.push('.');
                    s.append(ext);
                    proof {
                        reveal_strlit(" - ");
                        assert(" - "@ =~= seq![' ', '-', ' ']);
                        assert(s@ =~= spec_display_name(ep, spec_chosen_title(episodes@[f as int]), ext@));
                    }
                    s
                },
            }
        },
    }
}

// ---------------------------------------------------------------------------
// The publish path and the per-job decision
// ---------------------------------------------------------------------------
/// The remote path of a payload: quarter bucket, weekday, series title, and
/// the display name, joined by `/`.
pub fn remote_path(air_date: Date, weekday: &str, title: &str, video_name: &str) -> (r: String)
    requires
        air_date.valid(),
    ensures
        r@ == spec_join_path(
            spec_join_path(spec_join_path(spec_folder_name(air_date), weekday@), title@),
            video_name@,
        ),
{
    let folder = generate_folder_name(air_date);
    let a = join_path(folder.as_str(), weekday);
    let b = join_path(a.as_str(), title);
    join_path(b.as_str(), video_name)
}

/// Whether a state is `Finished` carrying the payload path and content hash
/// of the prior `Downloaded` state, with the given finish time.
pub open spec fn finished_from(s: TaskState, prior: TaskState, now: u64) -> bool {
    match s {
        TaskState::Finished { file_path: fp2, info_hash: ih2, finish_time } => match prior {
            TaskState::Downloaded { file_path, info_hash } => fp2@ == file_path@ && ih2@
                == info_hash@ && finish_time == now,
            _ => false,
        },
        _ => false,
    }
}

/// The coordinator's plan for one `Downloaded` job.
pub enum UploadPlan {
    /// No recognized payload was found: nothing is published, no backend is
    /// called, and the job goes straight to `Finished`.
    FinishOnly { new_state: TaskState },
    /// Publish this payload to every configured backend, then record
    /// `Finished`. A single backend's failure neither stops the remaining
    /// backends nor blocks the transition.
    Publish { video_path: String, new_state: TaskState },
}

/// The coordinator's decision for one `Downloaded` job, given the payload
/// file found in its output directory (or none). Either way the job's next
/// state is `Finished` — carrying the stored path and hash, with
/// `finish_time` set to the sweep's clock — and only a found payload asks
/// for any backend upload.
pub fn upload_plan(task: &Task, video: &Option<String>, now: u64) -> (p: UploadPlan)
    requires
        task.state is Downloaded,
    ensures
        video is None ==> (p matches UploadPlan::FinishOnly { new_state } && finished_from(
            new_state,
            task.state,
            now,
        )),
        video matches Some(v) ==> (p matches UploadPlan::Publish { video_path, new_state }
            && video_path@ == v@ && finished_from(new_state, task.state, now)),
{
    let (file_path, info_hash) = match &task.state {
        TaskState::Downloaded { file_path, info_hash } => (file_path.clone(), info_hash.clone()),
        _ => (String::new(), String::new()),
    };
    let new_state = TaskState::Finished { file_path, info_hash, finish_time: now };
    match video {
        None => UploadPlan::FinishOnly { new_state },
        Some(v) => UploadPlan::Publish { video_path: v.clone(), new_state },
    }
}

} // verus!
