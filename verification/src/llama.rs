//! The filename classifier's interface: a once-initialized handle carrying
//! the model name, endpoint and token; the chat request the decoder sends;
//! and the scan that picks the first well-formed result line out of the
//! model's reply.
//!
//! The HTTP call itself happens outside; only building the request and
//! reading the reply are logic here.

use vstd::prelude::*;

verus! {

/// What one well-formed result line carries.
#[derive(Clone, PartialEq, Eq, Debug)]
pub struct ContentResponse {
    pub title: String,
    pub season: u32,
    pub episode: u32,
}

/// What parsing one reply line yields: the title, season and episode of a
/// JSON object carrying exactly those keys, or nothing. The result depends
/// on the line's text alone.
pub uninterp spec fn parsed_content(s: Seq<char>) -> Option<(Seq<char>, u32, u32)>;

/// Relies on serde_json's `from_str` (and `Value`'s accessors) to read one
/// reply line as a JSON object with a string `title` and integral `season`
/// and `episode`; the result is a function of the line alone, named
/// [`parsed_content`].
#[verifier::external_body]
fn parse_content_line(line: &str) -> (r: Option<ContentResponse>)
    ensures
        match r {
            Some(c) => parsed_content(line@) == Some((c.title@, c.season, c.episode)),
            None => parsed_content(line@) is None,
        },
{
    let v: serde_json::Value = match serde_json::from_str(line) {
        Ok(v) => v,
        Err(_) => return None,
    };
    let title = v.get("title")?.as_str()?.to_string();
    let season = u32::try_from(v.get("season")?.as_u64()?).ok()?;
    let episode = u32::try_from(v.get("episode")?.as_u64()?).ok()?;
    Some(ContentResponse { title, season, episode })
}

/// The parse of the first line that parses, if any line does.
pub open spec fn spec_first_parsed(ls: Seq<Seq<char>>) -> Option<(Seq<char>, u32, u32)>
    decreases ls.len(),
{
    if ls.len() == 0 {
        None
    } else {
        match parsed_content(ls[0]) {
            Some(t) => Some(t),
            None => spec_first_parsed(ls.drop_first()),
        }
    }
}

proof fn lemma_first_parsed_at(ls: Seq<Seq<char>>, i: int)
    requires
        0 <= i < ls.len(),
        parsed_content(ls[i]) is Some,
        forall|j: int| 0 <= j < i ==> parsed_content(#[trigger] ls[j]) is None,
    ensures
        spec_first_parsed(ls) == parsed_content(ls[i]),
    decreases i,
{
    if i == 0 {
    } else {
        assert(parsed_content(ls[0]) is None);
        assert(ls.drop_first()[i - 1] == ls[i]);
        assert(forall|j: int| 0 <= j < i - 1 ==> parsed_content(
            #[trigger] ls.drop_first()[j],
        ) is None);
        lemma_first_parsed_at(ls.drop_first(), i - 1);
    }
}

proof fn lemma_first_parsed_none(ls: Seq<Seq<char>>)
    requires
        forall|j: int| 0 <= j < ls.len() ==> parsed_content(#[trigger] ls[j]) is None,
    ensures
        spec_first_parsed(ls) is None,
    decreases ls.len(),
{
    if ls.len() > 0 {
        assert(forall|j: int| 0 <= j < ls.drop_first().len() ==> parsed_content(
            #[trigger] ls.drop_first()[j],
        ) is None);
        lemma_first_parsed_none(ls.drop_first());
    }
}

/// Scan the reply's lines in order and return the first well-formed result
/// line's content, or nothing when no line parses.
pub fn first_content(lines: &Vec<String>) -> (r: Option<ContentResponse>)
    ensures
        ({
            let ls = lines@.map_values(|l: String| l@);
            match r {
                Some(c) => spec_first_parsed(ls) == Some((c.title@, c.season, c.episode)),
                None => spec_first_parsed(ls) is None,
            }
        }),
{
    let ghost ls = lines@.map_values(|l: String| l@);
    let n = lines.len();
    for i in 0..n
        invariant
            n == lines@.len(),
            ls == lines@.map_values(|l: String| l@),
            forall|j: int| 0 <= j < i ==> parsed_content(#[trigger] ls[j]) is None,
    {
        let parsed = parse_content_line(lines[i].as_str());
        match parsed {
            Some(c) => {
                proof {
                    assert(ls[i as int] == lines@[i as int]@);
                    lemma_first_parsed_at(ls, i as int);
                }
                return Some(c);
            },
            None => {
                proof {
                    assert(ls[i as int] == lines@[i as int]@);
                }
            },
        }
    }
    proof {
        lemma_first_parsed_none(ls);
    }
    None
}

/// Who speaks one chat message.
#[derive(Clone, Copy, PartialEq, Eq, Debug)]
pub enum Role {
    System,
    User,
    Assistant,
}

/// One chat message of the decode request.
#[derive(Clone, PartialEq, Eq, Debug)]
pub struct ChatMessage {
    pub role: Role,
    pub content: Option<String>,
}

/// The decode request: the configured model and the prompt transcript.
pub struct ChatRequest {
    pub model: String,
    pub messages: Vec<ChatMessage>,
}

/// The classifier handle: model name, endpoint and token, set once at
/// startup.
pub struct Llama {
    model: String,
    url: String,
    token: String,
}

/// The slot the one classifier handle lives in; an explicit object in
/// place of hidden global state.
pub struct LlamaSlot {
    inner: Option<Llama>,
}

impl Llama {
    pub closed spec fn spec_model(&self) -> Seq<char> {
        self.model@
    }

    pub closed spec fn spec_url(&self) -> Seq<char> {
        self.url@
    }

    pub closed spec fn spec_token(&self) -> Seq<char> {
        self.token@
    }

    /// The configured endpoint, for the caller that sends the request.
    pub fn url(&self) -> (r: &String)
        ensures
            r@ == self.spec_url(),
    {
        &self.url
    }

    /// The configured bearer token, for the caller that sends the request.
    pub fn token(&self) -> (r: &String)
        ensures
            r@ == self.spec_token(),
    {
        &self.token
    }

    /// The initialized handle, or nothing before initialization.
    pub fn get<'a>(slot: &'a LlamaSlot) -> (r: Option<&'a Llama>)
        ensures
            match r {
                Some(l) => slot.spec_inner() == Some(*l),
                None => slot.spec_inner() is None,
            },
    {
        match &slot.inner {
            Some(l) => Some(l),
            None => None,
        }
    }

    /// Fill the slot once; a second initialization is refused and leaves
    /// the first configuration in place.
    pub fn init(slot: &mut LlamaSlot, model: &str, url: &str, token: &str) -> (r: Result<
        (),
        String,
    >)
        ensures
            match r {
                Ok(()) => old(slot).spec_inner() is None && match final (slot).spec_inner() {
                    Some(l) => l.spec_model() == model@ && l.spec_url() == url@ && l.spec_token()
                        == token@,
                    None => false,
                },
                Err(_) => old(slot).spec_inner() is Some && *final (slot) == *old(slot),
            },
    {
        match &slot.inner {
            Some(_) => Err(String::from_str("the classifier has already been initialized")),
            None => {
                slot.inner = Some(
                    Llama { model: model.to_owned(), url: url.to_owned(), token: token.to_owned() },
                );
                Ok(())
            },
        }
    }

    /// The decode request for one file name: the fixed instruction and
    /// example transcript, closed by the file name as the final user
    /// message, under the configured model.
    pub fn build_decode_request(&self, filename: &str) -> (r: ChatRequest)
        ensures
            r.model@ == self.spec_model(),
            r.messages@.len() == 14,
            r.messages@[0].role is System && match r.messages@[0].content {
                Some(c) => c@
                    == "Please parse the following animation file names into JSON objects containing the keys \"title,\" \"season,\" and \"episode.\" Ensure the accuracy of your parsing results."@,
                None => false,
            },
            forall|i: int|
                1 <= i < 13 ==> ((#[trigger] r.messages@[i]).role is User <==> i % 2 == 1) && (
                r.messages@[i].role is Assistant <==> i % 2 == 0) && r.messages@[i].content
                    is Some,
            r.messages@[13].role is User && match r.messages@[13].content {
                Some(c) => c@ == filename@,
                None => false,
            },
    {
        let mut messages: Vec<ChatMessage> = Vec::new();
        messages.push(
            ChatMessage {
                role: Role::System,
                content: Some(
                    String::from_str(
                        "Please parse the following animation file names into JSON objects containing the keys \"title,\" \"season,\" and \"episode.\" Ensure the accuracy of your parsing results.",
                    ),
                ),
            },
        );
        messages.push(
            ChatMessage {
                role: Role::User,
                content: Some(
                    String::from_str(
                        "[Billion Meta Lab] 恋语轻唱 Sasayaku You ni Koi wo Utau [02][1080][CHS].mp4",
                    ),
                ),
            },
        );
        messages.push(
            ChatMessage {
                role: Role::Assistant,
                content: Some(
                    String::from_str(
                        "The title in the filename is \"恋语轻唱 Sasayaku You ni Koi wo Utau\", but \"恋语轻唱\" has the same meaning as the Japanese Romaji \"Sasayaku You ni Koi wo Utau\". In this case, it is preferred to use the alphabetic title.There is no clear season identifier, which usually defaults to Season 1. Since \"[02]\" in the filename indicates this is the 2nd episode.\n{\"title\": \"Sasayaku You ni Koi wo Utau\", \"season\": 1, \"episode\": 2}",
                    ),
                ),
            },
        );
        messages.push(
            ChatMessage {
                role: Role::User,
                content: Some(
                    String::from_str(
                        "[Up to 21°C] 永生 第三季 - 06 (B-Global Donghua 1920x1080 HEVC AAC MKV) [9F7CAB79].mkv",
                    ),
                ),
            },
        );
        messages.push(
            ChatMessage {
                role: Role::Assistant,
                content: Some(
                    String::from_str(
                        "The title in the filename is \"永生\" The explicit designation of \"第三季\" indicates that this is Season 3, while \"06\" points out that this is Episode 6.\n{\"title\": \"永生\", \"season\": 3, \"episode\": 6}",
                    ),
                ),
            },
        );
        messages.push(
            ChatMessage {
                role: Role::User,
                content: Some(
                    String::from_str(
                        "[GJ.Y] 我内心危险的东西2 - 05 (B-Global 1920x1080 HEVC AAC MKV) [60D8C635].mkv",
                    ),
                ),
            },
        );
        messages.push(
            ChatMessage {
                role: Role::Assistant,
                content: Some(
                    String::from_str(
                        "The title in the filename is \"我内心危险的东西\". The number \"2\" following the title indicates that this is Season 2, and \"05\" indicates that this is Episode 5.\n{\"title\": \"我内心危险的东西\", \"season\": 2, \"episode\": 5}",
                    ),
                ),
            },
        );
        messages.push(
            ChatMessage {
                role: Role::User,
                content: Some(
                    String::from_str(
                        "[Up to 21°C] Shinigami Bocchan to Kuro Maid 3rd Season - 30 (CR 1920x1080 AVC AAC MKV) [CE516DAA].mkv",
                    ),
                ),
            },
        );
        messages.push(
            ChatMessage {
                role: Role::Assistant,
                content: Some(
                    String::from_str(
                        "The title in the filename is \"Shinigami Bocchan to Kuro Maid\". The explicit designation of \"3rd Season\" indicates that this is Season 3, while \"30\" points out that this is Episode 30.\n{\"title\": \"Shinigami Bocchan to Kuro Maid\", \"season\": 3, \"episode\": 30}",
                    ),
                ),
            },
        );
        messages.push(
            ChatMessage {
                role: Role::User,
                content: Some(
                    String::from_str(
                        "[Sakurato] Dungeon Meshi [17v2][AVC-8bit 1080p AAC][CHT].mp4",
                    ),
                ),
            },
        );
        messages.push(
            ChatMessage {
                role: Role::Assistant,
                content: Some(
                    String::from_str(
                        "The title in the filename is \"Dungeon Meshi\". There is no explicit season identifier, which usually defaults to Season 1. The \"17v2\" indicates that this is Episode 17, with \"v2\" likely indicating a version or revision.\n{\"title\": \"Dungeon Meshi\", \"season\": 1, \"episode\": 17}",
                    ),
                ),
            },
        );
        messages.push(
            ChatMessage {
                role: Role::User,
                content: Some(
                    String::from_str(
                        "[Up to 21°C] Mushoku Tensei II -  Isekai Ittara Honki Dasu Part 2 - 18 (ABEMA 1920x1080 AVC AAC MP4) [05628308].mp4",
                    ),
                ),
            },
        );
        messages.push(
            ChatMessage {
                role: Role::Assistant,
                content: Some(
                    String::from_str(
                        "The title in the filename is \"Mushoku Tensei II - Isekai Ittara Honki Dasu Part 2\". The \"II\" indicates that this is the second season, and \"18\" indicates that this is Episode 18.\n{\"title\": \"Mushoku Tensei II - Isekai Ittara Honki Dasu Part 2\", \"season\": 2, \"episode\": 18}",
                    ),
                ),
            },
        );
        messages.push(ChatMessage { role: Role::User, content: Some(filename.to_owned()) });
        ChatRequest { model: self.model.clone(), messages }
    }
}

impl LlamaSlot {
    /// The held configuration, if initialization has happened.
    pub closed spec fn spec_inner(&self) -> Option<Llama> {
        self.inner
    }

    /// An empty slot.
    pub fn new() -> (r: LlamaSlot)
        ensures
            r.spec_inner() is None,
    {
        LlamaSlot { inner: None }
    }
}

} // verus!
