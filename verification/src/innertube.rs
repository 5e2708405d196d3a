//! Resolves a video to a stream that the local server will serve, with its title and length.
use vstd::prelude::*;
use vstd::string::StringExecFns;
use crate::http::{no_headers, no_headers_view, put_header, PlayerCall, PlayerCallView, Reply};
use crate::json::{json_document, parse_json, Json, JsonView};
use crate::player_response::{details_of, read_details, Details, DetailsView};
use crate::text::{opt_str, opt_text, parse_u64, same_text, u64_of_text};

verus! {

/// A playable track.
#[derive(Debug, Clone)]
pub struct StreamInfo {
    /// The title.
    pub title: String,
    /// The length in seconds.
    pub duration: u64,
    /// Where the player fetches the audio.
    pub stream_url: String,
}

/// What a [`StreamInfo`] says.
pub struct StreamInfoView {
    /// The title.
    pub title: Seq<char>,
    /// The length in seconds.
    pub duration: u64,
    /// Where the player fetches the audio.
    pub stream_url: Seq<char>,
}

impl View for StreamInfo {
    type V = StreamInfoView;

    open spec fn view(&self) -> StreamInfoView {
        StreamInfoView {
            title: self.title@,
            duration: self.duration,
            stream_url: self.stream_url@,
        }
    }
}

/// Why a client did not yield a track's title and length.
#[derive(Debug, Clone)]
pub enum LookupError {
    /// The request failed; the text says why.
    Transport(String),
    /// The endpoint answered with this status.
    Status(String),
    /// The answer was no JSON text.
    NotJson,
    /// The track cannot be played.
    NotPlayable {
        /// The video.
        video_id: String,
        /// The playability status.
        status: String,
        /// The reason given.
        reason: String,
    },
}

/// What a [`LookupError`] says.
pub enum LookupErrorView {
    /// The request failed; the text says why.
    Transport(Seq<char>),
    /// The endpoint answered with this status.
    Status(Seq<char>),
    /// The answer was no JSON text.
    NotJson,
    /// The track cannot be played.
    NotPlayable {
        /// The video.
        video_id: Seq<char>,
        /// The playability status.
        status: Seq<char>,
        /// The reason given.
        reason: Seq<char>,
    },
}

impl View for LookupError {
    type V = LookupErrorView;

    open spec fn view(&self) -> LookupErrorView {
        match self {
            LookupError::Transport(s) => LookupErrorView::Transport(s@),
            LookupError::Status(s) => LookupErrorView::Status(s@),
            LookupError::NotJson => LookupErrorView::NotJson,
            LookupError::NotPlayable { video_id, status, reason } => LookupErrorView::NotPlayable {
                video_id: video_id@,
                status: status@,
                reason: reason@,
            },
        }
    }
}

/// The text that reports an error.
pub open spec fn lookup_error_text(e: LookupErrorView) -> Seq<char> {
    match e {
        LookupErrorView::Transport(s) => s,
        LookupErrorView::Status(s) => "/player HTTP "@ + s,
        LookupErrorView::NotJson => "error decoding response body"@,
        LookupErrorView::NotPlayable { video_id, status, reason } => video_id + ": "@ + status
            + " ("@ + reason + ")"@,
    }
}

impl LookupError {
    /// The text that reports the error.
    pub fn describe(&self) -> (s: String)
        ensures
            s@ == lookup_error_text(self@),
    {
        match self {
            LookupError::Transport(s) => s.clone(),
            LookupError::Status(s) => {
                let mut out = "/player HTTP ".to_owned();
                out.append(s.as_str());
                out
            },
            LookupError::NotJson => "error decoding response body".to_owned(),
            LookupError::NotPlayable { video_id, status, reason } => {
                let mut out = video_id.clone();
                out.append(": ");
                out.append(status.as_str());
                out.append(" (");
                out.append(reason.as_str());
                out.append(")");
                out
            },
        }
    }
}

/// A title and a length in seconds, or why there are none.
pub type Track = Result<(String, u64), LookupError>;

/// What a [`Track`] says.
pub open spec fn track_view(t: Track) -> Result<(Seq<char>, u64), LookupErrorView> {
    match t {
        Ok(found) => Ok((found.0@, found.1)),
        Err(e) => Err(e@),
    }
}

/// The member that carries a credential transfer token.
pub open spec fn user_of_token(ctt: Seq<char>) -> JsonView {
    JsonView::object().with(
        "credentialTransferTokens"@,
        JsonView::List(
            seq![
                JsonView::object().with("scope"@, JsonView::Text("VIDEO"@)).with(
                    "token"@,
                    JsonView::Text(ctt),
                ),
            ],
        ),
    )
}

/// Composes the member that carries a credential transfer token.
pub fn make_user(ctt: &str) -> (j: Json)
    ensures
        j@ == user_of_token(ctt@),
{
    Json::object().with(
        "credentialTransferTokens",
        Json::list_of(
            Json::object().with("scope", Json::text("VIDEO")).with("token", Json::text(ctt)),
        ),
    )
}

/// The body that asks for a track in a given context.
pub open spec fn body_in_context(video_id: Seq<char>, context: JsonView) -> JsonView {
    JsonView::object().with("videoId"@, JsonView::Text(video_id)).with("context"@, context).with(
        "contentCheckOk"@,
        JsonView::Bool(true),
    ).with("racyCheckOk"@, JsonView::Bool(true))
}

/// Composes the body that asks for a track in a given context.
pub fn make_body(video_id: &str, context: Json) -> (j: Json)
    ensures
        j is Object,
        j@ == body_in_context(video_id@, context@),
{
    Json::object().with("videoId", Json::text(video_id)).with("context", context).with(
        "contentCheckOk",
        Json::Bool(true),
    ).with("racyCheckOk", Json::Bool(true))
}

/// The request that asks for a track as the music web client, with a credential transfer token.
pub open spec fn web_remix_call(video_id: Seq<char>, ctt: Seq<char>) -> PlayerCallView {
    PlayerCallView {
        url: "https://music.youtube.com/youtubei/v1/player?prettyPrint=false"@,
        headers: no_headers_view().push(
            (
                "User-Agent"@,
                "Mozilla/5.0 (Windows NT 10.0; Win64; x64) AppleWebKit/537.36 (KHTML, like Gecko) Chrome/131.0.0.0 Safari/537.36"@,
            ),
        ).push(("Content-Type"@, "application/json"@)).push(
            ("Origin"@, "https://music.youtube.com"@),
        ).push(("Referer"@, "https://music.youtube.com/"@)),
        body: body_in_context(
            video_id,
            JsonView::object().with(
                "client"@,
                JsonView::object().with("clientName"@, JsonView::Text("WEB_REMIX"@)).with(
                    "clientVersion"@,
                    JsonView::Text("1.20241120.01.00"@),
                ).with("hl"@, JsonView::Text("en"@)).with("gl"@, JsonView::Text("US"@)),
            ).with("user"@, user_of_token(ctt)),
        ),
    }
}

/// Composes the request that asks for a track as the music web client, the only one that takes
/// the credential transfer token of a cast session.
pub fn web_remix_player(video_id: &str, ctt: &str) -> (call: PlayerCall)
    ensures
        call@ == web_remix_call(video_id@, ctt@),
{
    let client = Json::object().with("clientName", Json::text("WEB_REMIX")).with(
        "clientVersion",
        Json::text("1.20241120.01.00"),
    ).with("hl", Json::text("en")).with("gl", Json::text("US"));
    let context = Json::object().with("client", client).with("user", make_user(ctt));
    let mut headers = no_headers();
    put_header(
        &mut headers,
        "User-Agent",
        "Mozilla/5.0 (Windows NT 10.0; Win64; x64) AppleWebKit/537.36 (KHTML, like Gecko) Chrome/131.0.0.0 Safari/537.36",
    );
    put_header(&mut headers, "Content-Type", "application/json");
    put_header(&mut headers, "Origin", "https://music.youtube.com");
    put_header(&mut headers, "Referer", "https://music.youtube.com/");
    PlayerCall {
        url: "https://music.youtube.com/youtubei/v1/player?prettyPrint=false",
        headers,
        body: make_body(video_id, context),
    }
}

/// The request that asks for a track as the Android client.
pub open spec fn android_call(video_id: Seq<char>) -> PlayerCallView {
    PlayerCallView {
        url: "https://www.youtube.com/youtubei/v1/player?prettyPrint=false"@,
        headers: no_headers_view().push(
            (
                "User-Agent"@,
                "com.google.android.youtube/19.44.38 (Linux; U; Android 14; en_US; Pixel 8) gzip"@,
            ),
        ).push(("Content-Type"@, "application/json"@)),
        body: body_in_context(
            video_id,
            JsonView::object().with(
                "client"@,
                JsonView::object().with("clientName"@, JsonView::Text("ANDROID"@)).with(
                    "clientVersion"@,
                    JsonView::Text("19.44.38"@),
                ).with("androidSdkVersion"@, JsonView::Int(34)).with(
                    "hl"@,
                    JsonView::Text("en"@),
                ).with("gl"@, JsonView::Text("US"@)),
            ),
        ),
    }
}

/// Composes the request that asks for a track as the Android client.
pub fn android_player(video_id: &str) -> (call: PlayerCall)
    ensures
        call@ == android_call(video_id@),
{
    let client = Json::object().with("clientName", Json::text("ANDROID")).with(
        "clientVersion",
        Json::text("19.44.38"),
    ).with("androidSdkVersion", Json::Int(34)).with("hl", Json::text("en")).with(
        "gl",
        Json::text("US"),
    );
    let mut headers = no_headers();
    put_header(
        &mut headers,
        "User-Agent",
        "com.google.android.youtube/19.44.38 (Linux; U; Android 14; en_US; Pixel 8) gzip",
    );
    put_header(&mut headers, "Content-Type", "application/json");
    PlayerCall {
        url: "https://www.youtube.com/youtubei/v1/player?prettyPrint=false",
        headers,
        body: make_body(video_id, Json::object().with("client", client)),
    }
}

/// The text that stands for a missing one.
pub open spec fn or_text(o: Option<Seq<char>>, default: Seq<char>) -> Seq<char> {
    match o {
        Some(s) => s,
        None => default,
    }
}

/// The number that a decimal text gives, or zero where there is none.
pub open spec fn number_in(text: Option<Seq<char>>) -> u64 {
    match text {
        Some(s) => match u64_of_text(s) {
            Some(n) => n,
            None => 0,
        },
        None => 0,
    }
}

/// The title and length that details give of a video.
///
/// A track is playable where its status is `OK`; a missing status counts as `UNKNOWN`, a missing
/// reason as `unknown`, and a missing title is made up for by the video's id.
pub open spec fn track_of(video_id: Seq<char>, d: DetailsView) -> Result<
    (Seq<char>, u64),
    LookupErrorView,
> {
    let status = or_text(d.status, "UNKNOWN"@);
    if status == "OK"@ {
        Ok((or_text(d.title, video_id), number_in(d.length_seconds)))
    } else {
        Err(
            LookupErrorView::NotPlayable {
                video_id,
                status,
                reason: or_text(d.reason, "unknown"@),
            },
        )
    }
}

/// The text in `o`, or `default`.
pub fn text_or(o: &Option<String>, default: &str) -> (s: String)
    ensures
        s@ == or_text(opt_text(*o), default@),
{
    match o {
        Some(s) => s.clone(),
        None => default.to_owned(),
    }
}

/// The number that a decimal text gives, or zero.
pub fn read_number(text: &Option<String>) -> (n: u64)
    ensures
        n == number_in(opt_text(*text)),
{
    match text {
        Some(s) => match parse_u64(s.as_str()) {
            Some(n) => n,
            None => 0,
        },
        None => 0,
    }
}

/// Judges the details of a video.
pub fn track_details(video_id: &str, details: &Details) -> (res: Track)
    ensures
        track_view(res) == track_of(video_id@, details@),
{
    let status = text_or(&details.status, "UNKNOWN");
    if same_text(status.as_str(), "OK") {
        Ok((text_or(&details.title, video_id), read_number(&details.length_seconds)))
    } else {
        Err(
            LookupError::NotPlayable {
                video_id: video_id.to_owned(),
                status,
                reason: text_or(&details.reason, "unknown"),
            },
        )
    }
}

/// The title and length that an answer's body gives of a video.
pub open spec fn track_in_body(video_id: Seq<char>, body: Seq<u8>) -> Result<
    (Seq<char>, u64),
    LookupErrorView,
> {
    match json_document(body) {
        Some(doc) => track_of(video_id, details_of(doc)),
        None => Err(LookupErrorView::NotJson),
    }
}

/// Reads the title and length of a video from the body of an answer.
pub fn parse_player_response(video_id: &str, body: &[u8]) -> (res: Track)
    ensures
        track_view(res) == track_in_body(video_id@, body@),
{
    match parse_json(body) {
        Ok(v) => track_details(video_id, &read_details(&v)),
        Err(_) => Err(LookupError::NotJson),
    }
}

/// The title and length that a reply gives of a video.
pub open spec fn track_in_reply(video_id: Seq<char>, reply: Reply) -> Result<
    (Seq<char>, u64),
    LookupErrorView,
> {
    match reply {
        Reply::Failed(why) => Err(LookupErrorView::Transport(why@)),
        Reply::Refused(status) => Err(LookupErrorView::Status(status@)),
        Reply::Body(body) => track_in_body(video_id, body@),
    }
}

/// Reads the title and length of a video from a reply.
pub fn read_reply(video_id: &str, reply: Reply) -> (res: Track)
    ensures
        track_view(res) == track_in_reply(video_id@, reply),
{
    match reply {
        Reply::Failed(why) => Err(LookupError::Transport(why)),
        Reply::Refused(status) => Err(LookupError::Status(status)),
        Reply::Body(body) => parse_player_response(video_id, body.as_slice()),
    }
}

/// The client that is being asked.
#[derive(Debug, Clone, Copy, PartialEq, Eq, Structural)]
pub enum Attempt {
    /// The music web client, with a token.
    WebRemix,
    /// The Android client.
    Android,
}

/// A lookup under way.
pub struct StreamLookup {
    /// The video.
    pub video_id: String,
    /// The client that is being asked.
    pub attempt: Attempt,
}

/// What a lookup does next.
pub enum LookupStep {
    /// Post this request, then go on with the lookup.
    Ask(StreamLookup, PlayerCall),
    /// The lookup is over.
    Found(StreamInfo),
}

/// What a [`LookupStep`] says.
pub enum LookupStepView {
    /// Post this request to the client named, for the video named.
    Ask(Seq<char>, Attempt, PlayerCallView),
    /// The lookup is over.
    Found(StreamInfoView),
}

impl View for LookupStep {
    type V = LookupStepView;

    open spec fn view(&self) -> LookupStepView {
        match self {
            LookupStep::Ask(lookup, call) => LookupStepView::Ask(
                lookup.video_id@,
                lookup.attempt,
                call@,
            ),
            LookupStep::Found(info) => LookupStepView::Found(info@),
        }
    }
}

/// Where the local server serves a video.
pub open spec fn stream_url_of(video_id: Seq<char>) -> Seq<char> {
    "http://localhost:8008/stream/"@ + video_id
}

/// How a lookup begins: with the music web client where there is a token, else with Android.
pub open spec fn lookup_begin(video_id: Seq<char>, ctt: Option<Seq<char>>) -> LookupStepView {
    match ctt {
        Some(token) => LookupStepView::Ask(
            video_id,
            Attempt::WebRemix,
            web_remix_call(video_id, token),
        ),
        None => LookupStepView::Ask(video_id, Attempt::Android, android_call(video_id)),
    }
}

/// How a lookup goes on once a client has been asked: a track ends it; without one, Android is
/// asked after the music web client, and after Android the id stands in for the title.
pub open spec fn lookup_next(
    video_id: Seq<char>,
    attempt: Attempt,
    outcome: Result<(Seq<char>, u64), LookupErrorView>,
) -> LookupStepView {
    match outcome {
        Ok(found) => LookupStepView::Found(
            StreamInfoView {
                title: found.0,
                duration: found.1,
                stream_url: stream_url_of(video_id),
            },
        ),
        Err(_) => match attempt {
            Attempt::WebRemix => LookupStepView::Ask(
                video_id,
                Attempt::Android,
                android_call(video_id),
            ),
            Attempt::Android => LookupStepView::Found(
                StreamInfoView {
                    title: video_id,
                    duration: 0,
                    stream_url: stream_url_of(video_id),
                },
            ),
        },
    }
}

/// Begins to resolve a video to a playable audio stream.
///
/// The title and the length come from the `/player` endpoint; the stream itself is served by the
/// local server once the player connects. The playlist plays no part in it.
pub fn resolve_stream(video_id: &str, ctt: Option<&str>, _playlist_id: Option<&str>) -> (step:
    LookupStep)
    ensures
        step@ == lookup_begin(video_id@, opt_str(ctt)),
{
    match ctt {
        Some(token) => LookupStep::Ask(
            StreamLookup { video_id: video_id.to_owned(), attempt: Attempt::WebRemix },
            web_remix_player(video_id, token),
        ),
        None => LookupStep::Ask(
            StreamLookup { video_id: video_id.to_owned(), attempt: Attempt::Android },
            android_player(video_id),
        ),
    }
}

impl StreamLookup {
    /// Where the local server serves the video.
    fn stream_url(&self) -> (s: String)
        ensures
            s@ == stream_url_of(self.video_id@),
    {
        let mut s = "http://localhost:8008/stream/".to_owned();
        s.append(self.video_id.as_str());
        s
    }

    /// Goes on with what the client that was asked has yielded.
    pub fn on_track(self, outcome: Track) -> (step: LookupStep)
        ensures
            step@ == lookup_next(self.video_id@, self.attempt, track_view(outcome)),
    {
        let stream_url = self.stream_url();
        match outcome {
            Ok((title, duration)) => LookupStep::Found(StreamInfo { title, duration, stream_url }),
            Err(_) => match self.attempt {
                Attempt::WebRemix => {
                    let call = android_player(self.video_id.as_str());
                    LookupStep::Ask(
                        StreamLookup { video_id: self.video_id, attempt: Attempt::Android },
                        call,
                    )
                },
                Attempt::Android => LookupStep::Found(
                    StreamInfo { title: self.video_id, duration: 0, stream_url },
                ),
            },
        }
    }

    /// Goes on with the reply of the client that was asked.
    pub fn on_reply(self, reply: Reply) -> (step: LookupStep)
        ensures
            step@ == lookup_next(
                self.video_id@,
                self.attempt,
                track_in_reply(self.video_id@, reply),
            ),
    {
        let outcome = read_reply(self.video_id.as_str(), reply);
        self.on_track(outcome)
    }
}

/// Every lookup ends with a stream, after one request or two, whatever the clients answer, and
/// the stream is the one that the local server serves for the video.
pub proof fn law_lookup_always_ends(
    video_id: Seq<char>,
    ctt: Option<Seq<char>>,
    first: Result<(Seq<char>, u64), LookupErrorView>,
    second: Result<(Seq<char>, u64), LookupErrorView>,
)
    ensures
        lookup_begin(video_id, ctt) is Ask,
        match lookup_next(video_id, lookup_begin(video_id, ctt)->Ask_1, first) {
            LookupStepView::Found(info) => info.stream_url == stream_url_of(video_id),
            LookupStepView::Ask(v, attempt, _) => {
                &&& v == video_id
                &&& first is Err
                &&& ctt is Some
                &&& lookup_next(v, attempt, second) is Found
                &&& lookup_next(v, attempt, second)->Found_0.stream_url == stream_url_of(video_id)
            },
        },
{
}

} // verus!
