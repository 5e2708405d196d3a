//! What the `/player` endpoint tells of a video that is to be streamed.
use vstd::prelude::*;
use crate::http::{PlayerCall, PlayerCallView, Reply};
use crate::innertube::{or_text, read_number, number_in, text_or};
use crate::json::{json_document, parse_json};
use crate::player_response::{
    details_of, entries_view, read_details, read_streaming, streaming_of, Details, DetailsView,
    FormatEntry, FormatEntryView, Streaming, StreamingView,
};
use crate::sabr::client::{
    android_client, android_client_spec, innertube_player, ios_client, ios_client_spec, player_call,
    web_remix_client, web_remix_client_spec, InnerTubeClient,
};
use crate::sabr::encoding::{decode_url_safe, url_safe_bytes};
use crate::sabr::error::{SabrError, SabrErrorView};
use crate::sabr::formats::{formats_view, AdaptiveFormat, AdaptiveFormatView};
use crate::sabr::numbers::{low_i32, truncate_i32};
use crate::text::{opt_str, opt_text, same_text};

verus! {

/// What is needed to stream a video.
pub struct PlayerData {
    /// The URL that serves the stream.
    pub server_abr_streaming_url: String,
    /// The server's opaque configuration.
    pub ustreamer_config: Vec<u8>,
    /// The formats on offer.
    pub formats: Vec<AdaptiveFormat>,
    /// The title.
    pub title: String,
    /// The length in seconds.
    pub duration_secs: u64,
}

/// What [`PlayerData`] says.
pub struct PlayerDataView {
    /// The URL that serves the stream.
    pub server_abr_streaming_url: Seq<char>,
    /// The server's opaque configuration.
    pub ustreamer_config: Seq<u8>,
    /// The formats on offer.
    pub formats: Seq<AdaptiveFormatView>,
    /// The title.
    pub title: Seq<char>,
    /// The length in seconds.
    pub duration_secs: u64,
}

impl View for PlayerData {
    type V = PlayerDataView;

    open spec fn view(&self) -> PlayerDataView {
        PlayerDataView {
            server_abr_streaming_url: self.server_abr_streaming_url@,
            ustreamer_config: self.ustreamer_config@,
            formats: formats_view(self.formats@),
            title: self.title@,
            duration_secs: self.duration_secs,
        }
    }
}

/// What an attempt to get [`PlayerData`] says.
pub open spec fn player_result_view(r: Result<PlayerData, SabrError>) -> Result<
    PlayerDataView,
    SabrErrorView,
> {
    match r {
        Ok(data) => Ok(data@),
        Err(e) => Err(e@),
    }
}

/// The format that an entry describes; what is missing counts as zero or empty, and a format
/// number too large keeps its low bits.
pub open spec fn format_of(e: FormatEntryView) -> AdaptiveFormatView {
    AdaptiveFormatView {
        itag: match e.itag {
            Some(n) => low_i32(n as int) as i32,
            None => 0,
        },
        last_modified: number_in(e.last_modified),
        xtags: e.xtags,
        mime_type: or_text(e.mime_type, ""@),
        bitrate: match e.bitrate {
            Some(n) => n,
            None => 0,
        },
    }
}

/// The formats that a list of entries describes.
pub open spec fn formats_of(entries: Seq<FormatEntryView>) -> Seq<AdaptiveFormatView> {
    entries.map_values(|e: FormatEntryView| format_of(e))
}

/// Makes the format that an entry describes.
fn make_format(e: &FormatEntry) -> (f: AdaptiveFormat)
    ensures
        f@ == format_of(e@),
{
    AdaptiveFormat {
        itag: match e.itag {
            Some(n) => truncate_i32(n),
            None => 0,
        },
        last_modified: read_number(&e.last_modified),
        xtags: e.xtags.clone(),
        mime_type: text_or(&e.mime_type, ""),
        bitrate: match e.bitrate {
            Some(n) => n,
            None => 0,
        },
    }
}

/// Makes the formats that a list of entries describes.
fn make_formats(entries: &Vec<FormatEntry>) -> (formats: Vec<AdaptiveFormat>)
    ensures
        formats_view(formats@) == formats_of(entries_view(entries@)),
{
    let mut formats: Vec<AdaptiveFormat> = Vec::new();
    let mut i: usize = 0;
    while i < entries.len()
        invariant
            i <= entries.len(),
            formats_view(formats@) == formats_of(entries_view(entries@)).take(i as int),
        decreases entries.len() - i,
    {
        let ghost before = formats@;
        let f = make_format(&entries[i]);
        let ghost made = f@;
        formats.push(f);
        assert(formats_view(formats@) =~= formats_view(before).push(made));
        assert(formats_of(entries_view(entries@)).take(i + 1) =~= formats_of(
            entries_view(entries@),
        ).take(i as int).push(made));
        i += 1;
    }
    assert(formats_of(entries_view(entries@)).take(i as int) =~= formats_of(
        entries_view(entries@),
    ));
    formats
}

/// What the streaming data amount to, once the server's configuration has been decoded.
///
/// The status is judged first, then the streaming URL is wanted, then the list of formats.
pub open spec fn player_data_of(
    video_id: Seq<char>,
    d: DetailsView,
    s: StreamingView,
    ustreamer_config: Seq<u8>,
) -> Result<PlayerDataView, SabrErrorView> {
    let status = or_text(d.status, "UNKNOWN"@);
    if status != "OK"@ {
        Err(
            SabrErrorView::NotPlayable {
                video_id,
                status,
                reason: or_text(d.reason, "unknown reason"@),
            },
        )
    } else if s.server_abr_url is None {
        Err(SabrErrorView::NoStreamingUrl)
    } else if s.formats is None {
        Err(SabrErrorView::NoFormats)
    } else {
        Ok(
            PlayerDataView {
                server_abr_streaming_url: s.server_abr_url->0,
                ustreamer_config,
                formats: formats_of(s.formats->0),
                title: or_text(d.title, "Unknown"@),
                duration_secs: number_in(d.length_seconds),
            },
        )
    }
}

/// Puts together what is needed to stream a video.
pub fn assemble_player_data(
    video_id: &str,
    details: &Details,
    streaming: Streaming,
    ustreamer_config: Vec<u8>,
) -> (res: Result<PlayerData, SabrError>)
    ensures
        player_result_view(res) == player_data_of(
            video_id@,
            details@,
            streaming@,
            ustreamer_config@,
        ),
{
    let status = text_or(&details.status, "UNKNOWN");
    if !same_text(status.as_str(), "OK") {
        return Err(
            SabrError::NotPlayable {
                video_id: video_id.to_owned(),
                status,
                reason: text_or(&details.reason, "unknown reason"),
            },
        );
    }
    let url = match streaming.server_abr_url {
        Some(url) => url,
        None => return Err(SabrError::NoStreamingUrl),
    };
    let entries = match streaming.formats {
        Some(entries) => entries,
        None => return Err(SabrError::NoFormats),
    };
    Ok(
        PlayerData {
            server_abr_streaming_url: url,
            ustreamer_config,
            formats: make_formats(&entries),
            title: text_or(&details.title, "Unknown"),
            duration_secs: read_number(&details.length_seconds),
        },
    )
}

/// The configuration that a Base64 text stands for; none where the text is missing, empty or
/// wrong.
pub open spec fn ustreamer_bytes(b64: Option<Seq<char>>) -> Seq<u8> {
    match b64 {
        Some(s) => if s.len() == 0 {
            Seq::empty()
        } else {
            match url_safe_bytes(s) {
                Some(bytes) => bytes,
                None => Seq::empty(),
            }
        },
        None => Seq::empty(),
    }
}

/// Decodes the server's configuration.
pub fn decode_ustreamer(b64: &Option<String>) -> (v: Vec<u8>)
    ensures
        v@ == ustreamer_bytes(opt_text(*b64)),
{
    match b64 {
        Some(s) => if s.as_str().is_empty() {
            Vec::new()
        } else {
            match decode_url_safe(s.as_str()) {
                Ok(v) => v,
                Err(_) => Vec::new(),
            }
        },
        None => Vec::new(),
    }
}

/// What the body of an answer amounts to.
pub open spec fn player_data_in_body(video_id: Seq<char>, body: Seq<u8>) -> Result<
    PlayerDataView,
    SabrErrorView,
> {
    match json_document(body) {
        Some(doc) => player_data_of(
            video_id,
            details_of(doc),
            streaming_of(doc),
            ustreamer_bytes(streaming_of(doc).ustreamer_config),
        ),
        None => Err(SabrErrorView::NotJson),
    }
}

/// Reads what is needed to stream a video from the body of an answer.
pub fn parse_player_data(video_id: &str, body: &[u8]) -> (res: Result<PlayerData, SabrError>)
    ensures
        player_result_view(res) == player_data_in_body(video_id@, body@),
{
    match parse_json(body) {
        Ok(v) => {
            let details = read_details(&v);
            let streaming = read_streaming(&v);
            let config = decode_ustreamer(&streaming.ustreamer_config);
            assemble_player_data(video_id, &details, streaming, config)
        },
        Err(_) => Err(SabrError::NotJson),
    }
}

/// What a reply amounts to.
pub open spec fn player_data_in_reply(video_id: Seq<char>, reply: Reply) -> Result<
    PlayerDataView,
    SabrErrorView,
> {
    match reply {
        Reply::Failed(why) => Err(SabrErrorView::Transport(why@)),
        Reply::Refused(status) => Err(SabrErrorView::PlayerStatus(status@)),
        Reply::Body(body) => player_data_in_body(video_id, body@),
    }
}

/// Reads what is needed to stream a video from a reply.
pub fn read_player_reply(video_id: &str, reply: Reply) -> (res: Result<PlayerData, SabrError>)
    ensures
        player_result_view(res) == player_data_in_reply(video_id@, reply),
{
    match reply {
        Reply::Failed(why) => Err(SabrError::Transport(why)),
        Reply::Refused(status) => Err(SabrError::PlayerStatus(status)),
        Reply::Body(body) => parse_player_data(video_id, body.as_slice()),
    }
}

/// The client that is being asked for a video.
#[derive(Debug, Clone, Copy, PartialEq, Eq, Structural)]
pub enum PlayerAttempt {
    /// The music web client, with the credential transfer token.
    WebRemix,
    /// The iOS client, without it.
    Ios,
    /// The Android client, without it.
    Android,
}

/// The client of an attempt.
pub open spec fn client_of(attempt: PlayerAttempt) -> InnerTubeClient {
    match attempt {
        PlayerAttempt::WebRemix => web_remix_client_spec(),
        PlayerAttempt::Ios => ios_client_spec(),
        PlayerAttempt::Android => android_client_spec(),
    }
}

/// The attempt after one that failed.
pub open spec fn attempt_after(attempt: PlayerAttempt) -> Option<PlayerAttempt> {
    match attempt {
        PlayerAttempt::WebRemix => Some(PlayerAttempt::Ios),
        PlayerAttempt::Ios => Some(PlayerAttempt::Android),
        PlayerAttempt::Android => None,
    }
}

/// The first attempt: the music web client where there is a token, else iOS.
pub open spec fn first_attempt(ctt: Option<Seq<char>>) -> PlayerAttempt {
    match ctt {
        Some(_) => PlayerAttempt::WebRemix,
        None => PlayerAttempt::Ios,
    }
}

/// A search for player data under way.
pub struct PlayerSearch {
    /// The video.
    pub video_id: String,
    /// The credential transfer token.
    pub ctt: Option<String>,
    /// The proof-of-origin token.
    pub po_token: Option<String>,
    /// The client that is being asked.
    pub attempt: PlayerAttempt,
}

/// What a [`PlayerSearch`] says.
pub struct PlayerSearchView {
    /// The video.
    pub video_id: Seq<char>,
    /// The credential transfer token.
    pub ctt: Option<Seq<char>>,
    /// The proof-of-origin token.
    pub po_token: Option<Seq<char>>,
    /// The client that is being asked.
    pub attempt: PlayerAttempt,
}

impl View for PlayerSearch {
    type V = PlayerSearchView;

    open spec fn view(&self) -> PlayerSearchView {
        PlayerSearchView {
            video_id: self.video_id@,
            ctt: opt_text(self.ctt),
            po_token: opt_text(self.po_token),
            attempt: self.attempt,
        }
    }
}

/// The request of a search: only the music web client gets the credential transfer token, every
/// client the proof-of-origin token.
pub open spec fn search_call(s: PlayerSearchView) -> PlayerCallView {
    player_call(
        s.video_id,
        client_of(s.attempt),
        if s.attempt == PlayerAttempt::WebRemix {
            s.ctt
        } else {
            None
        },
        s.po_token,
    )
}

/// What a search does next.
pub enum SearchStep {
    /// Post the search's request, then go on.
    Ask(PlayerSearch),
    /// The search has found the data; the proof-of-origin token goes with them.
    Found(PlayerData, Option<String>),
    /// The search has failed.
    Failed(SabrError),
}

/// What a [`SearchStep`] says.
pub enum SearchStepView {
    /// Post the search's request, then go on.
    Ask(PlayerSearchView),
    /// The search has found the data; the proof-of-origin token goes with them.
    Found(PlayerDataView, Option<Seq<char>>),
    /// The search has failed.
    Failed(SabrErrorView),
}

impl View for SearchStep {
    type V = SearchStepView;

    open spec fn view(&self) -> SearchStepView {
        match self {
            SearchStep::Ask(s) => SearchStepView::Ask(s@),
            SearchStep::Found(data, po_token) => SearchStepView::Found(data@, opt_text(*po_token)),
            SearchStep::Failed(e) => SearchStepView::Failed(e@),
        }
    }
}

/// How a search goes on once a client has been asked.
pub open spec fn search_next(
    s: PlayerSearchView,
    outcome: Result<PlayerDataView, SabrErrorView>,
) -> SearchStepView {
    match outcome {
        Ok(data) => SearchStepView::Found(data, s.po_token),
        Err(e) => match attempt_after(s.attempt) {
            Some(next) => SearchStepView::Ask(PlayerSearchView { attempt: next, ..s }),
            None => SearchStepView::Failed(e),
        },
    }
}

/// Begins the search for a video's player data.
pub fn get_player_data(video_id: &str, ctt: Option<&str>, po_token: Option<String>) -> (s:
    PlayerSearch)
    ensures
        s@ == (PlayerSearchView {
            video_id: video_id@,
            ctt: opt_str(ctt),
            po_token: opt_text(po_token),
            attempt: first_attempt(opt_str(ctt)),
        }),
{
    match ctt {
        Some(token) => PlayerSearch {
            video_id: video_id.to_owned(),
            ctt: Some(token.to_owned()),
            po_token,
            attempt: PlayerAttempt::WebRemix,
        },
        None => PlayerSearch {
            video_id: video_id.to_owned(),
            ctt: None,
            po_token,
            attempt: PlayerAttempt::Ios,
        },
    }
}

/// The text in `o`, borrowed.
pub fn borrow_text(o: &Option<String>) -> (res: Option<&str>)
    ensures
        opt_str(res) == opt_text(*o),
{
    match o {
        Some(s) => Some(s.as_str()),
        None => None,
    }
}

impl PlayerSearch {
    /// The request to post.
    pub fn call(&self) -> (call: PlayerCall)
        ensures
            call@ == search_call(self@),
    {
        let pot = borrow_text(&self.po_token);
        match self.attempt {
            PlayerAttempt::WebRemix => innertube_player(
                self.video_id.as_str(),
                &web_remix_client(),
                borrow_text(&self.ctt),
                pot,
            ),
            PlayerAttempt::Ios => innertube_player(
                self.video_id.as_str(),
                &ios_client(),
                None,
                pot,
            ),
            PlayerAttempt::Android => innertube_player(
                self.video_id.as_str(),
                &android_client(),
                None,
                pot,
            ),
        }
    }

    /// Goes on with what the client that was asked has yielded.
    pub fn on_data(self, outcome: Result<PlayerData, SabrError>) -> (step: SearchStep)
        ensures
            step@ == search_next(self@, player_result_view(outcome)),
    {
        match outcome {
            Ok(data) => SearchStep::Found(data, self.po_token),
            Err(e) => match self.attempt {
                PlayerAttempt::WebRemix => SearchStep::Ask(
                    PlayerSearch { attempt: PlayerAttempt::Ios, ..self },
                ),
                PlayerAttempt::Ios => SearchStep::Ask(
                    PlayerSearch { attempt: PlayerAttempt::Android, ..self },
                ),
                PlayerAttempt::Android => SearchStep::Failed(e),
            },
        }
    }

    /// Goes on with the reply of the client that was asked.
    pub fn on_reply(self, reply: Reply) -> (step: SearchStep)
        ensures
            step@ == search_next(self@, player_data_in_reply(self.video_id@, reply)),
    {
        let outcome = read_player_reply(self.video_id.as_str(), reply);
        self.on_data(outcome)
    }
}

/// The clients that a search asks after the present one, while none yields data.
pub open spec fn clients_left(attempt: PlayerAttempt) -> nat {
    match attempt {
        PlayerAttempt::WebRemix => 2,
        PlayerAttempt::Ios => 1,
        PlayerAttempt::Android => 0,
    }
}

/// A search ends: each request that it goes on to make leaves fewer clients to ask, and it fails
/// only where the last client, Android, has failed, with that client's error.
pub proof fn law_search_ends(s: PlayerSearchView, outcome: Result<PlayerDataView, SabrErrorView>)
    ensures
        match search_next(s, outcome) {
            SearchStepView::Ask(next) => {
                &&& clients_left(next.attempt) < clients_left(s.attempt)
                &&& next.video_id == s.video_id
                &&& next.po_token == s.po_token
            },
            SearchStepView::Found(data, po_token) => outcome == Ok::<_, SabrErrorView>(data)
                && po_token == s.po_token,
            SearchStepView::Failed(e) => s.attempt == PlayerAttempt::Android && outcome == Err::<
                PlayerDataView,
                _,
            >(e),
        },
{
}

/// The credential transfer token is sent by no client but the music web client.
pub proof fn law_token_only_to_music_web_client(s: PlayerSearchView, other: Option<Seq<char>>)
    requires
        s.attempt != PlayerAttempt::WebRemix,
    ensures
        search_call(s) == search_call(PlayerSearchView { ctt: other, ..s }),
{
}

} // verus!
