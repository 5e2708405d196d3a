//! What can go wrong while streaming.
use vstd::prelude::*;
use vstd::string::StringExecFns;
use crate::text::{append_signed, signed_decimal};

verus! {

/// A failure of the stream.
#[derive(Debug)]
pub enum SabrError {
    /// A request or the connection failed; the text says why.
    Transport(String),
    /// The `/player` endpoint answered with this status.
    PlayerStatus(String),
    /// The `/player` endpoint's answer was no JSON text.
    NotJson,
    /// The video cannot be played.
    NotPlayable {
        /// The video.
        video_id: String,
        /// The playability status.
        status: String,
        /// The reason given.
        reason: String,
    },
    /// The answer names no streaming URL.
    NoStreamingUrl,
    /// The answer lists no formats.
    NoFormats,
    /// None of the formats is audio.
    NoAudioFormat,
    /// None of the formats is video.
    NoVideoFormat,
    /// The streaming server answered with this status.
    RequestStatus(String),
    /// A part's message could not be decoded; the text says why.
    Decode(String),
    /// The streaming server reported an error.
    Server {
        /// Its kind.
        kind: String,
        /// Its code.
        code: i32,
    },
    /// One request failed after another; the text is the last failure's.
    RetriesExhausted(String),
}

/// What a [`SabrError`] says.
pub enum SabrErrorView {
    /// A request or the connection failed; the text says why.
    Transport(Seq<char>),
    /// The `/player` endpoint answered with this status.
    PlayerStatus(Seq<char>),
    /// The `/player` endpoint's answer was no JSON text.
    NotJson,
    /// The video cannot be played.
    NotPlayable {
        /// The video.
        video_id: Seq<char>,
        /// The playability status.
        status: Seq<char>,
        /// The reason given.
        reason: Seq<char>,
    },
    /// The answer names no streaming URL.
    NoStreamingUrl,
    /// The answer lists no formats.
    NoFormats,
    /// None of the formats is audio.
    NoAudioFormat,
    /// None of the formats is video.
    NoVideoFormat,
    /// The streaming server answered with this status.
    RequestStatus(Seq<char>),
    /// A part's message could not be decoded; the text says why.
    Decode(Seq<char>),
    /// The streaming server reported an error.
    Server {
        /// Its kind.
        kind: Seq<char>,
        /// Its code.
        code: i32,
    },
    /// One request failed after another; the text is the last failure's.
    RetriesExhausted(Seq<char>),
}

impl View for SabrError {
    type V = SabrErrorView;

    open spec fn view(&self) -> SabrErrorView {
        match self {
            SabrError::Transport(s) => SabrErrorView::Transport(s@),
            SabrError::PlayerStatus(s) => SabrErrorView::PlayerStatus(s@),
            SabrError::NotJson => SabrErrorView::NotJson,
            SabrError::NotPlayable { video_id, status, reason } => SabrErrorView::NotPlayable {
                video_id: video_id@,
                status: status@,
                reason: reason@,
            },
            SabrError::NoStreamingUrl => SabrErrorView::NoStreamingUrl,
            SabrError::NoFormats => SabrErrorView::NoFormats,
            SabrError::NoAudioFormat => SabrErrorView::NoAudioFormat,
            SabrError::NoVideoFormat => SabrErrorView::NoVideoFormat,
            SabrError::RequestStatus(s) => SabrErrorView::RequestStatus(s@),
            SabrError::Decode(s) => SabrErrorView::Decode(s@),
            SabrError::Server { kind, code } => SabrErrorView::Server { kind: kind@, code: *code },
            SabrError::RetriesExhausted(s) => SabrErrorView::RetriesExhausted(s@),
        }
    }
}

/// The text that reports an error.
pub open spec fn error_text(e: SabrErrorView) -> Seq<char> {
    match e {
        SabrErrorView::Transport(s) => s,
        SabrErrorView::PlayerStatus(s) => "innertube /player returned HTTP "@ + s,
        SabrErrorView::NotJson => "error decoding response body"@,
        SabrErrorView::NotPlayable { video_id, status, reason } => "video "@ + video_id
            + " not playable: "@ + status + " ("@ + reason + ")"@,
        SabrErrorView::NoStreamingUrl => "missing serverAbrStreamingUrl"@,
        SabrErrorView::NoFormats => "missing adaptiveFormats"@,
        SabrErrorView::NoAudioFormat => "no suitable audio format found"@,
        SabrErrorView::NoVideoFormat => "no video format found (needed for SABR discard trick)"@,
        SabrErrorView::RequestStatus(s) => "SABR request returned HTTP "@ + s,
        SabrErrorView::Decode(s) => s,
        SabrErrorView::Server { kind, code } => "SABR error: type="@ + kind + ", code="@
            + signed_decimal(code as int),
        SabrErrorView::RetriesExhausted(s) => "SABR failed after 5 retries: "@ + s,
    }
}

impl SabrError {
    /// The text that reports the error.
    pub fn describe(&self) -> (s: String)
        ensures
            s@ == error_text(self@),
    {
        match self {
            SabrError::Transport(s) => s.clone(),
            SabrError::PlayerStatus(s) => "innertube /player returned HTTP ".to_owned().concat(
                s.as_str(),
            ),
            SabrError::NotJson => "error decoding response body".to_owned(),
            SabrError::NotPlayable { video_id, status, reason } => "video ".to_owned().concat(
                video_id.as_str(),
            ).concat(" not playable: ").concat(status.as_str()).concat(" (").concat(
                reason.as_str(),
            ).concat(")"),
            SabrError::NoStreamingUrl => "missing serverAbrStreamingUrl".to_owned(),
            SabrError::NoFormats => "missing adaptiveFormats".to_owned(),
            SabrError::NoAudioFormat => "no suitable audio format found".to_owned(),
            SabrError::NoVideoFormat =>
                "no video format found (needed for SABR discard trick)".to_owned(),
            SabrError::RequestStatus(s) => "SABR request returned HTTP ".to_owned().concat(
                s.as_str(),
            ),
            SabrError::Decode(s) => s.clone(),
            SabrError::Server { kind, code } => {
                let mut out = "SABR error: type=".to_owned().concat(kind.as_str()).concat(
                    ", code=",
                );
                append_signed(&mut out, *code as i64);
                out
            },
            SabrError::RetriesExhausted(s) => "SABR failed after 5 retries: ".to_owned().concat(
                s.as_str(),
            ),
        }
    }
}

} // verus!
