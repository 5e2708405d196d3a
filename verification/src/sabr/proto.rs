//! The messages of the protocol, as plain values.
use vstd::prelude::*;
use crate::text::{opt_bytes, opt_text};

verus! {

/// Names a format.
#[derive(Debug)]
pub struct FormatId {
    /// The format's number.
    pub itag: Option<i32>,
    /// When it was last changed.
    pub last_modified: Option<u64>,
    /// Further tags.
    pub xtags: Option<String>,
}

/// What a [`FormatId`] says.
pub struct FormatIdView {
    /// The format's number.
    pub itag: Option<i32>,
    /// When it was last changed.
    pub last_modified: Option<u64>,
    /// Further tags.
    pub xtags: Option<Seq<char>>,
}

impl View for FormatId {
    type V = FormatIdView;

    open spec fn view(&self) -> FormatIdView {
        FormatIdView {
            itag: self.itag,
            last_modified: self.last_modified,
            xtags: opt_text(self.xtags),
        }
    }
}

impl Clone for FormatId {
    fn clone(&self) -> (res: Self)
        ensures
            res@ == self@,
    {
        FormatId {
            itag: self.itag,
            last_modified: self.last_modified,
            xtags: self.xtags.clone(),
        }
    }
}

/// A span of media time in ticks.
#[derive(Debug, Clone, Copy)]
pub struct TimeRange {
    /// Where it starts.
    pub start_ticks: Option<i64>,
    /// How long it is.
    pub duration_ticks: Option<i64>,
    /// Ticks per second.
    pub timescale: Option<i32>,
}

/// Announces a format that the server is about to send.
#[derive(Debug)]
pub struct FormatInitializationMetadata {
    /// The format.
    pub format_id: Option<FormatId>,
    /// Its media type.
    pub mime_type: Option<String>,
    /// Where the stream ends.
    pub end_time_ms: Option<i64>,
    /// The last segment.
    pub end_segment_number: Option<i64>,
}

/// Announces a segment.
#[derive(Debug, Clone, Copy)]
pub struct MediaHeader {
    /// By which the segment's media parts refer to this header.
    pub header_id: Option<u32>,
    /// The format's number.
    pub itag: Option<i32>,
    /// Whether the segment holds the container's headers.
    pub is_init_seg: Option<bool>,
    /// The segment's number.
    pub sequence_number: Option<i32>,
    /// Where the segment starts.
    pub start_ms: Option<i64>,
    /// How long the segment is.
    pub duration_ms: Option<i64>,
    /// The same span in ticks.
    pub time_range: Option<TimeRange>,
}

/// What the server wants of the next request.
#[derive(Debug)]
pub struct NextRequestPolicy {
    /// How long to wait before it.
    pub backoff_time_ms: Option<i32>,
    /// The encoded cookie to send with it.
    pub playback_cookie: Option<Vec<u8>>,
}

/// Sends the client to another server.
#[derive(Debug)]
pub struct SabrRedirect {
    /// That server's URL.
    pub url: Option<String>,
}

/// Reports an error of the server.
#[derive(Debug)]
pub struct ServerError {
    /// Its kind.
    pub kind: Option<String>,
    /// Its code.
    pub code: Option<i32>,
}

/// Gives a context a value.
#[derive(Debug)]
pub struct SabrContextUpdate {
    /// The context's type.
    pub context_type: Option<i32>,
    /// The value.
    pub value: Option<Vec<u8>>,
    /// Whether the context is to be sent from now on.
    pub send_by_default: Option<bool>,
}

/// Says which contexts are to be sent.
#[derive(Debug)]
pub struct SabrContextSendingPolicy {
    /// Types to be sent from now on.
    pub start_policy: Vec<i32>,
    /// Types not to be sent from now on.
    pub stop_policy: Vec<i32>,
    /// Types to be forgotten for good.
    pub discard_policy: Vec<i32>,
}

/// Whether the server wants the client to attest itself.
#[derive(Debug, Clone, Copy)]
pub struct StreamProtectionStatus {
    /// Zero where it does not.
    pub status: Option<i32>,
}

/// Who makes a request.
#[derive(Debug)]
pub struct ClientInfo {
    /// Who made the device.
    pub device_make: String,
    /// The device's model.
    pub device_model: String,
    /// The number that stands for the client's name.
    pub client_name: i32,
    /// The client's version.
    pub client_version: String,
    /// The operating system.
    pub os_name: String,
    /// The operating system's version.
    pub os_version: String,
    /// The Android SDK version.
    pub android_sdk_version: Option<i32>,
}

/// What a [`ClientInfo`] says.
pub struct ClientInfoView {
    /// Who made the device.
    pub device_make: Seq<char>,
    /// The device's model.
    pub device_model: Seq<char>,
    /// The number that stands for the client's name.
    pub client_name: i32,
    /// The client's version.
    pub client_version: Seq<char>,
    /// The operating system.
    pub os_name: Seq<char>,
    /// The operating system's version.
    pub os_version: Seq<char>,
    /// The Android SDK version.
    pub android_sdk_version: Option<i32>,
}

impl View for ClientInfo {
    type V = ClientInfoView;

    open spec fn view(&self) -> ClientInfoView {
        ClientInfoView {
            device_make: self.device_make@,
            device_model: self.device_model@,
            client_name: self.client_name,
            client_version: self.client_version@,
            os_name: self.os_name@,
            os_version: self.os_version@,
            android_sdk_version: self.android_sdk_version,
        }
    }
}

/// A context that is sent along.
#[derive(Debug)]
pub struct SabrContext {
    /// Its type.
    pub context_type: i32,
    /// Its value.
    pub value: Vec<u8>,
}

/// What a list of contexts says.
pub open spec fn contexts_view(contexts: Seq<SabrContext>) -> Seq<(i32, Seq<u8>)> {
    contexts.map_values(|c: SabrContext| (c.context_type, c.value@))
}

/// Who makes a request, and what the server asked to be sent along.
#[derive(Debug)]
pub struct StreamerContext {
    /// Who makes the request.
    pub client_info: ClientInfo,
    /// The proof-of-origin token.
    pub po_token: Option<Vec<u8>>,
    /// The cookie that the server gave.
    pub playback_cookie: Option<Vec<u8>>,
    /// The contexts that are sent along.
    pub sabr_contexts: Vec<SabrContext>,
}

/// What a [`StreamerContext`] says.
pub struct StreamerContextView {
    /// Who makes the request.
    pub client_info: ClientInfoView,
    /// The proof-of-origin token.
    pub po_token: Option<Seq<u8>>,
    /// The cookie that the server gave.
    pub playback_cookie: Option<Seq<u8>>,
    /// The contexts that are sent along.
    pub sabr_contexts: Seq<(i32, Seq<u8>)>,
}

impl View for StreamerContext {
    type V = StreamerContextView;

    open spec fn view(&self) -> StreamerContextView {
        StreamerContextView {
            client_info: self.client_info@,
            po_token: opt_bytes(self.po_token),
            playback_cookie: opt_bytes(self.playback_cookie),
            sabr_contexts: contexts_view(self.sabr_contexts@),
        }
    }
}

/// What the client holds of one format.
#[derive(Debug)]
pub struct BufferedRange {
    /// The format.
    pub format_id: FormatId,
    /// Where it starts.
    pub start_time_ms: i64,
    /// How long it is.
    pub duration_ms: i64,
    /// The first segment.
    pub start_segment_index: i32,
    /// The last segment.
    pub end_segment_index: i32,
    /// The same span in ticks.
    pub time_range: TimeRange,
}

/// What a [`BufferedRange`] says.
pub struct BufferedRangeView {
    /// The format.
    pub format_id: FormatIdView,
    /// Where it starts.
    pub start_time_ms: i64,
    /// How long it is.
    pub duration_ms: i64,
    /// The first segment.
    pub start_segment_index: i32,
    /// The last segment.
    pub end_segment_index: i32,
    /// The same span in ticks.
    pub time_range: TimeRange,
}

impl View for BufferedRange {
    type V = BufferedRangeView;

    open spec fn view(&self) -> BufferedRangeView {
        BufferedRangeView {
            format_id: self.format_id@,
            start_time_ms: self.start_time_ms,
            duration_ms: self.duration_ms,
            start_segment_index: self.start_segment_index,
            end_segment_index: self.end_segment_index,
            time_range: self.time_range,
        }
    }
}

/// The state of playback that is reported.
#[derive(Debug, Clone, Copy)]
pub struct ClientAbrState {
    /// Which kinds of track are wanted; one stands for audio alone.
    pub enabled_track_types_bitfield: i32,
    /// How fast playback runs, in whole multiples of the normal speed.
    pub playback_rate: u16,
    /// Bits per second.
    pub bandwidth_estimate: i64,
    /// Where playback is.
    pub player_time_ms: i64,
    /// Whether the player is visible.
    pub visibility: i32,
    /// What the player does.
    pub player_state: i64,
}

/// A request for media.
#[derive(Debug)]
pub struct VideoPlaybackAbrRequest {
    /// The state of playback.
    pub client_abr_state: ClientAbrState,
    /// The formats that have been selected.
    pub selected_format_ids: Vec<FormatId>,
    /// What the client holds.
    pub buffered_ranges: Vec<BufferedRange>,
    /// The server's opaque configuration.
    pub video_playback_ustreamer_config: Option<Vec<u8>>,
    /// The audio formats that the client would like.
    pub preferred_audio_format_ids: Vec<FormatId>,
    /// The video formats that the client would like.
    pub preferred_video_format_ids: Vec<FormatId>,
    /// Who makes the request, and what the server asked to be sent along.
    pub streamer_context: StreamerContext,
}

/// What a [`VideoPlaybackAbrRequest`] says.
pub struct RequestView {
    /// The state of playback.
    pub client_abr_state: ClientAbrState,
    /// The formats that have been selected.
    pub selected_format_ids: Seq<FormatIdView>,
    /// What the client holds.
    pub buffered_ranges: Seq<BufferedRangeView>,
    /// The server's opaque configuration.
    pub video_playback_ustreamer_config: Option<Seq<u8>>,
    /// The audio formats that the client would like.
    pub preferred_audio_format_ids: Seq<FormatIdView>,
    /// The video formats that the client would like.
    pub preferred_video_format_ids: Seq<FormatIdView>,
    /// Who makes the request, and what the server asked to be sent along.
    pub streamer_context: StreamerContextView,
}

/// What a list of format names says.
pub open spec fn format_ids_view(ids: Seq<FormatId>) -> Seq<FormatIdView> {
    ids.map_values(|f: FormatId| f@)
}

/// What a list of buffered ranges says.
pub open spec fn ranges_view(ranges: Seq<BufferedRange>) -> Seq<BufferedRangeView> {
    ranges.map_values(|r: BufferedRange| r@)
}

impl View for VideoPlaybackAbrRequest {
    type V = RequestView;

    open spec fn view(&self) -> RequestView {
        RequestView {
            client_abr_state: self.client_abr_state,
            selected_format_ids: format_ids_view(self.selected_format_ids@),
            buffered_ranges: ranges_view(self.buffered_ranges@),
            video_playback_ustreamer_config: opt_bytes(self.video_playback_ustreamer_config),
            preferred_audio_format_ids: format_ids_view(self.preferred_audio_format_ids@),
            preferred_video_format_ids: format_ids_view(self.preferred_video_format_ids@),
            streamer_context: self.streamer_context@,
        }
    }
}

} // verus!
