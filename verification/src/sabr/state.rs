//! The state of a streaming session, and the requests that it makes.
use std::collections::{HashMap, HashSet};
use vstd::prelude::*;
use vstd::string::StringExecFns;
use crate::sabr::client::InnerTubeClient;
use crate::sabr::formats::{AdaptiveFormat, AdaptiveFormatView};
use crate::sabr::proto::{
    contexts_view, format_ids_view, BufferedRange, BufferedRangeView, ClientAbrState,
    ClientInfo, ClientInfoView, FormatId, FormatIdView, RequestView, SabrContext, StreamerContext,
    StreamerContextView, TimeRange, VideoPlaybackAbrRequest,
};
use crate::text::{append_decimal, contains, decimal, has_infix, opt_bytes};

verus! {

broadcast use vstd::std_specs::hash::group_hash_axioms;

/// What is known of an announced segment.
#[derive(Debug, Clone, Copy)]
pub struct HeaderInfo {
    /// The format's number.
    pub itag: i32,
    /// Whether the segment holds the container's headers.
    pub is_init_seg: bool,
    /// The segment's number.
    pub sequence_number: i32,
    /// Where the segment starts.
    pub start_ms: i64,
    /// How long the segment is.
    pub duration_ms: i64,
    /// Whether the segment belongs to the chosen audio format.
    pub is_audio: bool,
}

/// The state of a streaming session.
pub struct SabrState {
    /// Where requests go.
    pub server_url: String,
    /// How many requests have been completed.
    pub request_number: u32,
    /// The cookie that the server gave.
    pub playback_cookie: Option<Vec<u8>>,
    /// How long to wait before the next request.
    pub backoff_time_ms: u32,
    /// The announced segments.
    pub header_map: HashMap<u32, HeaderInfo>,
    /// The chosen audio format's number.
    pub audio_itag: i32,
    /// The chosen audio format.
    pub audio_format_id: FormatId,
    /// The highest audio segment that is complete; negative before the first.
    pub audio_max_segment: i32,
    /// How far the audio has been downloaded.
    pub audio_downloaded_ms: i64,
    /// Whether audio headers have been passed on.
    pub audio_init_sent: bool,
    /// Whether the server has announced the audio format.
    pub audio_initialized: bool,
    /// Where the audio ends, once announced.
    pub audio_total_end_ms: i64,
    /// The last audio segment, once announced.
    pub audio_end_segment: i64,
    /// The video format that is never played.
    pub video_format_id: FormatId,
    /// The contexts that the server gave.
    pub sabr_contexts: HashMap<i32, Vec<u8>>,
    /// The types of context that are to be sent.
    pub sabr_contexts_send: HashSet<i32>,
    /// The types of context that have been discarded.
    pub sabr_contexts_discard: HashSet<i32>,
    /// The server's opaque configuration.
    pub ustreamer_config: Vec<u8>,
    /// The client as which requests are made.
    pub client_config: InnerTubeClient,
    /// The proof-of-origin token.
    pub po_token: Option<Vec<u8>>,
    /// Whether all audio has been downloaded.
    pub done: bool,
}

/// What a [`SabrState`] says.
#[verifier::ext_equal]
pub struct SabrView {
    /// Where requests go.
    pub server_url: Seq<char>,
    /// How many requests have been completed.
    pub request_number: u32,
    /// The cookie that the server gave.
    pub playback_cookie: Option<Seq<u8>>,
    /// How long to wait before the next request.
    pub backoff_time_ms: u32,
    /// The announced segments.
    pub header_map: Map<u32, HeaderInfo>,
    /// The chosen audio format's number.
    pub audio_itag: i32,
    /// The chosen audio format.
    pub audio_format_id: FormatIdView,
    /// The highest audio segment that is complete; negative before the first.
    pub audio_max_segment: i32,
    /// How far the audio has been downloaded.
    pub audio_downloaded_ms: i64,
    /// Whether audio headers have been passed on.
    pub audio_init_sent: bool,
    /// Whether the server has announced the audio format.
    pub audio_initialized: bool,
    /// Where the audio ends, once announced.
    pub audio_total_end_ms: i64,
    /// The last audio segment, once announced.
    pub audio_end_segment: i64,
    /// The video format that is never played.
    pub video_format_id: FormatIdView,
    /// The contexts that the server gave.
    pub sabr_contexts: Map<i32, Seq<u8>>,
    /// The types of context that are to be sent.
    pub sabr_contexts_send: Set<i32>,
    /// The types of context that have been discarded.
    pub sabr_contexts_discard: Set<i32>,
    /// The server's opaque configuration.
    pub ustreamer_config: Seq<u8>,
    /// The client as which requests are made.
    pub client_config: InnerTubeClient,
    /// The proof-of-origin token.
    pub po_token: Option<Seq<u8>>,
    /// Whether all audio has been downloaded.
    pub done: bool,
}

/// The bytes that a map of vectors holds.
pub open spec fn values_view(m: Map<i32, Vec<u8>>) -> Map<i32, Seq<u8>> {
    m.map_values(|v: Vec<u8>| v@)
}

impl View for SabrState {
    type V = SabrView;

    open spec fn view(&self) -> SabrView {
        SabrView {
            server_url: self.server_url@,
            request_number: self.request_number,
            playback_cookie: opt_bytes(self.playback_cookie),
            backoff_time_ms: self.backoff_time_ms,
            header_map: self.header_map@,
            audio_itag: self.audio_itag,
            audio_format_id: self.audio_format_id@,
            audio_max_segment: self.audio_max_segment,
            audio_downloaded_ms: self.audio_downloaded_ms,
            audio_init_sent: self.audio_init_sent,
            audio_initialized: self.audio_initialized,
            audio_total_end_ms: self.audio_total_end_ms,
            audio_end_segment: self.audio_end_segment,
            video_format_id: self.video_format_id@,
            sabr_contexts: values_view(self.sabr_contexts@),
            sabr_contexts_send: self.sabr_contexts_send@,
            sabr_contexts_discard: self.sabr_contexts_discard@,
            ustreamer_config: self.ustreamer_config@,
            client_config: self.client_config,
            po_token: opt_bytes(self.po_token),
            done: self.done,
        }
    }
}

/// The name of a format.
pub open spec fn id_of(f: AdaptiveFormatView) -> FormatIdView {
    FormatIdView {
        itag: Some(f.itag),
        last_modified: Some(f.last_modified),
        xtags: f.xtags,
    }
}

/// The state in which a session begins: nothing downloaded, nothing announced.
pub open spec fn fresh_state(
    server_url: Seq<char>,
    audio: AdaptiveFormatView,
    video: AdaptiveFormatView,
    ustreamer_config: Seq<u8>,
    client_config: InnerTubeClient,
) -> SabrView {
    SabrView {
        server_url,
        request_number: 0,
        playback_cookie: None,
        backoff_time_ms: 0,
        header_map: Map::empty(),
        audio_itag: audio.itag,
        audio_format_id: id_of(audio),
        audio_max_segment: (-1) as i32,
        audio_downloaded_ms: 0,
        audio_init_sent: false,
        audio_initialized: false,
        audio_total_end_ms: 0,
        audio_end_segment: 0,
        video_format_id: id_of(video),
        sabr_contexts: Map::empty(),
        sabr_contexts_send: Set::empty(),
        sabr_contexts_discard: Set::empty(),
        ustreamer_config,
        client_config,
        po_token: None,
        done: false,
    }
}

/// The contexts that are to be sent: those whose type is to be sent and has not been discarded.
pub open spec fn sendable(s: SabrView) -> Map<i32, Seq<u8>> {
    s.sabr_contexts.restrict(s.sabr_contexts_send.difference(s.sabr_contexts_discard))
}

/// Whether `list` holds the entries of `m`, each once, in some order.
pub open spec fn lists_entries(list: Seq<(i32, Seq<u8>)>, m: Map<i32, Seq<u8>>) -> bool {
    &&& forall|i: int, j: int|
        0 <= i < list.len() && 0 <= j < list.len() && i != j ==> (#[trigger] list[i]).0 != (
        #[trigger] list[j]).0
    &&& forall|i: int|
        0 <= i < list.len() ==> m.contains_key((#[trigger] list[i]).0) && m[list[i].0] == list[i].1
    &&& forall|k: i32| #[trigger]
        m.contains_key(k) ==> exists|i: int| 0 <= i < list.len() && (#[trigger] list[i]).0 == k
}

/// The largest value of a segment number, which also stands for all of the video's time.
pub const MAX_I32: i32 = 0x7fff_ffff;

/// The same value as a time.
pub const MAX_I64: i64 = 0x7fff_ffff;

/// What the client holds of the audio: everything up to the last complete segment.
pub open spec fn audio_range(s: SabrView) -> BufferedRangeView {
    BufferedRangeView {
        format_id: s.audio_format_id,
        start_time_ms: 0,
        duration_ms: s.audio_downloaded_ms,
        start_segment_index: 0,
        end_segment_index: s.audio_max_segment,
        time_range: TimeRange {
            start_ticks: Some(0),
            duration_ticks: Some(s.audio_downloaded_ms),
            timescale: Some(1000),
        },
    }
}

/// What the client claims to hold of the video: all of it.
pub open spec fn video_range(s: SabrView) -> BufferedRangeView {
    BufferedRangeView {
        format_id: s.video_format_id,
        start_time_ms: 0,
        duration_ms: MAX_I64,
        start_segment_index: MAX_I32,
        end_segment_index: MAX_I32,
        time_range: TimeRange {
            start_ticks: Some(0),
            duration_ticks: Some(MAX_I64),
            timescale: Some(1000),
        },
    }
}

/// Where playback is reported to be: ten seconds before the end of what has been downloaded, so
/// that the server sees a small buffer and goes on sending.
pub open spec fn player_time(downloaded_ms: i64) -> i64 {
    if downloaded_ms >= 10_000 {
        (downloaded_ms - 10_000) as i64
    } else {
        0
    }
}

/// How a client presents itself in a request for media.
pub open spec fn client_info_of(c: InnerTubeClient) -> ClientInfoView {
    ClientInfoView {
        device_make: c.device_make@,
        device_model: c.device_model@,
        client_name: c.client_name_id,
        client_version: c.client_version@,
        os_name: c.os_name@,
        os_version: c.os_version@,
        android_sdk_version: c.android_sdk_version,
    }
}

/// The request that a state makes, with the given list of contexts.
///
/// The video always counts as selected and wholly buffered. The audio counts as selected once the
/// server has announced it, and as buffered once a segment is complete.
pub open spec fn request_of(s: SabrView, contexts: Seq<(i32, Seq<u8>)>) -> RequestView {
    RequestView {
        client_abr_state: ClientAbrState {
            enabled_track_types_bitfield: 1,
            playback_rate: 1,
            bandwidth_estimate: 5_000_000,
            player_time_ms: player_time(s.audio_downloaded_ms),
            visibility: 1,
            player_state: 1,
        },
        selected_format_ids: if s.audio_initialized {
            seq![s.video_format_id, s.audio_format_id]
        } else {
            seq![s.video_format_id]
        },
        buffered_ranges: if s.audio_max_segment >= 0 {
            seq![audio_range(s), video_range(s)]
        } else {
            seq![video_range(s)]
        },
        video_playback_ustreamer_config: if s.ustreamer_config.len() == 0 {
            None
        } else {
            Some(s.ustreamer_config)
        },
        preferred_audio_format_ids: seq![s.audio_format_id],
        preferred_video_format_ids: seq![s.video_format_id],
        streamer_context: StreamerContextView {
            client_info: client_info_of(s.client_config),
            po_token: s.po_token,
            playback_cookie: s.playback_cookie,
            sabr_contexts: contexts,
        },
    }
}

/// The URL of a state's next request, which carries the request's number.
pub open spec fn request_url_of(s: SabrView) -> Seq<char> {
    s.server_url + (if has_infix(s.server_url, "?"@) {
        "&rn="@
    } else {
        "?rn="@
    }) + decimal(s.request_number as nat)
}

/// A copy of optional bytes.
pub fn copy_bytes(o: &Option<Vec<u8>>) -> (res: Option<Vec<u8>>)
    ensures
        opt_bytes(res) == opt_bytes(*o),
{
    match o {
        Some(v) => {
            let copy = v.clone();
            assert(copy@ =~= v@);
            Some(copy)
        },
        None => None,
    }
}

/// A list of one format name.
fn one_id(id: &FormatId) -> (ids: Vec<FormatId>)
    ensures
        format_ids_view(ids@) == seq![id@],
{
    let mut ids: Vec<FormatId> = Vec::new();
    ids.push(id.clone());
    assert(format_ids_view(ids@) =~= seq![id@]);
    ids
}

/// Makes the name of a format.
fn make_id(f: &AdaptiveFormat) -> (id: FormatId)
    ensures
        id@ == id_of(f@),
{
    FormatId {
        itag: Some(f.itag),
        last_modified: Some(f.last_modified),
        xtags: f.xtags.clone(),
    }
}

impl SabrState {
    /// The state in which a session begins.
    pub fn new(
        server_url: String,
        audio_format: &AdaptiveFormat,
        video_format: &AdaptiveFormat,
        ustreamer_config: Vec<u8>,
        client_config: InnerTubeClient,
    ) -> (s: SabrState)
        ensures
            s@ == fresh_state(
                server_url@,
                audio_format@,
                video_format@,
                ustreamer_config@,
                client_config,
            ),
    {
        let s = SabrState {
            server_url,
            request_number: 0,
            playback_cookie: None,
            backoff_time_ms: 0,
            header_map: HashMap::new(),
            audio_itag: audio_format.itag,
            audio_format_id: make_id(audio_format),
            audio_max_segment: -1,
            audio_downloaded_ms: 0,
            audio_init_sent: false,
            audio_initialized: false,
            audio_total_end_ms: 0,
            audio_end_segment: 0,
            video_format_id: make_id(video_format),
            sabr_contexts: HashMap::new(),
            sabr_contexts_send: HashSet::new(),
            sabr_contexts_discard: HashSet::new(),
            ustreamer_config,
            client_config,
            po_token: None,
            done: false,
        };
        assert(s@.sabr_contexts =~= Map::empty());
        s
    }

    /// The contexts that are to be sent, each once.
    ///
    /// The order is that in which the map hands out its keys, which is left open.
    fn contexts_to_send(&self) -> (list: Vec<SabrContext>)
        ensures
            lists_entries(contexts_view(list@), sendable(self@)),
    {
        let mut list: Vec<SabrContext> = Vec::new();
        let ghost m = sendable(self@);
        let keys = self.sabr_contexts.keys();
        let ghost all = vstd::std_specs::iter::IteratorSpec::remaining(&keys).unref();
        let ghost mut done: int = 0;
        let ghost mut at: Seq<int> = Seq::empty();
        for key in it: keys
            invariant
                m == sendable(self@),
                it.seq().unref() == all,
                done == it.index(),
                all.no_duplicates(),
                all.to_set() == self.sabr_contexts@.dom(),
                at.len() == list@.len(),
                forall|i: int|
                    0 <= i < list@.len() ==> m.contains_key((#[trigger] list@[i]).context_type)
                        && m[list@[i].context_type] == list@[i].value@,
                forall|i: int|
                    0 <= i < list@.len() ==> 0 <= #[trigger] at[i] < done && all[at[i]]
                        == list@[i].context_type,
                forall|i: int, j: int|
                    0 <= i < j < list@.len() ==> #[trigger] at[i] < #[trigger] at[j],
                forall|k: int|
                    0 <= k < done && m.contains_key(#[trigger] all[k]) ==> exists|i: int|
                        0 <= i < list@.len() && #[trigger] at[i] == k,
        {
            let ghost before = list@;
            assert(*key == all[done]);
            assert(all.to_set().contains(*key));
            if !self.sabr_contexts_discard.contains(key) && self.sabr_contexts_send.contains(key) {
                if let Some(value) = self.sabr_contexts.get(key) {
                    list.push(SabrContext { context_type: *key, value: value.clone() });
                    proof {
                        assert(list@[before.len() as int].value@ =~= value@);
                        let old_at = at;
                        at = at.push(done);
                        assert(at[before.len() as int] == done);
                        assert(forall|i: int|
                            0 <= i < old_at.len() ==> #[trigger] old_at[i] == at[i]);
                    }
                }
            }
            proof {
                done = done + 1;
            }
        }
        proof {
            let shown = contexts_view(list@);
            assert forall|i: int, j: int|
                0 <= i < shown.len() && 0 <= j < shown.len() && i != j implies (
            #[trigger] shown[i]).0 != (#[trigger] shown[j]).0 by {
                assert(shown[i].0 == all[at[i]] && shown[j].0 == all[at[j]]);
                assert(at[i] != at[j]);
            }
            assert forall|k: i32| #[trigger] m.contains_key(k) implies exists|i: int|
                0 <= i < shown.len() && (#[trigger] shown[i]).0 == k by {
                assert(all.to_set().contains(k));
                let n = choose|n: int| 0 <= n < all.len() && all[n] == k;
                let i = choose|i: int| 0 <= i < list@.len() && #[trigger] at[i] == n;
                assert(shown[i].0 == k);
            }
        }
        list
    }

    /// Builds the request for more media.
    pub fn build_request(&self) -> (req: VideoPlaybackAbrRequest)
        ensures
            req@ == request_of(self@, req@.streamer_context.sabr_contexts),
            lists_entries(req@.streamer_context.sabr_contexts, sendable(self@)),
    {
        let client_info = ClientInfo {
            device_make: self.client_config.device_make.to_owned(),
            device_model: self.client_config.device_model.to_owned(),
            client_name: self.client_config.client_name_id,
            client_version: self.client_config.client_version.to_owned(),
            os_name: self.client_config.os_name.to_owned(),
            os_version: self.client_config.os_version.to_owned(),
            android_sdk_version: self.client_config.android_sdk_version,
        };
        let streamer_context = StreamerContext {
            client_info,
            po_token: copy_bytes(&self.po_token),
            playback_cookie: copy_bytes(&self.playback_cookie),
            sabr_contexts: self.contexts_to_send(),
        };

        let mut buffered_ranges: Vec<BufferedRange> = Vec::new();
        if self.audio_max_segment >= 0 {
            buffered_ranges.push(
                BufferedRange {
                    format_id: self.audio_format_id.clone(),
                    start_time_ms: 0,
                    duration_ms: self.audio_downloaded_ms,
                    start_segment_index: 0,
                    end_segment_index: self.audio_max_segment,
                    time_range: TimeRange {
                        start_ticks: Some(0),
                        duration_ticks: Some(self.audio_downloaded_ms),
                        timescale: Some(1000),
                    },
                },
            );
        }
        buffered_ranges.push(
            BufferedRange {
                format_id: self.video_format_id.clone(),
                start_time_ms: 0,
                duration_ms: MAX_I64,
                start_segment_index: MAX_I32,
                end_segment_index: MAX_I32,
                time_range: TimeRange {
                    start_ticks: Some(0),
                    duration_ticks: Some(MAX_I64),
                    timescale: Some(1000),
                },
            },
        );

        let mut selected_format_ids: Vec<FormatId> = Vec::new();
        selected_format_ids.push(self.video_format_id.clone());
        if self.audio_initialized {
            selected_format_ids.push(self.audio_format_id.clone());
        }
        let player_time_ms = if self.audio_downloaded_ms >= 10_000 {
            self.audio_downloaded_ms - 10_000
        } else {
            0
        };
        let config = if self.ustreamer_config.len() == 0 {
            None
        } else {
            Some(self.ustreamer_config.clone())
        };

        let req = VideoPlaybackAbrRequest {
            client_abr_state: ClientAbrState {
                enabled_track_types_bitfield: 1,
                playback_rate: 1,
                bandwidth_estimate: 5_000_000,
                player_time_ms,
                visibility: 1,
                player_state: 1,
            },
            selected_format_ids,
            buffered_ranges,
            video_playback_ustreamer_config: config,
            preferred_audio_format_ids: one_id(&self.audio_format_id),
            preferred_video_format_ids: one_id(&self.video_format_id),
            streamer_context,
        };
        proof {
            let contexts = req@.streamer_context.sabr_contexts;
            let wanted = request_of(self@, contexts);
            assert(req@.selected_format_ids =~= wanted.selected_format_ids);
            assert(req@.buffered_ranges =~= wanted.buffered_ranges);
        }
        req
    }

    /// The URL of the next request.
    pub fn request_url(&self) -> (url: String)
        ensures
            url@ == request_url_of(self@),
    {
        let mut url = self.server_url.clone();
        if contains(self.server_url.as_str(), "?") {
            url.append("&rn=");
        } else {
            url.append("?rn=");
        }
        append_decimal(&mut url, self.request_number as u64);
        url
    }
}

} // verus!
