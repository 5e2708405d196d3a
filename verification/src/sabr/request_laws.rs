//! What a session asks for, from its beginning to its last request, for every state.
use vstd::prelude::*;
use crate::http::headers_view;
use crate::sabr::client::{ios_client_spec, web_remix_client_spec, InnerTubeClient};
use crate::sabr::encoding::standard_bytes;
use crate::sabr::error::{error_text, SabrError, SabrErrorView};
use crate::sabr::formats::{is_audio_choice, is_video_choice, AdaptiveFormatView};
use crate::sabr::player_data::PlayerDataView;
use crate::sabr::session::{
    after_cycle, begun, cycle_next, is_media_call, is_stream_start, token_bytes, within_limits,
    MediaCall, NextView, SabrStreamInfo, Session, SessionView,
};
use crate::sabr::state::{
    fresh_state, lists_entries, request_of, request_url_of, sendable, HeaderInfo, SabrView,
};
use crate::sabr::ump::{kind_of_type, number_in, part_in, PartKind, UmpPartView};
use crate::text::{decimal, has_infix, has_prefix, occurs_at};

verus! {

/// What an audio format counts for beside others that are not Opus: its bitrate, and half a gigabit
/// more for AAC.
pub open spec fn counts_for(f: AdaptiveFormatView) -> int {
    f.bitrate + if has_infix(f.mime_type, "mp4a"@) {
        500_000_000int
    } else {
        0
    }
}

/// The audio format that is chosen is audio. It is Opus where any audio format is, and then none of
/// those has a higher bitrate, nor a later one as high a bitrate; else none counts for more, nor a
/// later one for as much.
pub proof fn law_chosen_audio(formats: Seq<AdaptiveFormatView>, i: int, j: int)
    requires
        is_audio_choice(formats, i),
        0 <= j < formats.len(),
        has_prefix(formats[j].mime_type, "audio/"@),
    ensures
        0 <= i < formats.len(),
        has_prefix(formats[i].mime_type, "audio/"@),
        has_infix(formats[j].mime_type, "opus"@) ==> {
            &&& has_infix(formats[i].mime_type, "opus"@)
            &&& formats[j].bitrate <= formats[i].bitrate
            &&& j > i ==> formats[j].bitrate < formats[i].bitrate
        },
        !has_infix(formats[i].mime_type, "opus"@) ==> {
            &&& counts_for(formats[j]) <= counts_for(formats[i])
            &&& j > i ==> counts_for(formats[j]) < counts_for(formats[i])
        },
{
    assert(crate::sabr::formats::is_audio(formats[j]));
}

/// Where there is an audio format, one is to be chosen.
pub proof fn law_some_audio_is_chosen(formats: Seq<AdaptiveFormatView>, j: int)
    requires
        0 <= j < formats.len(),
        has_prefix(formats[j].mime_type, "audio/"@),
    ensures
        exists|i: int| is_audio_choice(formats, i),
    decreases formats.len(),
{
    let before = formats.drop_last();
    let last = formats.len() - 1;
    if exists|k: int|
        0 <= k < before.len() && has_prefix((#[trigger] before[k]).mime_type, "audio/"@) {
        let k = choose|k: int|
            0 <= k < before.len() && has_prefix((#[trigger] before[k]).mime_type, "audio/"@);
        law_some_audio_is_chosen(before, k);
        let i = choose|i: int| is_audio_choice(before, i);
        assert(forall|m: int| 0 <= m < last ==> #[trigger] formats[m] == before[m]);
        if crate::sabr::formats::is_audio(formats[last]) && !crate::sabr::formats::ranks_below(
            formats[last],
            formats[i],
        ) {
            assert(is_audio_choice(formats, last));
        } else {
            assert(is_audio_choice(formats, i));
        }
    } else {
        assert forall|m: int| 0 <= m < last implies !crate::sabr::formats::is_audio(
            #[trigger] formats[m],
        ) by {
            assert(formats[m] == before[m]);
        }
        assert(is_audio_choice(formats, last));
    }
}

/// The video format that is chosen is video, and none has a lower bitrate, nor an earlier one as low
/// a bitrate.
pub proof fn law_chosen_video(formats: Seq<AdaptiveFormatView>, i: int, j: int)
    requires
        is_video_choice(formats, i),
        0 <= j < formats.len(),
        has_prefix(formats[j].mime_type, "video/"@),
    ensures
        0 <= i < formats.len(),
        has_prefix(formats[i].mime_type, "video/"@),
        formats[i].bitrate <= formats[j].bitrate,
        j < i ==> formats[i].bitrate < formats[j].bitrate,
{
    assert(crate::sabr::formats::is_video(formats[j]));
}

/// A stream that begins says the title and the length that were found and the media type of the
/// format that was chosen. Its session asks that server for that format and the chosen video format,
/// as the music web client exactly where there is a credential transfer token, with the token bytes;
/// nothing has been downloaded, announced or tried yet.
pub proof fn law_stream_begins(
    player: PlayerDataView,
    with_ctt: bool,
    po_token: Option<Seq<u8>>,
    info: SabrStreamInfo,
    session: Session,
)
    requires
        is_stream_start(player, with_ctt, po_token, Ok((info, session))),
    ensures
        info@.title == player.title,
        info@.duration_secs == player.duration_secs,
        session@.prev_progress == 0,
        session@.consecutive_errors == 0,
        session@.stall_count == 0,
        exists|a: int, v: int|
            {
                let s = session@.state;
                &&& #[trigger] is_audio_choice(player.formats, a)
                &&& #[trigger] is_video_choice(player.formats, v)
                &&& info@.mime_type == player.formats[a].mime_type
                &&& s.audio_itag == player.formats[a].itag
                &&& s.audio_format_id.itag == Some(player.formats[a].itag)
                &&& s.audio_format_id.last_modified == Some(player.formats[a].last_modified)
                &&& s.audio_format_id.xtags == player.formats[a].xtags
                &&& s.video_format_id.itag == Some(player.formats[v].itag)
                &&& s.video_format_id.last_modified == Some(player.formats[v].last_modified)
                &&& s.video_format_id.xtags == player.formats[v].xtags
            },
        session@.state.server_url == player.server_abr_streaming_url,
        session@.state.ustreamer_config == player.ustreamer_config,
        with_ctt ==> session@.state.client_config == web_remix_client_spec(),
        !with_ctt ==> session@.state.client_config == ios_client_spec(),
        session@.state.po_token == po_token,
        session@.state.request_number == 0,
        session@.state.playback_cookie is None,
        session@.state.backoff_time_ms == 0,
        session@.state.audio_max_segment == -1,
        session@.state.audio_downloaded_ms == 0,
        session@.state.audio_total_end_ms == 0,
        session@.state.audio_end_segment == 0,
        !session@.state.audio_init_sent,
        !session@.state.audio_initialized,
        !session@.state.done,
        session@.state.header_map == Map::<u32, HeaderInfo>::empty(),
        session@.state.sabr_contexts == Map::<i32, Seq<u8>>::empty(),
        session@.state.sabr_contexts_send == Set::<i32>::empty(),
        session@.state.sabr_contexts_discard == Set::<i32>::empty(),
{
    let formats = player.formats;
    let (a, v) = choose|a: int, v: int| #[trigger]
        is_audio_choice(formats, a) && #[trigger] is_video_choice(formats, v) && info@
            == crate::sabr::session::stream_info(player, formats[a]) && session@
            == crate::sabr::session::fresh_session(
            player,
            formats[a],
            formats[v],
            with_ctt,
            po_token,
        );
    assert(is_audio_choice(formats, a) && is_video_choice(formats, v));
}

/// A stream begins exactly where there is an audio format and a video format; without the first the
/// failure names that one, without the second alone the other.
pub proof fn law_stream_wants_both_formats(
    player: PlayerDataView,
    with_ctt: bool,
    po_token: Option<Seq<u8>>,
    res: Result<(SabrStreamInfo, Session), SabrError>,
)
    requires
        is_stream_start(player, with_ctt, po_token, res),
    ensures
        ({
            let audio = exists|i: int|
                0 <= i < player.formats.len() && has_prefix(
                    (#[trigger] player.formats[i]).mime_type,
                    "audio/"@,
                );
            let video = exists|i: int|
                0 <= i < player.formats.len() && has_prefix(
                    (#[trigger] player.formats[i]).mime_type,
                    "video/"@,
                );
            &&& res is Ok <==> audio && video
            &&& !audio ==> res == Err::<(SabrStreamInfo, Session), _>(SabrError::NoAudioFormat)
            &&& audio && !video ==> res == Err::<(SabrStreamInfo, Session), _>(
                SabrError::NoVideoFormat,
            )
        }),
{
    let formats = player.formats;
    if res is Ok {
        let (a, v) = choose|a: int, v: int| #[trigger]
            is_audio_choice(formats, a) && #[trigger] is_video_choice(formats, v) && res->Ok_0.0@
                == crate::sabr::session::stream_info(player, formats[a]) && res->Ok_0.1@
                == crate::sabr::session::fresh_session(
                player,
                formats[a],
                formats[v],
                with_ctt,
                po_token,
            );
        assert(has_prefix(formats[a].mime_type, "audio/"@));
        assert(has_prefix(formats[v].mime_type, "video/"@));
    } else {
        assert forall|i: int| 0 <= i < formats.len() implies (crate::sabr::formats::is_audio(
            #[trigger] formats[i],
        ) <==> has_prefix(formats[i].mime_type, "audio/"@)) by {}
        assert forall|i: int| 0 <= i < formats.len() implies (crate::sabr::formats::is_video(
            #[trigger] formats[i],
        ) <==> has_prefix(formats[i].mime_type, "video/"@)) by {}
        if res->Err_0 is NoVideoFormat {
            let i = choose|i: int|
                0 <= i < formats.len() && crate::sabr::formats::is_audio(#[trigger] formats[i]);
            assert(has_prefix(formats[i].mime_type, "audio/"@));
        }
    }
}

/// A proof-of-origin token is sent as what its Base64 stands for, and not at all where it stands for
/// nothing.
pub proof fn law_token_is_decoded(token: Seq<char>)
    ensures
        token_bytes(None) is None,
        token_bytes(Some(token)) == standard_bytes(token),
{
}

/// Once an audio segment is complete, a request claims the audio from its beginning to where it has
/// been downloaded, up to that segment; before that it claims none.
pub proof fn law_claimed_audio_is_what_was_downloaded(
    s: SabrView,
    contexts: Seq<(i32, Seq<u8>)>,
)
    ensures
        s.audio_max_segment < 0 ==> request_of(s, contexts).buffered_ranges.len() == 1,
        s.audio_max_segment >= 0 ==> {
            let ranges = request_of(s, contexts).buffered_ranges;
            let audio = ranges[0];
            &&& ranges.len() == 2
            &&& audio.format_id == s.audio_format_id
            &&& audio.start_time_ms == 0
            &&& audio.start_time_ms + audio.duration_ms == s.audio_downloaded_ms
            &&& audio.start_segment_index == 0
            &&& audio.end_segment_index == s.audio_max_segment
            &&& audio.time_range.start_ticks == Some(0i64)
            &&& audio.time_range.duration_ticks is Some
            &&& audio.time_range.start_ticks->0 + audio.time_range.duration_ticks->0
                == s.audio_downloaded_ms
            &&& audio.time_range.timescale == Some(1000i32)
        },
{
}

/// Every request claims the video from its beginning to the greatest time and segment that can be
/// named, as its last range.
pub proof fn law_claimed_video_is_all_of_it(s: SabrView, contexts: Seq<(i32, Seq<u8>)>)
    ensures
        ({
            let video = request_of(s, contexts).buffered_ranges.last();
            &&& video.format_id == s.video_format_id
            &&& video.start_time_ms == 0
            &&& video.duration_ms == i32::MAX
            &&& video.start_segment_index == i32::MAX
            &&& video.end_segment_index == i32::MAX
            &&& video.time_range.start_ticks == Some(0i64)
            &&& video.time_range.duration_ticks is Some
            &&& video.time_range.duration_ticks->0 == i32::MAX
            &&& video.time_range.timescale == Some(1000i32)
        }),
{
}

/// A request selects the video, and behind it the audio once that has been announced; it prefers
/// these two formats.
pub proof fn law_selected_formats(s: SabrView, contexts: Seq<(i32, Seq<u8>)>)
    ensures
        request_of(s, contexts).selected_format_ids == (if s.audio_initialized {
            seq![s.video_format_id, s.audio_format_id]
        } else {
            seq![s.video_format_id]
        }),
        request_of(s, contexts).preferred_audio_format_ids == seq![s.audio_format_id],
        request_of(s, contexts).preferred_video_format_ids == seq![s.video_format_id],
{
}

/// A request asks for audio alone at normal speed, from a visible player that plays; the position is
/// ten seconds before the end of what has been downloaded, or the beginning.
pub proof fn law_reported_playback(s: SabrView, contexts: Seq<(i32, Seq<u8>)>)
    ensures
        ({
            let p = request_of(s, contexts).client_abr_state;
            &&& p.enabled_track_types_bitfield == 1
            &&& p.playback_rate == 1
            &&& p.bandwidth_estimate == 5_000_000
            &&& p.visibility == 1
            &&& p.player_state == 1
            &&& s.audio_downloaded_ms < 10_000 ==> p.player_time_ms == 0
            &&& s.audio_downloaded_ms >= 10_000 ==> s.audio_downloaded_ms - p.player_time_ms
                == 10_000
        }),
{
}

/// A request carries the server's configuration where there is any, the client's own data, the
/// token, the cookie, and the contexts.
pub proof fn law_request_carries_what_is_known(s: SabrView, contexts: Seq<(i32, Seq<u8>)>)
    ensures
        ({
            let req = request_of(s, contexts);
            let who = req.streamer_context.client_info;
            let c = s.client_config;
            &&& s.ustreamer_config.len() == 0 ==> req.video_playback_ustreamer_config is None
            &&& s.ustreamer_config.len() > 0 ==> req.video_playback_ustreamer_config == Some(
                s.ustreamer_config,
            )
            &&& who.device_make == c.device_make@
            &&& who.device_model == c.device_model@
            &&& who.client_name == c.client_name_id
            &&& who.client_version == c.client_version@
            &&& who.os_name == c.os_name@
            &&& who.os_version == c.os_version@
            &&& who.android_sdk_version == c.android_sdk_version
            &&& req.streamer_context.po_token == s.po_token
            &&& req.streamer_context.playback_cookie == s.playback_cookie
            &&& req.streamer_context.sabr_contexts == contexts
        }),
{
}

/// A list of the contexts to be sent holds each type that is to be sent, has not been discarded and
/// has a value, with that value, and holds none twice and none else.
pub proof fn law_wanted_contexts_are_sent(
    s: SabrView,
    contexts: Seq<(i32, Seq<u8>)>,
    kind: i32,
    i: int,
    j: int,
)
    requires
        lists_entries(contexts, sendable(s)),
    ensures
        s.sabr_contexts.contains_key(kind) && s.sabr_contexts_send.contains(kind)
            && !s.sabr_contexts_discard.contains(kind) ==> contexts.contains(
            (kind, s.sabr_contexts[kind]),
        ),
        0 <= i < contexts.len() && 0 <= j < contexts.len() && contexts[i].0 == contexts[j].0 ==> i
            == j,
        0 <= i < contexts.len() ==> {
            &&& s.sabr_contexts.contains_key(contexts[i].0)
            &&& s.sabr_contexts[contexts[i].0] == contexts[i].1
            &&& s.sabr_contexts_send.contains(contexts[i].0)
            &&& !s.sabr_contexts_discard.contains(contexts[i].0)
        },
{
    let m = sendable(s);
    if s.sabr_contexts.contains_key(kind) && s.sabr_contexts_send.contains(kind)
        && !s.sabr_contexts_discard.contains(kind) {
        assert(m.contains_key(kind));
        let k = choose|k: int| 0 <= k < contexts.len() && (#[trigger] contexts[k]).0 == kind;
        assert(contexts[k] == (kind, s.sabr_contexts[kind]));
    }
    if 0 <= i < contexts.len() {
        assert(m.contains_key(contexts[i].0));
    }
}

/// A request's URL is the server's, with the request's number behind it, as a further parameter where
/// the URL has parameters and as the first where it has none.
pub proof fn law_request_url(s: SabrView, i: int)
    ensures
        0 <= i < s.server_url.len() && s.server_url[i] == '?' ==> request_url_of(s) == s.server_url
            + "&rn="@ + decimal(s.request_number as nat),
        (forall|k: int| 0 <= k < s.server_url.len() ==> #[trigger] s.server_url[k] != '?')
            ==> request_url_of(s) == s.server_url + "?rn="@ + decimal(s.request_number as nat),
{
    reveal_strlit("?");
    let url = s.server_url;
    if 0 <= i < url.len() && url[i] == '?' {
        assert(url.subrange(i, i + 1) =~= "?"@);
        assert(occurs_at(url, "?"@, i));
    }
    if forall|k: int| 0 <= k < url.len() ==> #[trigger] url[k] != '?' {
        assert forall|at: int| !#[trigger] occurs_at(url, "?"@, at) by {
            if occurs_at(url, "?"@, at) {
                assert(url.subrange(at, at + 1)[0] == url[at]);
            }
        }
    }
}

/// A request is posted to that URL under the client's user agent.
pub proof fn law_request_is_posted(s: SabrView, call: MediaCall)
    requires
        is_media_call(s, call),
    ensures
        call.url@ == request_url_of(s),
        headers_view(call.headers@) == seq![
            ("User-Agent"@, s.client_config.user_agent@),
            ("Content-Type"@, "application/x-protobuf"@),
            ("Accept"@, "application/vnd.yt-ump"@),
        ],
        call.body@ == request_of(s, call.body@.streamer_context.sabr_contexts),
        lists_entries(call.body@.streamer_context.sabr_contexts, sendable(s)),
{
    assert(headers_view(call.headers@) =~= seq![
        ("User-Agent"@, s.client_config.user_agent@),
        ("Content-Type"@, "application/x-protobuf"@),
        ("Accept"@, "application/vnd.yt-ump"@),
    ]);
}

/// After a request that went well the session stops exactly where it was told to, has all audio, or
/// has brought no progress for more than thirty requests; else it waits as long as the server asked.
pub proof fn law_session_stops_for_cause(s: SessionView, go_on: bool)
    ensures
        ({
            let next = cycle_next(s, Ok(go_on));
            let idle = s.prev_progress > 0 && s.state.audio_downloaded_ms == s.prev_progress;
            &&& next == NextView::Stop <==> !go_on || s.state.done || (idle && s.stall_count >= 30)
            &&& next != NextView::Stop ==> next == NextView::Again(s.state.backoff_time_ms as u64)
        }),
{
}

/// After a request that failed the session waits half a second, and twice as long after each further
/// failure in a row; the sixth ends it, with the failure's text.
pub proof fn law_session_retries(s: SessionView, e: SabrErrorView)
    ensures
        ({
            let next = cycle_next(s, Err(e));
            &&& s.consecutive_errors == 0 ==> next == NextView::Again(500)
            &&& s.consecutive_errors == 1 ==> next == NextView::Again(1_000)
            &&& s.consecutive_errors == 2 ==> next == NextView::Again(2_000)
            &&& s.consecutive_errors == 3 ==> next == NextView::Again(4_000)
            &&& s.consecutive_errors == 4 ==> next == NextView::Again(8_000)
            &&& s.consecutive_errors >= 5 ==> next == NextView::Fail(
                SabrErrorView::RetriesExhausted(error_text(e)),
            )
        }),
{
    reveal_with_fuel(crate::sabr::session::retry_delay, 5);
}

/// A request leaves the stream's state alone in the session's own count: a success clears the
/// failures and counts as a stall or clears those too, a failure counts as one and leaves the stalls.
pub proof fn law_session_counts(s: SessionView, e: SabrErrorView)
    ensures
        after_cycle(s, Ok(true)).state == s.state,
        after_cycle(s, Ok(false)).state == s.state,
        after_cycle(s, Err(e)).state == s.state,
        after_cycle(s, Ok(true)).prev_progress == s.prev_progress,
        after_cycle(s, Err(e)).prev_progress == s.prev_progress,
        after_cycle(s, Ok(true)).consecutive_errors == 0,
        after_cycle(s, Ok(false)).consecutive_errors == 0,
        s.consecutive_errors < u32::MAX ==> after_cycle(s, Err(e)).consecutive_errors
            == s.consecutive_errors + 1,
        after_cycle(s, Err(e)).stall_count == s.stall_count,
        !s.state.done && !(s.prev_progress > 0 && s.state.audio_downloaded_ms == s.prev_progress)
            ==> after_cycle(s, Ok(true)).stall_count == 0,
        !s.state.done && s.prev_progress > 0 && s.state.audio_downloaded_ms == s.prev_progress
            && s.stall_count < u32::MAX ==> after_cycle(s, Ok(true)).stall_count == s.stall_count
            + 1,
{
}

/// A session within its limits has had five failures in a row at most and thirty stalls; beginning a
/// request only notes how far the audio has come, and not even that where the listener has gone.
pub proof fn law_session_limits(s: SessionView)
    ensures
        within_limits(s) <==> s.consecutive_errors < 6 && s.stall_count < 31,
        begun(s, false) == (SessionView { prev_progress: s.state.audio_downloaded_ms, ..s }),
        begun(s, true) == s,
{
}

/// A fresh state knows its server, its formats, its configuration and its client, and nothing else.
pub proof fn law_fresh_state(
    url: Seq<char>,
    audio: AdaptiveFormatView,
    video: AdaptiveFormatView,
    config: Seq<u8>,
    client: InnerTubeClient,
)
    ensures
        ({
            let s = fresh_state(url, audio, video, config, client);
            &&& s.server_url == url
            &&& s.ustreamer_config == config
            &&& s.client_config == client
            &&& s.audio_itag == audio.itag
            &&& s.audio_format_id.itag == Some(audio.itag)
            &&& s.audio_format_id.last_modified == Some(audio.last_modified)
            &&& s.audio_format_id.xtags == audio.xtags
            &&& s.video_format_id.itag == Some(video.itag)
            &&& s.video_format_id.last_modified == Some(video.last_modified)
            &&& s.video_format_id.xtags == video.xtags
            &&& s.request_number == 0 && s.backoff_time_ms == 0
            &&& s.audio_max_segment == -1 && s.audio_downloaded_ms == 0
            &&& s.audio_total_end_ms == 0 && s.audio_end_segment == 0
            &&& !s.audio_init_sent && !s.audio_initialized && !s.done
            &&& s.playback_cookie is None && s.po_token is None
            &&& s.header_map == Map::<u32, HeaderInfo>::empty()
            &&& s.sabr_contexts == Map::<i32, Seq<u8>>::empty()
            &&& s.sabr_contexts_send == Set::<i32>::empty()
            &&& s.sabr_contexts_discard == Set::<i32>::empty()
        }),
{
}

/// A part is its type, its length and as many bytes as that says; where fewer have come in there is
/// none yet.
pub proof fn law_part_is_type_length_and_data(b: Seq<u8>)
    ensures
        number_in(b) is None ==> part_in(b) is None,
        number_in(b) matches Some((kind, n)) ==> {
            &&& number_in(b.skip(n as int)) is None ==> part_in(b) is None
            &&& number_in(b.skip(n as int)) matches Some((size, m)) ==> {
                let at = n + m;
                &&& b.len() < at + size ==> part_in(b) is None
                &&& b.len() >= at + size ==> part_in(b) == Some(
                    (
                        UmpPartView {
                            part_type: kind as u32,
                            data: b.subrange(at as int, (at + size) as int),
                        },
                        at + size,
                    ),
                )
            }
        },
{
}

/// The types of parts that are known, each by its number; any other number stands for none of them.
pub proof fn law_part_types(n: u32)
    ensures
        kind_of_type(20) == PartKind::MediaHeader,
        kind_of_type(21) == PartKind::Media,
        kind_of_type(22) == PartKind::MediaEnd,
        kind_of_type(35) == PartKind::NextRequestPolicy,
        kind_of_type(42) == PartKind::FormatInit,
        kind_of_type(43) == PartKind::Redirect,
        kind_of_type(44) == PartKind::Error,
        kind_of_type(57) == PartKind::ContextUpdate,
        kind_of_type(58) == PartKind::StreamProtection,
        kind_of_type(59) == PartKind::ContextSendingPolicy,
        n < 20 || 22 < n < 35 || 35 < n < 42 || 44 < n < 57 || n > 59 ==> kind_of_type(n)
            == PartKind::Other,
{
}

/// A number takes one byte more for each leading one of its first byte, five at most; its low bits are
/// those of the first byte that follow the marker, and its further bytes come lowest first.
pub proof fn law_framing_numbers(b: Seq<u8>, more: Seq<u8>)
    ensures
        number_in(Seq::empty()) is None,
        b.len() == 1 && b[0] < 0x80 ==> number_in(b + more) == Some((b[0] as nat, 1nat)),
        b.len() == 2 && 0x80 <= b[0] < 0xc0 ==> number_in(b + more) == Some(
            ((b[0] - 0x80 + 0x40 * b[1]) as nat, 2nat),
        ),
        b.len() == 3 && 0xc0 <= b[0] < 0xe0 ==> number_in(b + more) == Some(
            ((b[0] - 0xc0 + 0x20 * (b[1] + 0x100 * b[2])) as nat, 3nat),
        ),
        b.len() == 4 && 0xe0 <= b[0] < 0xf0 ==> number_in(b + more) == Some(
            ((b[0] - 0xe0 + 0x10 * (b[1] + 0x100 * (b[2] + 0x100 * b[3]))) as nat, 4nat),
        ),
        b.len() == 5 && 0xf0 <= b[0] ==> number_in(b + more) == Some(
            ((b[1] + 0x100 * (b[2] + 0x100 * (b[3] + 0x100 * b[4]))) as nat, 5nat),
        ),
        b.len() > 0 && 0x80 <= b[0] && b.len() == 1 ==> number_in(b) is None,
        b.len() > 0 && 0xc0 <= b[0] && b.len() == 2 ==> number_in(b) is None,
        b.len() > 0 && 0xe0 <= b[0] && b.len() == 3 ==> number_in(b) is None,
        b.len() > 0 && 0xf0 <= b[0] && b.len() == 4 ==> number_in(b) is None,
{
    let all = b + more;
    assert(forall|i: int| 0 <= i < b.len() ==> all[i] == b[i]);
}

} // verus!
