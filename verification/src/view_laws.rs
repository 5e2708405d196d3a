//! What contracts say of a value is what the value holds: nothing is left out and nothing changed.
use vstd::prelude::*;
use crate::http::{headers_view, PlayerCall};
use crate::innertube::{track_view, LookupError, LookupStep, StreamInfo, Track};
use crate::json::{items_view, json_view, members_view, Json, JsonView};
use crate::messages::{args_view, Arg, ArgView, OutgoingMessage};
use crate::player::{ops_view, Op, OpView, Player, PlayerCommand};
use crate::player_response::{entries_view, Details, FormatEntry, Streaming};
use crate::playlist::PlaylistState;
use crate::sabr::error::SabrError;
use crate::sabr::formats::{formats_view, AdaptiveFormat};
use crate::sabr::parts::{bytes_of, opt_buffer, outcome_view};
use crate::sabr::player_data::{player_result_view, PlayerData, PlayerSearch, SearchStep};
use crate::sabr::proto::{
    contexts_view, format_ids_view, ranges_view, BufferedRange, ClientInfo, FormatId, SabrContext,
    StreamerContext, VideoPlaybackAbrRequest,
};
use crate::sabr::session::{
    cycle_outcome_view, CycleStep, CycleStepView, Next, NextView, SabrStreamInfo, Session,
};
use crate::sabr::state::{values_view, SabrState};
use crate::sabr::ump::UmpPart;
use crate::text::{opt_bytes, opt_str, opt_text, texts};

verus! {

/// Optional texts and bytes, and lists of texts, show what they hold.
pub proof fn law_texts_are_shown(
    a: Option<String>,
    b: Option<&str>,
    c: Option<Vec<u8>>,
    list: Seq<String>,
    i: int,
)
    ensures
        a is None <==> opt_text(a) is None,
        a is Some ==> opt_text(a) == Some(a->0@),
        b is None <==> opt_str(b) is None,
        b is Some ==> opt_str(b) == Some(b->0@),
        c is None <==> opt_bytes(c) is None,
        c is Some ==> opt_bytes(c) == Some(c->0@),
        texts(list).len() == list.len(),
        0 <= i < list.len() ==> texts(list)[i] == list[i]@,
{
}

/// JSON values and requests show what they hold.
pub proof fn law_json_is_shown(
    j: Json,
    items: Seq<Json>,
    members: Seq<(String, Json)>,
    call: PlayerCall,
    i: int,
)
    ensures
        j@ == json_view(j),
        match j {
            Json::Bool(b) => j@ == JsonView::Bool(b),
            Json::Int(n) => j@ == JsonView::Int(n as int),
            Json::Text(s) => j@ == JsonView::Text(s@),
            Json::List(list) => j@ == JsonView::List(items_view(list@)),
            Json::Object(list) => j@ == JsonView::Object(members_view(list@)),
        },
        items_view(items).len() == items.len(),
        0 <= i < items.len() ==> items_view(items)[i] == items[i]@,
        members_view(members).len() == members.len(),
        0 <= i < members.len() ==> members_view(members)[i] == (members[i].0@, members[i].1@),
        call@.url == call.url@,
        call@.body == call.body@,
        call@.headers.len() == call.headers@.len(),
        0 <= i < call.headers@.len() ==> call@.headers[i] == (
            call.headers@[i].0@,
            call.headers@[i].1@,
        ),
        call@.headers == headers_view(call.headers@),
{
}

/// Tracks, lookups and their failures show what they hold.
pub proof fn law_lookups_are_shown(info: StreamInfo, e: LookupError, t: Track, step: LookupStep)
    ensures
        info@.title == info.title@,
        info@.duration == info.duration,
        info@.stream_url == info.stream_url@,
        match e {
            LookupError::Transport(s) => e@ is Transport && e@->Transport_0 == s@,
            LookupError::Status(s) => e@ is Status && e@->Status_0 == s@,
            LookupError::NotJson => e@ is NotJson,
            LookupError::NotPlayable { video_id, status, reason } => e@ is NotPlayable
                && e@->video_id == video_id@ && e@->status == status@ && e@->reason == reason@,
        },
        match t {
            Ok(found) => track_view(t) is Ok && track_view(t)->Ok_0.0 == found.0@ && track_view(
                t,
            )->Ok_0.1 == found.1,
            Err(e) => track_view(t) is Err && track_view(t)->Err_0 == e@,
        },
        match step {
            LookupStep::Ask(l, call) => step@ is Ask && step@->Ask_0 == l.video_id@ && step@->Ask_1
                == l.attempt && step@->Ask_2 == call@,
            LookupStep::Found(info) => step@ is Found && step@->Found_0 == info@,
        },
{
}

/// What is read of an answer shows what it holds.
pub proof fn law_answers_are_shown(
    d: Details,
    f: FormatEntry,
    s: Streaming,
    list: Seq<FormatEntry>,
    i: int,
)
    ensures
        d@.status == opt_text(d.status),
        d@.reason == opt_text(d.reason),
        d@.title == opt_text(d.title),
        d@.length_seconds == opt_text(d.length_seconds),
        f@.itag == f.itag,
        f@.last_modified == opt_text(f.last_modified),
        f@.xtags == opt_text(f.xtags),
        f@.mime_type == opt_text(f.mime_type),
        f@.bitrate == f.bitrate,
        s@.server_abr_url == opt_text(s.server_abr_url),
        s@.ustreamer_config == opt_text(s.ustreamer_config),
        s.formats is Some <==> s@.formats is Some,
        s.formats is Some ==> s@.formats->0 == entries_view(s.formats->0@),
        entries_view(list).len() == list.len(),
        0 <= i < list.len() ==> entries_view(list)[i] == list[i]@,
{
}

/// The failures of a stream show what they hold.
pub proof fn law_stream_failures_are_shown(e: SabrError)
    ensures
        match e {
            SabrError::Transport(s) => e@ is Transport && e@->Transport_0 == s@,
            SabrError::PlayerStatus(s) => e@ is PlayerStatus && e@->PlayerStatus_0 == s@,
            SabrError::NotJson => e@ is NotJson,
            SabrError::NotPlayable { video_id, status, reason } => e@ is NotPlayable
                && e@->video_id == video_id@ && e@->status == status@ && e@->reason == reason@,
            SabrError::NoStreamingUrl => e@ is NoStreamingUrl,
            SabrError::NoFormats => e@ is NoFormats,
            SabrError::NoAudioFormat => e@ is NoAudioFormat,
            SabrError::NoVideoFormat => e@ is NoVideoFormat,
            SabrError::RequestStatus(s) => e@ is RequestStatus && e@->RequestStatus_0 == s@,
            SabrError::Decode(s) => e@ is Decode && e@->Decode_0 == s@,
            SabrError::Server { kind, code } => e@ is Server && e@->kind == kind@ && e@->code
                == code,
            SabrError::RetriesExhausted(s) => e@ is RetriesExhausted && e@->RetriesExhausted_0
                == s@,
        },
{
}

/// Formats and streaming data show what they hold.
pub proof fn law_streaming_data_are_shown(
    f: AdaptiveFormat,
    list: Seq<AdaptiveFormat>,
    i: int,
    d: PlayerData,
    r: Result<PlayerData, SabrError>,
    s: PlayerSearch,
    step: SearchStep,
)
    ensures
        f@.itag == f.itag,
        f@.last_modified == f.last_modified,
        f@.xtags == opt_text(f.xtags),
        f@.mime_type == f.mime_type@,
        f@.bitrate == f.bitrate,
        formats_view(list).len() == list.len(),
        0 <= i < list.len() ==> formats_view(list)[i] == list[i]@,
        d@.server_abr_streaming_url == d.server_abr_streaming_url@,
        d@.ustreamer_config == d.ustreamer_config@,
        d@.formats == formats_view(d.formats@),
        d@.title == d.title@,
        d@.duration_secs == d.duration_secs,
        match r {
            Ok(d) => player_result_view(r) is Ok && player_result_view(r)->Ok_0 == d@,
            Err(e) => player_result_view(r) is Err && player_result_view(r)->Err_0 == e@,
        },
        s@.video_id == s.video_id@,
        s@.ctt == opt_text(s.ctt),
        s@.po_token == opt_text(s.po_token),
        s@.attempt == s.attempt,
        match step {
            SearchStep::Ask(s) => step@ is Ask && step@->Ask_0 == s@,
            SearchStep::Found(d, t) => step@ is Found && step@->Found_0 == d@ && step@->Found_1
                == opt_text(t),
            SearchStep::Failed(e) => step@ is Failed && step@->Failed_0 == e@,
        },
{
}

/// The parts of a request show what they hold.
pub proof fn law_request_parts_are_shown(
    f: FormatId,
    c: ClientInfo,
    x: StreamerContext,
    r: BufferedRange,
    contexts: Seq<SabrContext>,
    ids: Seq<FormatId>,
    ranges: Seq<BufferedRange>,
    i: int,
)
    ensures
        f@.itag == f.itag,
        f@.last_modified == f.last_modified,
        f@.xtags == opt_text(f.xtags),
        c@.device_make == c.device_make@,
        c@.device_model == c.device_model@,
        c@.client_name == c.client_name,
        c@.client_version == c.client_version@,
        c@.os_name == c.os_name@,
        c@.os_version == c.os_version@,
        c@.android_sdk_version == c.android_sdk_version,
        x@.client_info == x.client_info@,
        x@.po_token == opt_bytes(x.po_token),
        x@.playback_cookie == opt_bytes(x.playback_cookie),
        x@.sabr_contexts == contexts_view(x.sabr_contexts@),
        r@.format_id == r.format_id@,
        r@.start_time_ms == r.start_time_ms,
        r@.duration_ms == r.duration_ms,
        r@.start_segment_index == r.start_segment_index,
        r@.end_segment_index == r.end_segment_index,
        r@.time_range == r.time_range,
        contexts_view(contexts).len() == contexts.len(),
        0 <= i < contexts.len() ==> contexts_view(contexts)[i] == (
            contexts[i].context_type,
            contexts[i].value@,
        ),
        format_ids_view(ids).len() == ids.len(),
        0 <= i < ids.len() ==> format_ids_view(ids)[i] == ids[i]@,
        ranges_view(ranges).len() == ranges.len(),
        0 <= i < ranges.len() ==> ranges_view(ranges)[i] == ranges[i]@,
{
}

/// A request shows what it holds.
pub proof fn law_request_is_shown(q: VideoPlaybackAbrRequest)
    ensures
        q@.client_abr_state == q.client_abr_state,
        q@.selected_format_ids == format_ids_view(q.selected_format_ids@),
        q@.buffered_ranges == ranges_view(q.buffered_ranges@),
        q@.video_playback_ustreamer_config == opt_bytes(q.video_playback_ustreamer_config),
        q@.preferred_audio_format_ids == format_ids_view(q.preferred_audio_format_ids@),
        q@.preferred_video_format_ids == format_ids_view(q.preferred_video_format_ids@),
        q@.streamer_context == q.streamer_context@,
{
}

/// A session's state shows what it holds.
pub proof fn law_state_is_shown(s: SabrState, kind: i32)
    ensures
        s@.server_url == s.server_url@,
        s@.request_number == s.request_number,
        s@.playback_cookie == opt_bytes(s.playback_cookie),
        s@.backoff_time_ms == s.backoff_time_ms,
        s@.header_map == s.header_map@,
        s@.audio_itag == s.audio_itag,
        s@.audio_format_id == s.audio_format_id@,
        s@.audio_max_segment == s.audio_max_segment,
        s@.audio_downloaded_ms == s.audio_downloaded_ms,
        s@.audio_init_sent == s.audio_init_sent,
        s@.audio_initialized == s.audio_initialized,
        s@.audio_total_end_ms == s.audio_total_end_ms,
        s@.audio_end_segment == s.audio_end_segment,
        s@.video_format_id == s.video_format_id@,
        s@.sabr_contexts.contains_key(kind) <==> s.sabr_contexts@.contains_key(kind),
        s.sabr_contexts@.contains_key(kind) ==> s@.sabr_contexts[kind] == s.sabr_contexts@[kind]@,
        s@.sabr_contexts == values_view(s.sabr_contexts@),
        s@.sabr_contexts_send == s.sabr_contexts_send@,
        s@.sabr_contexts_discard == s.sabr_contexts_discard@,
        s@.ustreamer_config == s.ustreamer_config@,
        s@.client_config == s.client_config,
        s@.po_token == opt_bytes(s.po_token),
        s@.done == s.done,
{
}

/// A session, its steps and its parts show what they hold.
pub proof fn law_session_is_shown(
    s: Session,
    info: SabrStreamInfo,
    step: CycleStep,
    next: Next,
    part: UmpPart,
    done: Result<(), SabrError>,
    outcome: Result<bool, SabrError>,
    b: Option<bytes::Bytes>,
)
    ensures
        s@.state == s.state@,
        s@.prev_progress == s.prev_progress,
        s@.consecutive_errors == s.consecutive_errors,
        s@.stall_count == s.stall_count,
        info@.title == info.title@,
        info@.duration_secs == info.duration_secs,
        info@.mime_type == info.mime_type@,
        match step {
            CycleStep::Read => step@ is Read,
            CycleStep::Deliver(b) => step@ is Deliver && step@->Deliver_0 == bytes_of(b),
            CycleStep::Over(Ok(go_on)) => step@ == CycleStepView::Over(Ok(go_on)),
            CycleStep::Over(Err(e)) => step@ == CycleStepView::Over(Err(e@)),
        },
        match next {
            Next::Stop => next@ is Stop,
            Next::Fail(e) => next@ == NextView::Fail(e@),
            Next::Again(ms) => next@ == NextView::Again(ms),
        },
        part@.part_type == part.part_type,
        part@.data == part.data@,
        done is Ok <==> outcome_view(done) is Ok,
        done matches Err(e) ==> outcome_view(done)->Err_0 == e@,
        match outcome {
            Ok(b) => cycle_outcome_view(outcome) is Ok && cycle_outcome_view(outcome)->Ok_0 == b,
            Err(e) => cycle_outcome_view(outcome) is Err && cycle_outcome_view(outcome)->Err_0
                == e@,
        },
        b is None <==> opt_buffer(b) is None,
        b is Some ==> opt_buffer(b)->0 == bytes_of(b->0),
{
}

/// Messages to the phone show what they hold.
pub proof fn law_messages_are_shown(a: Arg, m: OutgoingMessage, i: int)
    ensures
        match a {
            Arg::Text(s) => a@ == ArgView::Text(s@),
            Arg::State(p) => a@ == ArgView::State(p),
            Arg::WholeSeconds(n) => a@ == ArgView::WholeSeconds(n),
            Arg::Time(t) => a@ == ArgView::Time(t),
            Arg::Nonce => a@ == ArgView::Nonce,
        },
        m@.name == m.name@,
        m@.args == args_view(m.args@),
        m@.args.len() == m.args@.len(),
        0 <= i < m.args@.len() ==> m@.args[i] == (m.args@[i].0@, m.args@[i].1@),
{
}

/// The player, its playlist and its operations show what they hold.
pub proof fn law_player_is_shown(p: Player, l: PlaylistState, op: Op, i: int)
    ensures
        p@.playlist == p.playlist@,
        p@.play_started == p.play_started,
        p@.pending == ops_view(p.pending@),
        p@.pending.len() == p.pending@.len(),
        0 <= i < p.pending@.len() ==> p@.pending[i] == p.pending@[i]@,
        l@.video_ids == texts(l.video_ids@),
        l@.current_index == l.current_index,
        l@.list_id == l.list_id@,
        l@.ctt == opt_text(l.ctt),
        l@.current_title == l.current_title@,
        l@.current_duration == l.current_duration,
        match op {
            Op::StoreToken(t) => op@ == OpView::StoreToken(opt_text(t)),
            Op::Resolve { video_id, ctt, list_id, start } => op@ is Resolve && op@->video_id
                == video_id@ && op@->ctt == opt_text(ctt) && op@->list_id == opt_text(list_id)
                && op@->start == start,
            Op::Clear => op@ is Clear,
            Op::Add(url) => op@ == OpView::Add(url@),
            Op::Play => op@ is Play,
            Op::Seek(t) => op@ == OpView::Seek(t),
            Op::Resume => op@ is Resume,
            Op::Pause => op@ is Pause,
            Op::Stop => op@ is Stop,
            Op::SetVolume(v) => op@ == OpView::SetVolume(v),
            Op::Ask(q) => op@ == OpView::Ask(q),
            Op::Send(m) => op@ == OpView::Send(m@),
            Op::MarkStarted => op@ is MarkStarted,
            Op::Forget => op@ is Forget,
        },
{
}

/// Commands show what they hold.
pub proof fn law_commands_are_shown(cmd: PlayerCommand)
    ensures
        match cmd {
            PlayerCommand::SetPlaylist { video_id, video_ids, list_id, index, ctt, current_time } =>
            cmd@ is SetPlaylist && cmd@->SetPlaylist_video_id == video_id@
                && cmd@->SetPlaylist_video_ids == texts(video_ids@) && cmd@->SetPlaylist_list_id
                == list_id@ && cmd@->index == index && cmd@->SetPlaylist_ctt == opt_text(ctt)
                && cmd@->SetPlaylist_current_time == current_time,
            PlayerCommand::SetVideo { video_id, ctt, current_time } => cmd@ is SetVideo
                && cmd@->SetVideo_video_id == video_id@ && cmd@->SetVideo_ctt == opt_text(ctt)
                && cmd@->SetVideo_current_time == current_time,
            PlayerCommand::Play => cmd@ is Play,
            PlayerCommand::Pause => cmd@ is Pause,
            PlayerCommand::SeekTo { position } => cmd@ is SeekTo && cmd@->position == position,
            PlayerCommand::SetVolume { volume } => cmd@ is SetVolume && cmd@->volume == volume,
            PlayerCommand::GetVolume => cmd@ is GetVolume,
            PlayerCommand::GetNowPlaying => cmd@ is GetNowPlaying,
            PlayerCommand::GetPlaylist => cmd@ is GetPlaylist,
            PlayerCommand::Stop => cmd@ is Stop,
            PlayerCommand::UpdatePlaylist { video_ids, list_id, current_index } =>
            cmd@ is UpdatePlaylist && cmd@->UpdatePlaylist_video_ids == texts(video_ids@)
                && cmd@->UpdatePlaylist_list_id == list_id@ && cmd@->current_index
                == current_index,
            PlayerCommand::Previous => cmd@ is Previous,
            PlayerCommand::Next => cmd@ is Next,
            PlayerCommand::RemoteDisconnected => cmd@ is RemoteDisconnected,
        },
{
}

} // verus!
