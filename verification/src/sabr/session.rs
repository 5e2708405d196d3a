//! The session: one request after another until all audio has been downloaded.
use bytes::Bytes;
use vstd::prelude::*;
use crate::http::{headers_view, no_headers, no_headers_view, put_header};
use crate::sabr::client::{
    ios_client, ios_client_spec, web_remix_client, web_remix_client_spec,
};
use crate::sabr::encoding::{decode_standard, standard_bytes};
use crate::sabr::error::{error_text, SabrError, SabrErrorView};
use crate::sabr::formats::{
    choose_audio_format, choose_video_format, formats_view, is_audio, is_audio_choice, is_video,
    is_video_choice, AdaptiveFormatView,
};
use crate::sabr::parts::{
    bytes_of, decode_outcome, end_fits, handle_context_sending_policy, handle_context_update,
    handle_format_init_metadata, handle_media, handle_media_end, handle_media_header,
    handle_next_request_policy, handle_sabr_error, handle_sabr_redirect, handle_stream_protection,
    header_fits, media_end_fits, media_header_fits, media_payload, on_context_update,
    on_format_init, on_media, on_media_end, on_media_header, on_next_request_policy, on_redirect,
    on_sending_policy, outcome_view, server_failure,
};
use crate::sabr::player_data::{PlayerData, PlayerDataView};
use crate::sabr::proto::{
    FormatInitializationMetadata, MediaHeader, NextRequestPolicy, SabrContextSendingPolicy,
    SabrContextUpdate, SabrRedirect, ServerError, StreamProtectionStatus,
    VideoPlaybackAbrRequest,
};
use crate::sabr::state::{
    fresh_state, lists_entries, request_of, request_url_of, sendable, SabrState, SabrView,
};
use crate::text::{opt_bytes, opt_text};

verus! {

/// A request for media, ready to be posted.
pub struct MediaCall {
    /// Where it goes.
    pub url: String,
    /// Header names and values, in order.
    pub headers: Vec<(&'static str, &'static str)>,
    /// The message that is the body.
    pub body: VideoPlaybackAbrRequest,
}

/// The headers of a request for media.
pub open spec fn media_headers(s: SabrView) -> Seq<(Seq<char>, Seq<char>)> {
    no_headers_view().push(("User-Agent"@, s.client_config.user_agent@)).push(
        ("Content-Type"@, "application/x-protobuf"@),
    ).push(("Accept"@, "application/vnd.yt-ump"@))
}

/// Whether `call` is the request that a state makes. The order of the contexts is left open.
pub open spec fn is_media_call(s: SabrView, call: MediaCall) -> bool {
    let contexts = call.body@.streamer_context.sabr_contexts;
    &&& call.url@ == request_url_of(s)
    &&& headers_view(call.headers@) == media_headers(s)
    &&& call.body@ == request_of(s, contexts)
    &&& lists_entries(contexts, sendable(s))
}

/// Composes the request for more media.
pub fn media_call(state: &SabrState) -> (call: MediaCall)
    ensures
        is_media_call(state@, call),
{
    let mut headers = no_headers();
    put_header(&mut headers, "User-Agent", state.client_config.user_agent);
    put_header(&mut headers, "Content-Type", "application/x-protobuf");
    put_header(&mut headers, "Accept", "application/vnd.yt-ump");
    MediaCall { url: state.request_url(), headers, body: state.build_request() }
}

/// One part of a response, its message decoded. Where a message could not be decoded, the text
/// says why.
pub enum Part {
    /// Announces a format.
    FormatInit(Result<FormatInitializationMetadata, String>),
    /// Announces a segment.
    MediaHeader(Result<MediaHeader, String>),
    /// Carries media.
    Media(Vec<u8>),
    /// Ends a segment.
    MediaEnd(Vec<u8>),
    /// Says what the server wants of the next request.
    NextRequestPolicy(Result<NextRequestPolicy, String>),
    /// Sends the client elsewhere.
    Redirect(Result<SabrRedirect, String>),
    /// Reports an error.
    Error(Result<ServerError, String>),
    /// Gives a context a value.
    ContextUpdate(Result<SabrContextUpdate, String>),
    /// Says whether the server wants the client to attest itself.
    StreamProtection(Result<StreamProtectionStatus, String>),
    /// Says which contexts are to be sent.
    ContextSendingPolicy(Result<SabrContextSendingPolicy, String>),
    /// Anything else.
    Other,
}

/// What happens while a request is answered.
pub enum CycleEvent {
    /// No answer came; the text says why.
    Failed(String),
    /// An answer came with a status outside 200 to 299; the text is the status.
    Refused(String),
    /// An answer came with a status of 200 to 299.
    Opened,
    /// The answer broke off; the text says why.
    Broken(String),
    /// A part of the answer has been read.
    Received(Part),
    /// The listener has taken the audio, or, where false, has gone.
    Delivered(bool),
    /// The answer has been read to its end.
    Ended,
}

/// What to do next while a request is answered.
pub enum CycleStep {
    /// Read on.
    Read,
    /// Hand this audio to the listener.
    Deliver(Bytes),
    /// The request is over: it failed, or says whether to go on.
    Over(Result<bool, SabrError>),
}

/// What a [`CycleStep`] says.
pub enum CycleStepView {
    /// Read on.
    Read,
    /// Hand this audio to the listener.
    Deliver(Seq<u8>),
    /// The request is over: it failed, or says whether to go on.
    Over(Result<bool, SabrErrorView>),
}

impl View for CycleStep {
    type V = CycleStepView;

    open spec fn view(&self) -> CycleStepView {
        match self {
            CycleStep::Read => CycleStepView::Read,
            CycleStep::Deliver(b) => CycleStepView::Deliver(bytes_of(*b)),
            CycleStep::Over(Ok(go_on)) => CycleStepView::Over(Ok(*go_on)),
            CycleStep::Over(Err(e)) => CycleStepView::Over(Err(e@)),
        }
    }
}

/// The state after a part.
pub open spec fn after_part(s: SabrView, part: Part) -> SabrView {
    match part {
        Part::FormatInit(Ok(m)) => on_format_init(s, m),
        Part::MediaHeader(Ok(m)) => on_media_header(s, m),
        Part::Media(data) => on_media(s, data@),
        Part::MediaEnd(data) => on_media_end(s, data@),
        Part::NextRequestPolicy(Ok(m)) => on_next_request_policy(s, m),
        Part::Redirect(Ok(m)) => on_redirect(s, m),
        Part::ContextUpdate(Ok(m)) => on_context_update(s, m),
        Part::ContextSendingPolicy(Ok(m)) => on_sending_policy(s, m),
        _ => s,
    }
}

/// Read on, or give up where the part has failed.
pub open spec fn read_unless(outcome: Result<(), SabrErrorView>) -> CycleStepView {
    match outcome {
        Ok(()) => CycleStepView::Read,
        Err(e) => CycleStepView::Over(Err(e)),
    }
}

/// What to do after a part: deliver the audio that it carries, give up where it reports an error or
/// could not be decoded, else read on.
pub open spec fn part_step(s: SabrView, part: Part) -> CycleStepView {
    match part {
        Part::FormatInit(d) => read_unless(decode_outcome(d)),
        Part::MediaHeader(d) => read_unless(decode_outcome(d)),
        Part::Media(data) => match media_payload(s, data@) {
            Some(audio) => CycleStepView::Deliver(audio),
            None => CycleStepView::Read,
        },
        Part::MediaEnd(_) => CycleStepView::Read,
        Part::NextRequestPolicy(d) => read_unless(decode_outcome(d)),
        Part::Redirect(d) => read_unless(decode_outcome(d)),
        Part::Error(d) => CycleStepView::Over(Err(server_failure(d))),
        Part::ContextUpdate(d) => read_unless(decode_outcome(d)),
        Part::StreamProtection(d) => read_unless(decode_outcome(d)),
        Part::ContextSendingPolicy(d) => read_unless(decode_outcome(d)),
        Part::Other => CycleStepView::Read,
    }
}

/// Whether all audio has been downloaded, by the count of segments or by time.
pub open spec fn is_complete(s: SabrView) -> bool {
    ||| s.audio_end_segment > 0 && s.audio_max_segment >= s.audio_end_segment
    ||| s.audio_total_end_ms > 0 && s.audio_downloaded_ms >= s.audio_total_end_ms
}

/// The state after an event.
pub open spec fn after_event(s: SabrView, event: CycleEvent) -> SabrView {
    match event {
        CycleEvent::Received(part) => after_part(s, part),
        CycleEvent::Ended => SabrView {
            request_number: (s.request_number + 1) as u32,
            done: s.done || is_complete(s),
            ..s
        },
        _ => s,
    }
}

/// What to do after an event.
pub open spec fn event_step(s: SabrView, event: CycleEvent) -> CycleStepView {
    match event {
        CycleEvent::Failed(why) => CycleStepView::Over(Err(SabrErrorView::Transport(why@))),
        CycleEvent::Refused(status) => CycleStepView::Over(
            Err(SabrErrorView::RequestStatus(status@)),
        ),
        CycleEvent::Opened => CycleStepView::Read,
        CycleEvent::Broken(why) => CycleStepView::Over(Err(SabrErrorView::Transport(why@))),
        CycleEvent::Received(part) => part_step(s, part),
        CycleEvent::Delivered(taken) => if taken {
            CycleStepView::Read
        } else {
            CycleStepView::Over(Ok(false))
        },
        CycleEvent::Ended => CycleStepView::Over(Ok(!is_complete(s))),
    }
}

/// Whether an event can be handled within the range of the numbers involved.
pub open spec fn event_fits(s: SabrView, event: CycleEvent) -> bool {
    match event {
        CycleEvent::Received(Part::MediaHeader(Ok(h))) => header_fits(h),
        CycleEvent::Received(Part::MediaEnd(data)) => end_fits(s, data@),
        CycleEvent::Ended => s.request_number < u32::MAX,
        _ => true,
    }
}

/// Whether an event can be handled.
pub fn check_event(state: &SabrState, event: &CycleEvent) -> (ok: bool)
    ensures
        ok == event_fits(state@, *event),
{
    match event {
        CycleEvent::Received(Part::MediaHeader(Ok(h))) => media_header_fits(h),
        CycleEvent::Received(Part::MediaEnd(data)) => media_end_fits(state, data.as_slice()),
        CycleEvent::Ended => state.request_number < u32::MAX,
        _ => true,
    }
}

/// What to do after a part whose handler ended so.
fn go_on(outcome: Result<(), SabrError>) -> (step: CycleStep)
    ensures
        step@ == read_unless(outcome_view(outcome)),
{
    match outcome {
        Ok(()) => CycleStep::Read,
        Err(e) => CycleStep::Over(Err(e)),
    }
}

/// Handles one part of a response.
pub fn handle_part(state: &mut SabrState, part: Part) -> (step: CycleStep)
    requires
        event_fits(old(state)@, CycleEvent::Received(part)),
    ensures
        final(state)@ == after_part(old(state)@, part),
        step@ == part_step(old(state)@, part),
{
    match part {
        Part::FormatInit(d) => go_on(handle_format_init_metadata(state, d)),
        Part::MediaHeader(d) => go_on(handle_media_header(state, d)),
        Part::Media(data) => match handle_media(state, data.as_slice()) {
            Some(audio) => CycleStep::Deliver(audio),
            None => CycleStep::Read,
        },
        Part::MediaEnd(data) => {
            handle_media_end(state, data.as_slice());
            CycleStep::Read
        },
        Part::NextRequestPolicy(d) => go_on(handle_next_request_policy(state, d)),
        Part::Redirect(d) => go_on(handle_sabr_redirect(state, d)),
        Part::Error(d) => go_on(handle_sabr_error(d)),
        Part::ContextUpdate(d) => go_on(handle_context_update(state, d)),
        Part::StreamProtection(d) => go_on(handle_stream_protection(d)),
        Part::ContextSendingPolicy(d) => go_on(handle_context_sending_policy(state, d)),
        Part::Other => CycleStep::Read,
    }
}

/// Takes one request and its answer a step further.
pub fn sabr_request_cycle(state: &mut SabrState, event: CycleEvent) -> (step: CycleStep)
    requires
        event_fits(old(state)@, event),
    ensures
        final(state)@ == after_event(old(state)@, event),
        step@ == event_step(old(state)@, event),
{
    match event {
        CycleEvent::Failed(why) => CycleStep::Over(Err(SabrError::Transport(why))),
        CycleEvent::Refused(status) => CycleStep::Over(Err(SabrError::RequestStatus(status))),
        CycleEvent::Opened => CycleStep::Read,
        CycleEvent::Broken(why) => CycleStep::Over(Err(SabrError::Transport(why))),
        CycleEvent::Received(part) => handle_part(state, part),
        CycleEvent::Delivered(taken) => if taken {
            CycleStep::Read
        } else {
            CycleStep::Over(Ok(false))
        },
        CycleEvent::Ended => {
            state.request_number += 1;
            if state.audio_end_segment > 0 && state.audio_max_segment as i64
                >= state.audio_end_segment {
                state.done = true;
                return CycleStep::Over(Ok(false));
            }
            if state.audio_total_end_ms > 0 && state.audio_downloaded_ms
                >= state.audio_total_end_ms {
                state.done = true;
                return CycleStep::Over(Ok(false));
            }
            CycleStep::Over(Ok(true))
        },
    }
}

/// How many failures in a row are followed by another try.
pub const MAX_RETRIES: u32 = 5;

/// How many requests in a row may bring no progress.
pub const MAX_STALLS: u32 = 30;

/// A streaming session.
pub struct Session {
    /// What is known of the stream.
    pub state: SabrState,
    /// How far the audio had been downloaded when the current request was made.
    pub prev_progress: i64,
    /// How many requests in a row have failed.
    pub consecutive_errors: u32,
    /// How many requests in a row have brought no progress.
    pub stall_count: u32,
}

/// What a [`Session`] says.
pub struct SessionView {
    /// What is known of the stream.
    pub state: SabrView,
    /// How far the audio had been downloaded when the current request was made.
    pub prev_progress: i64,
    /// How many requests in a row have failed.
    pub consecutive_errors: u32,
    /// How many requests in a row have brought no progress.
    pub stall_count: u32,
}

impl View for Session {
    type V = SessionView;

    open spec fn view(&self) -> SessionView {
        SessionView {
            state: self.state@,
            prev_progress: self.prev_progress,
            consecutive_errors: self.consecutive_errors,
            stall_count: self.stall_count,
        }
    }
}

/// Whether a session is still within its limits.
pub open spec fn within_limits(s: SessionView) -> bool {
    s.consecutive_errors <= MAX_RETRIES && s.stall_count <= MAX_STALLS
}

/// What a session does after a request.
pub enum Next {
    /// All is done, or nothing more can be had.
    Stop,
    /// The session has failed.
    Fail(SabrError),
    /// Make another request after this many milliseconds.
    Again(u64),
}

/// What a [`Next`] says.
pub enum NextView {
    /// All is done, or nothing more can be had.
    Stop,
    /// The session has failed.
    Fail(SabrErrorView),
    /// Make another request after this many milliseconds.
    Again(u64),
}

impl View for Next {
    type V = NextView;

    open spec fn view(&self) -> NextView {
        match self {
            Next::Stop => NextView::Stop,
            Next::Fail(e) => NextView::Fail(e@),
            Next::Again(ms) => NextView::Again(*ms),
        }
    }
}

/// How long to wait after the n-th failure in a row: half a second, and twice as long each time.
pub open spec fn retry_delay(n: nat) -> nat
    decreases n,
{
    if n <= 1 {
        500
    } else {
        2 * retry_delay((n - 1) as nat)
    }
}

/// Whether a request that went well has brought nothing new.
pub open spec fn is_stalled(s: SessionView) -> bool {
    s.state.audio_downloaded_ms == s.prev_progress && s.prev_progress > 0
}

/// The session after a request.
pub open spec fn after_cycle(s: SessionView, outcome: Result<bool, SabrErrorView>) -> SessionView {
    match outcome {
        Ok(go_on) => SessionView {
            consecutive_errors: 0,
            stall_count: if !go_on || s.state.done {
                s.stall_count
            } else if is_stalled(s) {
                (s.stall_count + 1) as u32
            } else {
                0
            },
            ..s
        },
        Err(_) => SessionView { consecutive_errors: (s.consecutive_errors + 1) as u32, ..s },
    }
}

/// What the session does after a request.
pub open spec fn cycle_next(s: SessionView, outcome: Result<bool, SabrErrorView>) -> NextView {
    match outcome {
        Ok(go_on) => if !go_on || s.state.done {
            NextView::Stop
        } else if is_stalled(s) && s.stall_count >= MAX_STALLS {
            NextView::Stop
        } else {
            NextView::Again(s.state.backoff_time_ms as u64)
        },
        Err(e) => if s.consecutive_errors >= MAX_RETRIES {
            NextView::Fail(SabrErrorView::RetriesExhausted(error_text(e)))
        } else {
            NextView::Again(retry_delay((s.consecutive_errors + 1) as nat) as u64)
        },
    }
}

/// What the outcome of a request says.
pub open spec fn cycle_outcome_view(outcome: Result<bool, SabrError>) -> Result<
    bool,
    SabrErrorView,
> {
    match outcome {
        Ok(b) => Ok(b),
        Err(e) => Err(e@),
    }
}

/// The delay after the n-th failure in a row.
fn delay_ms(n: u32) -> (ms: u64)
    requires
        1 <= n <= MAX_RETRIES,
    ensures
        ms == retry_delay(n as nat),
{
    reveal_with_fuel(retry_delay, 5);
    if n == 1 {
        500
    } else if n == 2 {
        1_000
    } else if n == 3 {
        2_000
    } else if n == 4 {
        4_000
    } else {
        8_000
    }
}

/// Decides what follows a request.
///
/// Failures are retried with growing delays. A request that brings no progress counts toward
/// giving up, and the server's own delay is kept.
pub fn sabr_loop(session: &mut Session, outcome: Result<bool, SabrError>) -> (next: Next)
    requires
        within_limits(old(session)@),
    ensures
        final(session)@ == after_cycle(old(session)@, cycle_outcome_view(outcome)),
        next@ == cycle_next(old(session)@, cycle_outcome_view(outcome)),
        next is Again ==> within_limits(final(session)@),
{
    match outcome {
        Ok(should_continue) => {
            session.consecutive_errors = 0;
            if !should_continue || session.state.done {
                return Next::Stop;
            }
        },
        Err(e) => {
            session.consecutive_errors += 1;
            if session.consecutive_errors > MAX_RETRIES {
                return Next::Fail(SabrError::RetriesExhausted(e.describe()));
            }
            return Next::Again(delay_ms(session.consecutive_errors));
        },
    }
    if session.state.audio_downloaded_ms == session.prev_progress && session.prev_progress > 0 {
        session.stall_count += 1;
        if session.stall_count > MAX_STALLS {
            return Next::Stop;
        }
    } else {
        session.stall_count = 0;
    }
    Next::Again(session.state.backoff_time_ms as u64)
}

/// The session when a request begins, or when the listener has gone.
pub open spec fn begun(s: SessionView, closed: bool) -> SessionView {
    if closed {
        s
    } else {
        SessionView { prev_progress: s.state.audio_downloaded_ms, ..s }
    }
}

/// Begins a request, unless the listener has gone.
pub fn begin_cycle(session: &mut Session, closed: bool) -> (call: Option<MediaCall>)
    ensures
        call is None <==> closed,
        call matches Some(c) ==> is_media_call(old(session)@.state, c),
        final(session)@ == begun(old(session)@, closed),
{
    if closed {
        return None;
    }
    session.prev_progress = session.state.audio_downloaded_ms;
    Some(media_call(&session.state))
}

/// Metadata about the audio stream being served.
pub struct SabrStreamInfo {
    /// The track's title.
    pub title: String,
    /// Its length.
    pub duration_secs: u64,
    /// The audio's media type.
    pub mime_type: String,
}

/// What a [`SabrStreamInfo`] says.
pub struct SabrStreamInfoView {
    /// The track's title.
    pub title: Seq<char>,
    /// Its length.
    pub duration_secs: u64,
    /// The audio's media type.
    pub mime_type: Seq<char>,
}

impl View for SabrStreamInfo {
    type V = SabrStreamInfoView;

    open spec fn view(&self) -> SabrStreamInfoView {
        SabrStreamInfoView {
            title: self.title@,
            duration_secs: self.duration_secs,
            mime_type: self.mime_type@,
        }
    }
}

/// The bytes of a proof-of-origin token; none where it is no Base64.
pub open spec fn token_bytes(token: Option<Seq<char>>) -> Option<Seq<u8>> {
    match token {
        Some(t) => standard_bytes(t),
        None => None,
    }
}

/// Decodes a proof-of-origin token.
pub fn decode_po_token(token: &Option<String>) -> (bytes: Option<Vec<u8>>)
    ensures
        opt_bytes(bytes) == token_bytes(opt_text(*token)),
{
    match token {
        Some(t) => match decode_standard(t.as_str()) {
            Ok(bytes) => Some(bytes),
            Err(_) => None,
        },
        None => None,
    }
}

/// The session in which a stream begins.
pub open spec fn fresh_session(
    player: PlayerDataView,
    audio: AdaptiveFormatView,
    video: AdaptiveFormatView,
    with_ctt: bool,
    po_token: Option<Seq<u8>>,
) -> SessionView {
    SessionView {
        state: SabrView {
            po_token,
            ..fresh_state(
                player.server_abr_streaming_url,
                audio,
                video,
                player.ustreamer_config,
                if with_ctt {
                    web_remix_client_spec()
                } else {
                    ios_client_spec()
                },
            )
        },
        prev_progress: 0,
        consecutive_errors: 0,
        stall_count: 0,
    }
}

/// What is said of a stream.
pub open spec fn stream_info(
    player: PlayerDataView,
    audio: AdaptiveFormatView,
) -> SabrStreamInfoView {
    SabrStreamInfoView {
        title: player.title,
        duration_secs: player.duration_secs,
        mime_type: audio.mime_type,
    }
}

/// Whether `res` is how a stream begins.
///
/// Without an audio format there is nothing to stream, and without a video format the server
/// cannot be asked. The session presents itself as the music web client where there is a
/// credential transfer token, as the iOS client where there is none.
pub open spec fn is_stream_start(
    player: PlayerDataView,
    with_ctt: bool,
    po_token: Option<Seq<u8>>,
    res: Result<(SabrStreamInfo, Session), SabrError>,
) -> bool {
    let formats = player.formats;
    match res {
        Ok((info, session)) => exists|a: int, v: int| #[trigger]
            is_audio_choice(formats, a) && #[trigger] is_video_choice(formats, v) && info@
                == stream_info(player, formats[a]) && session@ == fresh_session(
                player,
                formats[a],
                formats[v],
                with_ctt,
                po_token,
            ),
        Err(SabrError::NoAudioFormat) => forall|i: int|
            0 <= i < formats.len() ==> !is_audio(#[trigger] formats[i]),
        Err(SabrError::NoVideoFormat) => {
            &&& exists|i: int| 0 <= i < formats.len() && is_audio(#[trigger] formats[i])
            &&& forall|i: int| 0 <= i < formats.len() ==> !is_video(#[trigger] formats[i])
        },
        Err(_) => false,
    }
}

/// Begins to stream a track's audio, given the bytes of the proof-of-origin token.
pub fn open_stream(
    player: PlayerData,
    with_ctt: bool,
    po_token: Option<Vec<u8>>,
) -> (res: Result<(SabrStreamInfo, Session), SabrError>)
    ensures
        is_stream_start(player@, with_ctt, opt_bytes(po_token), res),
{
    let ghost all = formats_view(player.formats@);
    let audio = match choose_audio_format(player.formats.as_slice()) {
        Some(f) => f.clone(),
        None => return Err(SabrError::NoAudioFormat),
    };
    let ghost a = choose|a: int| #[trigger] is_audio_choice(all, a) && audio@ == all[a];
    assert(is_audio_choice(all, a) && audio@ == all[a]);
    let video = match choose_video_format(player.formats.as_slice()) {
        Some(f) => f.clone(),
        None => return Err(SabrError::NoVideoFormat),
    };
    let ghost v = choose|v: int| #[trigger] is_video_choice(all, v) && video@ == all[v];
    assert(is_video_choice(all, v) && video@ == all[v]);
    let client = if with_ctt {
        web_remix_client()
    } else {
        ios_client()
    };
    let info = SabrStreamInfo {
        title: player.title,
        duration_secs: player.duration_secs,
        mime_type: audio.mime_type.clone(),
    };
    let mut state = SabrState::new(
        player.server_abr_streaming_url,
        &audio,
        &video,
        player.ustreamer_config,
        client,
    );
    state.po_token = po_token;
    Ok((info, Session { state, prev_progress: 0, consecutive_errors: 0, stall_count: 0 }))
}

/// Begins to stream a track's audio.
pub fn stream_audio(
    player: PlayerData,
    ctt: Option<&str>,
    po_token: Option<String>,
) -> (res: Result<(SabrStreamInfo, Session), SabrError>)
    ensures
        is_stream_start(player@, ctt is Some, token_bytes(opt_text(po_token)), res),
{
    let token = decode_po_token(&po_token);
    open_stream(player, ctt.is_some(), token)
}

} // verus!
