//! What each part of a response does to a session, and what it leaves alone, for every message.
use vstd::prelude::*;
use crate::sabr::error::SabrErrorView;
use crate::sabr::parts::{
    end_fits, header_fits, media_payload, on_context_update, on_format_init, on_media,
    on_media_end, on_media_header, on_next_request_policy, on_redirect, on_sending_policy,
    server_failure,
};
use crate::sabr::proto::{
    FormatInitializationMetadata, MediaHeader, NextRequestPolicy, SabrContextSendingPolicy,
    SabrContextUpdate, SabrRedirect, ServerError, StreamProtectionStatus, TimeRange,
};
use crate::sabr::session::{
    after_event, after_part, event_fits, event_step, part_step, CycleEvent, CycleStepView, Part,
};
use crate::sabr::state::{HeaderInfo, SabrView};

verus! {

/// The value in `o`, or `other` where there is none.
pub open spec fn given_or<T>(o: Option<T>, other: T) -> T {
    match o {
        Some(x) => x,
        None => other,
    }
}

/// Announcing the chosen audio format makes its end known and changes nothing else; a part of the
/// end that is not given counts as unknown.
pub proof fn law_announced_audio(s: SabrView, m: FormatInitializationMetadata)
    requires
        m.format_id is Some && given_or(m.format_id->0.itag, 0) == s.audio_itag || m.format_id is None
            && s.audio_itag == 0,
    ensures
        ({
            let t = on_format_init(s, m);
            &&& t.audio_initialized
            &&& t.audio_total_end_ms == given_or(m.end_time_ms, 0)
            &&& t.audio_end_segment == given_or(m.end_segment_number, 0)
            &&& s == (SabrView {
                audio_initialized: s.audio_initialized,
                audio_total_end_ms: s.audio_total_end_ms,
                audio_end_segment: s.audio_end_segment,
                ..t
            })
        }),
{
}

/// Announcing any other format changes nothing.
pub proof fn law_announced_other_format(s: SabrView, m: FormatInitializationMetadata)
    requires
        m.format_id is Some ==> given_or(m.format_id->0.itag, 0) != s.audio_itag,
        m.format_id is None ==> s.audio_itag != 0,
    ensures
        on_format_init(s, m) == s,
{
}

/// Whether `ms` is `ticks` thousandths of seconds at `scale` ticks per second, rounded toward zero.
pub open spec fn is_rounded(ms: int, ticks: int, scale: int) -> bool {
    if ticks >= 0 {
        ms >= 0 && ms * scale <= ticks * 1000 < (ms + 1) * scale
    } else {
        ms <= 0 && (ms - 1) * scale < ticks * 1000 <= ms * scale
    }
}

/// Whether `ms` is the time that `ticks` of a range stand for: a thousand ticks make a second where
/// the range does not say, and a scale that is not positive makes no time at all.
pub open spec fn is_time_of(ms: int, ticks: Option<i64>, range: TimeRange) -> bool {
    let scale = given_or(range.timescale, 1000);
    if scale > 0 {
        is_rounded(ms, given_or(ticks, 0) as int, scale as int)
    } else {
        ms == 0
    }
}

/// Whether ticks of a range can be turned into a 64-bit number of milliseconds.
pub open spec fn ticks_in_range(ticks: Option<i64>, range: TimeRange) -> bool {
    given_or(range.timescale, 1000) > 0 ==> -9_223_372_036_854_775 <= given_or(ticks, 0)
        <= 9_223_372_036_854_775
}

/// A header can be taken exactly where each time that it leaves to ticks can be computed.
pub proof fn law_header_can_be_taken(h: MediaHeader)
    ensures
        header_fits(h) <==> {
            &&& h.start_ms is None && h.time_range is Some ==> ticks_in_range(
                h.time_range->0.start_ticks,
                h.time_range->0,
            )
            &&& h.duration_ms is None && h.time_range is Some ==> ticks_in_range(
                h.time_range->0.duration_ticks,
                h.time_range->0,
            )
        },
{
}

/// The quotient of a number and a positive one, rounded down.
proof fn lemma_quotient(a: int, b: int)
    requires
        a >= 0,
        b > 0,
    ensures
        0 <= a / b <= a,
        (a / b) * b <= a < (a / b + 1) * b,
{
    vstd::arithmetic::div_mod::lemma_fundamental_div_mod(a, b);
    vstd::arithmetic::div_mod::lemma_mod_bound(a, b);
    assert((a / b) * b == b * (a / b)) by (nonlinear_arith);
    assert((a / b + 1) * b == b * (a / b) + b) by (nonlinear_arith);
    assert(0 <= a / b <= a) by (nonlinear_arith)
        requires
            a >= 0,
            b > 0,
    ;
}

/// The time that ticks stand for.
proof fn lemma_time(ticks: Option<i64>, range: TimeRange, ms: int)
    requires
        ticks_in_range(ticks, range),
        ms == crate::sabr::parts::ticks_to_ms(ticks, range.timescale),
    ensures
        is_time_of(ms, ticks, range),
        i64::MIN <= ms <= i64::MAX,
{
    let scale = given_or(range.timescale, 1000) as int;
    let t = given_or(ticks, 0) as int;
    if scale > 0 {
        if t >= 0 {
            lemma_quotient(t * 1000, scale);
        } else {
            let q = (-(t * 1000)) / scale;
            lemma_quotient(-(t * 1000), scale);
            assert((-q - 1) * scale == -((q + 1) * scale)) by (nonlinear_arith);
            assert((-q) * scale == -(q * scale)) by (nonlinear_arith);
        }
    }
}

/// A header is kept under its own number, with all that it gives: a time in milliseconds as it is,
/// else the time that the ticks stand for. It belongs to the audio exactly where its format is the
/// chosen one. All other headers, and everything else, stay.
pub proof fn law_header_is_kept(s: SabrView, h: MediaHeader, other: u32)
    requires
        header_fits(h),
    ensures
        ({
            let t = on_media_header(s, h);
            let id = given_or(h.header_id, 0);
            let info = t.header_map[id];
            &&& t.header_map.contains_key(id)
            &&& info.itag == given_or(h.itag, 0)
            &&& info.is_audio <==> given_or(h.itag, 0) == s.audio_itag
            &&& info.is_init_seg == given_or(h.is_init_seg, false)
            &&& info.sequence_number == given_or(h.sequence_number, 0)
            &&& h.start_ms is Some ==> info.start_ms == h.start_ms->0
            &&& h.duration_ms is Some ==> info.duration_ms == h.duration_ms->0
            &&& h.start_ms is None && h.time_range is None ==> info.start_ms == 0
            &&& h.duration_ms is None && h.time_range is None ==> info.duration_ms == 0
            &&& h.start_ms is None && h.time_range is Some ==> is_time_of(
                info.start_ms as int,
                h.time_range->0.start_ticks,
                h.time_range->0,
            )
            &&& h.duration_ms is None && h.time_range is Some ==> is_time_of(
                info.duration_ms as int,
                h.time_range->0.duration_ticks,
                h.time_range->0,
            )
            &&& other != id ==> {
                &&& t.header_map.contains_key(other) == s.header_map.contains_key(other)
                &&& s.header_map.contains_key(other) ==> t.header_map[other] == s.header_map[other]
            }
            &&& s == (SabrView { header_map: s.header_map, ..t })
        }),
{
    law_header_can_be_taken(h);
    if let Some(r) = h.time_range {
        if h.start_ms is None {
            lemma_time(
                r.start_ticks,
                r,
                crate::sabr::parts::ticks_to_ms(r.start_ticks, r.timescale),
            );
        }
        if h.duration_ms is None {
            lemma_time(
                r.duration_ticks,
                r,
                crate::sabr::parts::ticks_to_ms(r.duration_ticks, r.timescale),
            );
        }
    }
}

/// What follows the first byte of a media part is the audio exactly where that byte names a header
/// of the chosen format and something follows.
pub proof fn law_media_of_announced_audio(s: SabrView, id: u8, payload: Seq<u8>)
    ensures
        media_payload(s, Seq::empty()) is None,
        s.header_map.contains_key(id as u32) && s.header_map[id as u32].is_audio && payload.len() > 0
            ==> media_payload(s, seq![id] + payload) == Some(payload),
        !(s.header_map.contains_key(id as u32) && s.header_map[id as u32].is_audio)
            || payload.len() == 0 ==> media_payload(s, seq![id] + payload) is None,
{
    let data = seq![id] + payload;
    assert(data[0] == id);
    assert(data.skip(1) =~= payload);
}

/// Media change nothing but the note that audio headers have been passed on, which is set exactly
/// by audio of a segment that holds such headers.
pub proof fn law_media_change_little(s: SabrView, data: Seq<u8>)
    ensures
        on_media(s, data) == s || on_media(s, data) == (SabrView { audio_init_sent: true, ..s }),
        on_media(s, data).audio_init_sent <==> s.audio_init_sent || (media_payload(s, data) is Some
            && s.header_map[data[0] as u32].is_init_seg),
{
}

/// The end of an audio segment moves the progress to the greater of what it was and what the segment
/// reaches, and changes nothing else.
pub proof fn law_ended_segment_moves_progress(s: SabrView, data: Seq<u8>, info: HeaderInfo)
    requires
        data.len() > 0,
        s.header_map.contains_key(data[0] as u32),
        s.header_map[data[0] as u32] == info,
        info.is_audio,
        !info.is_init_seg,
    ensures
        end_fits(s, data) <==> i64::MIN <= info.start_ms + info.duration_ms <= i64::MAX,
        end_fits(s, data) ==> {
            let t = on_media_end(s, data);
            let end = info.start_ms + info.duration_ms;
            &&& t.audio_max_segment >= s.audio_max_segment
            &&& t.audio_max_segment >= info.sequence_number
            &&& t.audio_max_segment == s.audio_max_segment || t.audio_max_segment
                == info.sequence_number
            &&& t.audio_downloaded_ms >= s.audio_downloaded_ms
            &&& t.audio_downloaded_ms >= end
            &&& t.audio_downloaded_ms == s.audio_downloaded_ms || t.audio_downloaded_ms == end
            &&& s == (SabrView {
                audio_max_segment: s.audio_max_segment,
                audio_downloaded_ms: s.audio_downloaded_ms,
                ..t
            })
        },
{
}

/// The end of anything else changes nothing.
pub proof fn law_other_ends_change_nothing(s: SabrView, data: Seq<u8>)
    requires
        data.len() > 0 && s.header_map.contains_key(data[0] as u32) ==> !s.header_map[data[0] as u32].is_audio
            || s.header_map[data[0] as u32].is_init_seg,
    ensures
        end_fits(s, data),
        on_media_end(s, data) == s,
{
}

/// The delay is the one that the server gave last, none where it gave none; the cookie stays until
/// the server gives another; nothing else changes.
pub proof fn law_next_request_policy(s: SabrView, m: NextRequestPolicy)
    ensures
        ({
            let t = on_next_request_policy(s, m);
            &&& m.backoff_time_ms is None ==> t.backoff_time_ms == 0
            &&& m.backoff_time_ms is Some && m.backoff_time_ms->0 >= 0 ==> t.backoff_time_ms
                == m.backoff_time_ms->0
            &&& m.backoff_time_ms is Some && m.backoff_time_ms->0 < 0 ==> t.backoff_time_ms
                == m.backoff_time_ms->0 + 0x1_0000_0000
            &&& m.playback_cookie is Some ==> t.playback_cookie == Some(m.playback_cookie->0@)
            &&& m.playback_cookie is None ==> t.playback_cookie == s.playback_cookie
            &&& s == (SabrView {
                backoff_time_ms: s.backoff_time_ms,
                playback_cookie: s.playback_cookie,
                ..t
            })
        }),
{
}

/// A redirect changes the server's URL where it gives one, and nothing else.
pub proof fn law_redirect_changes_the_url_only(s: SabrView, m: SabrRedirect)
    ensures
        m.url is Some ==> on_redirect(s, m) == (SabrView { server_url: m.url->0@, ..s }),
        m.url is None ==> on_redirect(s, m) == s,
{
}

/// A server error is told with its kind and its code.
pub proof fn law_server_error_is_told(m: ServerError)
    ensures
        server_failure(Ok(m)) is Server,
        m.kind is Some ==> server_failure(Ok(m))->kind == m.kind->0@,
        m.kind is None ==> server_failure(Ok(m))->kind == "unknown"@,
        server_failure(Ok(m))->code == given_or(m.code, 0),
{
}

/// A context gets its value where one is given, and is marked to be sent where the server says so;
/// no other context, no other mark and nothing else changes.
pub proof fn law_context_update(s: SabrView, m: SabrContextUpdate, other: i32)
    ensures
        ({
            let t = on_context_update(s, m);
            let kind = given_or(m.context_type, 0);
            &&& m.value is Some ==> t.sabr_contexts.contains_key(kind) && t.sabr_contexts[kind]
                == m.value->0@
            &&& m.value is None ==> t.sabr_contexts == s.sabr_contexts
            &&& t.sabr_contexts_send.contains(kind) <==> s.sabr_contexts_send.contains(kind)
                || given_or(m.send_by_default, false)
            &&& other != kind ==> {
                &&& t.sabr_contexts.contains_key(other) == s.sabr_contexts.contains_key(other)
                &&& s.sabr_contexts.contains_key(other) ==> t.sabr_contexts[other]
                    == s.sabr_contexts[other]
                &&& t.sabr_contexts_send.contains(other) == s.sabr_contexts_send.contains(other)
            }
            &&& s == (SabrView {
                sabr_contexts: s.sabr_contexts,
                sabr_contexts_send: s.sabr_contexts_send,
                ..t
            })
        }),
{
}

/// After a sending policy a type is to be sent where it was or has been started, and has not been
/// stopped; it is discarded where it was or now has been; and its value is kept, unchanged, unless
/// it now has been discarded. Nothing else changes.
pub proof fn law_sending_policy(s: SabrView, m: SabrContextSendingPolicy, kind: i32)
    ensures
        ({
            let t = on_sending_policy(s, m);
            &&& t.sabr_contexts_send.contains(kind) <==> (s.sabr_contexts_send.contains(kind)
                || m.start_policy@.contains(kind)) && !m.stop_policy@.contains(kind)
            &&& t.sabr_contexts_discard.contains(kind) <==> s.sabr_contexts_discard.contains(kind)
                || m.discard_policy@.contains(kind)
            &&& t.sabr_contexts.contains_key(kind) <==> s.sabr_contexts.contains_key(kind)
                && !m.discard_policy@.contains(kind)
            &&& t.sabr_contexts.contains_key(kind) ==> t.sabr_contexts[kind]
                == s.sabr_contexts[kind]
            &&& s == (SabrView {
                sabr_contexts: s.sabr_contexts,
                sabr_contexts_send: s.sabr_contexts_send,
                sabr_contexts_discard: s.sabr_contexts_discard,
                ..t
            })
        }),
{
}

/// A part that could not be decoded ends the request, with the reason, and changes nothing.
pub proof fn law_undecoded_part_ends_the_request(s: SabrView, why: String, part: Part)
    requires
        part == Part::FormatInit(Err(why)) || part == Part::MediaHeader(Err(why)) || part
            == Part::NextRequestPolicy(Err(why)) || part == Part::Redirect(Err(why)) || part
            == Part::Error(Err(why)) || part == Part::ContextUpdate(Err(why)) || part
            == Part::StreamProtection(Err(why)) || part == Part::ContextSendingPolicy(Err(why)),
    ensures
        event_fits(s, CycleEvent::Received(part)),
        event_step(s, CycleEvent::Received(part)) == CycleStepView::Over(
            Err(SabrErrorView::Decode(why@)),
        ),
        after_event(s, CycleEvent::Received(part)) == s,
{
}

/// A decoded part does to the session what its message says, and is followed by more reading; only
/// an error of the server ends the request.
pub proof fn law_decoded_parts_take_effect(
    s: SabrView,
    a: FormatInitializationMetadata,
    b: MediaHeader,
    c: NextRequestPolicy,
    d: SabrRedirect,
    e: ServerError,
    f: SabrContextUpdate,
    g: StreamProtectionStatus,
    h: SabrContextSendingPolicy,
)
    ensures
        after_part(s, Part::FormatInit(Ok(a))) == on_format_init(s, a),
        after_part(s, Part::MediaHeader(Ok(b))) == on_media_header(s, b),
        after_part(s, Part::NextRequestPolicy(Ok(c))) == on_next_request_policy(s, c),
        after_part(s, Part::Redirect(Ok(d))) == on_redirect(s, d),
        after_part(s, Part::Error(Ok(e))) == s,
        after_part(s, Part::ContextUpdate(Ok(f))) == on_context_update(s, f),
        after_part(s, Part::StreamProtection(Ok(g))) == s,
        after_part(s, Part::ContextSendingPolicy(Ok(h))) == on_sending_policy(s, h),
        after_part(s, Part::Other) == s,
        part_step(s, Part::FormatInit(Ok(a))) == CycleStepView::Read,
        part_step(s, Part::MediaHeader(Ok(b))) == CycleStepView::Read,
        part_step(s, Part::NextRequestPolicy(Ok(c))) == CycleStepView::Read,
        part_step(s, Part::Redirect(Ok(d))) == CycleStepView::Read,
        part_step(s, Part::Error(Ok(e))) == CycleStepView::Over(Err(server_failure(Ok(e)))),
        part_step(s, Part::ContextUpdate(Ok(f))) == CycleStepView::Read,
        part_step(s, Part::StreamProtection(Ok(g))) == CycleStepView::Read,
        part_step(s, Part::ContextSendingPolicy(Ok(h))) == CycleStepView::Read,
        part_step(s, Part::Other) == CycleStepView::Read,
{
}

/// Media are delivered where they are audio, and are followed by more reading where they are not;
/// the end of a segment is followed by more reading.
pub proof fn law_media_take_effect(s: SabrView, data: Vec<u8>)
    ensures
        after_part(s, Part::Media(data)) == on_media(s, data@),
        after_part(s, Part::MediaEnd(data)) == on_media_end(s, data@),
        media_payload(s, data@) matches Some(audio) ==> part_step(s, Part::Media(data))
            == CycleStepView::Deliver(audio),
        media_payload(s, data@) is None ==> part_step(s, Part::Media(data)) == CycleStepView::Read,
        part_step(s, Part::MediaEnd(data)) == CycleStepView::Read,
        event_fits(s, CycleEvent::Received(Part::MediaEnd(data))) <==> end_fits(s, data@),
{
}

/// A request that fails, is refused or breaks off is over, with the reason; one that is answered is
/// read; delivered audio is followed by more reading. None of these changes the session.
pub proof fn law_requests_end_as_they_do(s: SabrView, text: String, part: Part)
    ensures
        event_step(s, CycleEvent::Failed(text)) == CycleStepView::Over(
            Err(SabrErrorView::Transport(text@)),
        ),
        event_step(s, CycleEvent::Broken(text)) == CycleStepView::Over(
            Err(SabrErrorView::Transport(text@)),
        ),
        event_step(s, CycleEvent::Refused(text)) == CycleStepView::Over(
            Err(SabrErrorView::RequestStatus(text@)),
        ),
        event_step(s, CycleEvent::Opened) == CycleStepView::Read,
        event_step(s, CycleEvent::Delivered(true)) == CycleStepView::Read,
        event_step(s, CycleEvent::Delivered(false)) == CycleStepView::Over(Ok(false)),
        event_step(s, CycleEvent::Received(part)) == part_step(s, part),
        after_event(s, CycleEvent::Failed(text)) == s,
        after_event(s, CycleEvent::Broken(text)) == s,
        after_event(s, CycleEvent::Refused(text)) == s,
        after_event(s, CycleEvent::Opened) == s,
        after_event(s, CycleEvent::Delivered(true)) == s,
        after_event(s, CycleEvent::Delivered(false)) == s,
        after_event(s, CycleEvent::Received(part)) == after_part(s, part),
{
}

/// A header can be taken where its times can be computed, an end of a segment where its time can, an
/// end of an answer where it can be counted, and all else always.
pub proof fn law_events_that_can_be_taken(s: SabrView, event: CycleEvent)
    ensures
        match event {
            CycleEvent::Received(Part::MediaHeader(Ok(h))) => event_fits(s, event) <==> header_fits(
                h,
            ),
            CycleEvent::Received(Part::MediaEnd(data)) => event_fits(s, event) <==> end_fits(
                s,
                data@,
            ),
            CycleEvent::Ended => event_fits(s, event) <==> s.request_number < 0xffff_ffff,
            _ => event_fits(s, event),
        },
{
}

/// As long as neither the last segment nor the end of the audio has been reached, as far as they are
/// known, an answer that has been read to its end is followed by another request: the session only
/// counts it.
pub proof fn law_unfinished_stream_goes_on(s: SabrView)
    requires
        s.audio_end_segment <= 0 || s.audio_max_segment < s.audio_end_segment,
        s.audio_total_end_ms <= 0 || s.audio_downloaded_ms < s.audio_total_end_ms,
        s.request_number < u32::MAX,
    ensures
        event_fits(s, CycleEvent::Ended),
        event_step(s, CycleEvent::Ended) == CycleStepView::Over(Ok(true)),
        after_event(s, CycleEvent::Ended) == (SabrView {
            request_number: (s.request_number + 1) as u32,
            ..s
        }),
{
}

/// Once the last segment or the end of the audio has been reached, it is not: the session counts the
/// answer and is done.
pub proof fn law_finished_stream_is_done(s: SabrView)
    requires
        (s.audio_end_segment > 0 && s.audio_max_segment >= s.audio_end_segment) || (
        s.audio_total_end_ms > 0 && s.audio_downloaded_ms >= s.audio_total_end_ms),
        s.request_number < u32::MAX,
    ensures
        event_fits(s, CycleEvent::Ended),
        event_step(s, CycleEvent::Ended) == CycleStepView::Over(Ok(false)),
        after_event(s, CycleEvent::Ended) == (SabrView {
            request_number: (s.request_number + 1) as u32,
            done: true,
            ..s
        }),
{
}

} // verus!
