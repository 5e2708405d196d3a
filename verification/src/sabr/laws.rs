//! What holds of a session whatever the server sends.
use vstd::prelude::*;
use crate::sabr::error::{error_text, SabrErrorView};
use crate::sabr::parts::{
    completed, duration_of, end_fits, header_fits, header_info, media_payload,
    on_context_update, on_media, on_media_end, on_media_header, on_next_request_policy,
    on_redirect, or_false, or_zero_i32, or_zero_i64, or_zero_u32, referred, start_of,
    ticks_fit, ticks_to_ms,
};
use crate::sabr::proto::{MediaHeader, NextRequestPolicy, SabrContextUpdate, SabrRedirect};
use crate::sabr::session::{
    after_cycle, after_event, cycle_next, event_fits, event_step, is_complete, is_stalled,
    retry_delay, CycleEvent, CycleStepView, NextView, Part, SessionView,
};
use crate::sabr::state::{
    audio_range, lists_entries, player_time, request_of, request_url_of, sendable, video_range,
    SabrView,
};
use crate::text::has_prefix;

verus! {

/// The state after a run of events.
pub open spec fn after_events(s: SabrView, events: Seq<CycleEvent>) -> SabrView
    decreases events.len(),
{
    if events.len() == 0 {
        s
    } else {
        after_event(after_events(s, events.drop_last()), events.last())
    }
}

/// Whether each event of a run can be handled when it comes.
pub open spec fn events_fit(s: SabrView, events: Seq<CycleEvent>) -> bool
    decreases events.len(),
{
    events.len() == 0 || (events_fit(s, events.drop_last()) && event_fits(
        after_events(s, events.drop_last()),
        events.last(),
    ))
}

/// Whatever happens, the progress never moves back: neither the highest complete segment nor the
/// downloaded time ever falls.
pub proof fn law_progress_never_moves_back(s: SabrView, events: Seq<CycleEvent>)
    requires
        events_fit(s, events),
    ensures
        after_events(s, events).audio_max_segment >= s.audio_max_segment,
        after_events(s, events).audio_downloaded_ms >= s.audio_downloaded_ms,
    decreases events.len(),
{
    if events.len() > 0 {
        law_progress_never_moves_back(s, events.drop_last());
        let mid = after_events(s, events.drop_last());
        if let CycleEvent::Received(Part::MediaEnd(data)) = events.last() {
            if let Some(info) = completed(mid, data@) {
                assert(i64::MIN <= info.start_ms + info.duration_ms <= i64::MAX);
            }
        }
    }
}

/// A context that the server has discarded is never sent again, whatever comes later.
pub proof fn law_discarded_context_is_never_sent(
    s: SabrView,
    events: Seq<CycleEvent>,
    kind: i32,
)
    requires
        s.sabr_contexts_discard.contains(kind),
    ensures
        after_events(s, events).sabr_contexts_discard.contains(kind),
        !sendable(after_events(s, events)).contains_key(kind),
    decreases events.len(),
{
    if events.len() > 0 {
        law_discarded_context_is_never_sent(s, events.drop_last(), kind);
    }
}

/// No request sends a context that has been discarded, or that is not marked to be sent.
pub proof fn law_sent_contexts_are_wanted(s: SabrView, contexts: Seq<(i32, Seq<u8>)>, i: int)
    requires
        lists_entries(contexts, sendable(s)),
        0 <= i < contexts.len(),
    ensures
        s.sabr_contexts_send.contains(contexts[i].0),
        !s.sabr_contexts_discard.contains(contexts[i].0),
        s.sabr_contexts.contains_key(contexts[i].0),
        s.sabr_contexts[contexts[i].0] == contexts[i].1,
{
    assert(sendable(s).contains_key(contexts[i].0));
}

/// Every request claims all of the video, so that the server sends none of it.
pub proof fn law_video_is_always_claimed(s: SabrView, contexts: Seq<(i32, Seq<u8>)>)
    ensures
        request_of(s, contexts).buffered_ranges.last() == video_range(s),
        request_of(s, contexts).selected_format_ids[0] == s.video_format_id,
        request_of(s, contexts).preferred_video_format_ids == seq![s.video_format_id],
        request_of(s, contexts).preferred_audio_format_ids == seq![s.audio_format_id],
{
}

/// A request selects the audio only once the server has announced it, and claims audio only once
/// a segment is complete.
pub proof fn law_audio_is_claimed_as_received(s: SabrView, contexts: Seq<(i32, Seq<u8>)>)
    requires
        s.audio_format_id != s.video_format_id,
    ensures
        request_of(s, contexts).selected_format_ids.contains(s.audio_format_id)
            <==> s.audio_initialized,
        request_of(s, contexts).buffered_ranges.contains(audio_range(s)) <==> s.audio_max_segment
            >= 0,
{
    let req = request_of(s, contexts);
    if s.audio_initialized {
        assert(req.selected_format_ids[1] == s.audio_format_id);
    }
    if s.audio_max_segment >= 0 {
        assert(req.buffered_ranges[0] == audio_range(s));
    }
    assert(audio_range(s).format_id != video_range(s).format_id);
}

/// The reported position is never negative, never beyond what has been downloaded, and never more
/// than ten seconds before its end.
pub proof fn law_reported_position_is_near_the_end(downloaded_ms: i64)
    requires
        downloaded_ms >= 0,
    ensures
        0 <= player_time(downloaded_ms) <= downloaded_ms,
        downloaded_ms - player_time(downloaded_ms) <= 10_000,
{
}

/// Once a segment of the chosen audio format has been announced, the payload of a media part that
/// refers to it reaches the listener unchanged.
pub proof fn law_audio_payload_is_delivered(s: SabrView, h: MediaHeader, id: u8, payload: Seq<u8>)
    requires
        or_zero_u32(h.header_id) == id,
        or_zero_i32(h.itag) == s.audio_itag,
        payload.len() > 0,
    ensures
        media_payload(on_media_header(s, h), seq![id] + payload) == Some(payload),
{
    let data = seq![id] + payload;
    assert(data[0] == id);
    assert(data.skip(1) =~= payload);
}

/// Media of any other format reaches nobody.
pub proof fn law_other_media_is_dropped(s: SabrView, h: MediaHeader, id: u8, payload: Seq<u8>)
    requires
        or_zero_u32(h.header_id) == id,
        or_zero_i32(h.itag) != s.audio_itag,
    ensures
        media_payload(on_media_header(s, h), seq![id] + payload) is None,
{
    assert((seq![id] + payload)[0] == id);
}

/// Media that refers to no announced segment reaches nobody and changes nothing.
pub proof fn law_unannounced_media_is_dropped(s: SabrView, id: u8, payload: Seq<u8>)
    requires
        !s.header_map.contains_key(id as u32),
    ensures
        media_payload(s, seq![id] + payload) is None,
        on_media(s, seq![id] + payload) == s,
        on_media_end(s, seq![id] + payload) == s,
{
    assert((seq![id] + payload)[0] == id);
}

/// Once an announced audio segment has ended, the progress covers it.
pub proof fn law_ended_segment_counts(s: SabrView, h: MediaHeader, id: u8)
    requires
        or_zero_u32(h.header_id) == id,
        or_zero_i32(h.itag) == s.audio_itag,
        !or_false(h.is_init_seg),
        header_fits(h),
        end_fits(on_media_header(s, h), seq![id]),
    ensures
        ({
            let t = on_media_end(on_media_header(s, h), seq![id]);
            &&& t.audio_max_segment >= or_zero_i32(h.sequence_number)
            &&& t.audio_downloaded_ms >= start_of(h) + duration_of(h)
        }),
{
    let m = on_media_header(s, h);
    assert(completed(m, seq![id]) == Some(header_info(h, s.audio_itag)));
    lemma_segment_time_in_range(h);
}

/// A header's times are 64-bit integers.
proof fn lemma_segment_time_in_range(h: MediaHeader)
    requires
        header_fits(h),
    ensures
        i64::MIN <= start_of(h) <= i64::MAX,
        i64::MIN <= duration_of(h) <= i64::MAX,
{
    if let Some(r) = h.time_range {
        if h.start_ms is None {
            lemma_ticks_in_range(r.start_ticks, r.timescale);
        }
        if h.duration_ms is None {
            lemma_ticks_in_range(r.duration_ticks, r.timescale);
        }
    }
}

/// Ticks that can be converted are a 64-bit integer of milliseconds.
proof fn lemma_ticks_in_range(ticks: Option<i64>, timescale: Option<i32>)
    requires
        ticks_fit(ticks, timescale),
    ensures
        i64::MIN <= ticks_to_ms(ticks, timescale) <= i64::MAX,
{
    let scaled = or_zero_i64(ticks) * 1000;
    let scale: int = match timescale {
        Some(n) => n as int,
        None => 1000,
    };
    if scale > 0 {
        let size = if scaled >= 0 {
            scaled
        } else {
            -scaled
        };
        assert(0 <= size / scale <= size) by (nonlinear_arith)
            requires
                size >= 0,
                scale > 0,
        ;
    }
}

/// One request of a session: the state to which the answer led, and how it ended.
pub struct Round {
    /// The state after the answer.
    pub state: SabrView,
    /// How the request ended.
    pub outcome: Result<bool, SabrErrorView>,
}

/// The session when an answer has been handled.
pub open spec fn answered(s: SessionView, r: Round) -> SessionView {
    SessionView { state: r.state, prev_progress: s.state.audio_downloaded_ms, ..s }
}

/// The session after a run of requests.
pub open spec fn after_rounds(s: SessionView, rounds: Seq<Round>) -> SessionView
    decreases rounds.len(),
{
    if rounds.len() == 0 {
        s
    } else {
        let before = after_rounds(s, rounds.drop_last());
        after_cycle(answered(before, rounds.last()), rounds.last().outcome)
    }
}

/// What the session does after the last of a run of requests.
pub open spec fn rounds_next(s: SessionView, rounds: Seq<Round>) -> NextView
    recommends
        rounds.len() > 0,
{
    let before = after_rounds(s, rounds.drop_last());
    cycle_next(answered(before, rounds.last()), rounds.last().outcome)
}

/// A delay of half a second doubles with each further failure.
pub proof fn law_delay_doubles(n: nat)
    requires
        n >= 1,
    ensures
        retry_delay(1) == 500,
        retry_delay(n + 1) == 2 * retry_delay(n),
{
    assert(retry_delay(1) == 500);
}

/// Failures in a row are retried five times, after growing delays; the sixth ends the session with
/// the last failure's text.
pub proof fn law_five_retries(s: SessionView, rounds: Seq<Round>)
    requires
        s.consecutive_errors == 0,
        1 <= rounds.len() <= 6,
        forall|i: int| 0 <= i < rounds.len() ==> (#[trigger] rounds[i]).outcome is Err,
    ensures
        after_rounds(s, rounds).consecutive_errors == rounds.len(),
        rounds_next(s, rounds) == (if rounds.len() <= 5 {
            NextView::Again(retry_delay(rounds.len()) as u64)
        } else {
            NextView::Fail(
                SabrErrorView::RetriesExhausted(error_text(rounds.last().outcome->Err_0)),
            )
        }),
    decreases rounds.len(),
{
    let shorter = rounds.drop_last();
    assert(rounds.last() == rounds[rounds.len() - 1]);
    if shorter.len() > 0 {
        assert forall|i: int| 0 <= i < shorter.len() implies (
        #[trigger] shorter[i]).outcome is Err by {
            assert(shorter[i] == rounds[i]);
        }
        law_five_retries(s, shorter);
    } else {
        assert(after_rounds(s, shorter) == s);
    }
    assert(rounds_next(s, rounds) == cycle_next(
        answered(after_rounds(s, shorter), rounds.last()),
        rounds.last().outcome,
    ));
}

/// A request that goes well wipes out the failures before it.
pub proof fn law_success_clears_failures(s: SessionView, rounds: Seq<Round>)
    requires
        rounds.len() > 0,
        rounds.last().outcome is Ok,
    ensures
        after_rounds(s, rounds).consecutive_errors == 0,
{
}

/// Whether a request goes well, asks for more, and brings nothing new beyond `progress`.
pub open spec fn is_fruitless(r: Round, progress: i64) -> bool {
    r.outcome == Ok::<bool, SabrErrorView>(true) && !r.state.done && r.state.audio_downloaded_ms
        == progress
}

/// Fruitless requests are followed by another one thirty times, after the delay that the server
/// asked for; the next ends the session.
pub proof fn law_stalls_end_the_session(s: SessionView, rounds: Seq<Round>)
    requires
        s.stall_count == 0,
        s.state.audio_downloaded_ms > 0,
        1 <= rounds.len() <= 31,
        forall|i: int|
            0 <= i < rounds.len() ==> is_fruitless(
                #[trigger] rounds[i],
                s.state.audio_downloaded_ms,
            ),
    ensures
        after_rounds(s, rounds).stall_count == rounds.len(),
        after_rounds(s, rounds).state.audio_downloaded_ms == s.state.audio_downloaded_ms,
        rounds_next(s, rounds) == (if rounds.len() <= 30 {
            NextView::Again(rounds.last().state.backoff_time_ms as u64)
        } else {
            NextView::Stop
        }),
    decreases rounds.len(),
{
    let shorter = rounds.drop_last();
    assert(rounds.last() == rounds[rounds.len() - 1]);
    if shorter.len() > 0 {
        assert forall|i: int| 0 <= i < shorter.len() implies is_fruitless(
            #[trigger] shorter[i],
            s.state.audio_downloaded_ms,
        ) by {
            assert(shorter[i] == rounds[i]);
        }
        law_stalls_end_the_session(s, shorter);
    } else {
        assert(after_rounds(s, shorter) == s);
    }
    let before = after_rounds(s, shorter);
    assert(is_stalled(answered(before, rounds.last())));
}

/// Once the answer has been read to its end with all audio downloaded, the session stops.
pub proof fn law_complete_session_stops(s: SabrView, session: SessionView)
    requires
        is_complete(s),
        session.state == after_event(s, CycleEvent::Ended),
    ensures
        event_step(s, CycleEvent::Ended) == CycleStepView::Over(Ok(false)),
        cycle_next(session, Ok(false)) == NextView::Stop,
        session.state.done,
{
}

/// A listener that has gone ends the session without an error.
pub proof fn law_gone_listener_stops(s: SabrView, session: SessionView)
    ensures
        event_step(s, CycleEvent::Delivered(false)) == CycleStepView::Over(Ok(false)),
        cycle_next(session, Ok(false)) == NextView::Stop,
{
}

/// Only reading an answer to its end moves the request's number, and by one.
pub proof fn law_request_number_counts_answers(s: SabrView, event: CycleEvent)
    requires
        event_fits(s, event),
    ensures
        after_event(s, event).request_number == s.request_number + (if event is Ended {
            1int
        } else {
            0
        }),
{
}

/// After a redirect the next request goes to the new server.
pub proof fn law_redirect_is_followed(s: SabrView, redirect: SabrRedirect)
    requires
        redirect.url is Some,
    ensures
        on_redirect(s, redirect).server_url == redirect.url->0@,
        has_prefix(request_url_of(on_redirect(s, redirect)), redirect.url->0@),
{
    let url = redirect.url->0@;
    let whole = request_url_of(on_redirect(s, redirect));
    assert(whole.subrange(0, url.len() as int) =~= url);
}

/// The cookie that the server gave last goes with the next request.
pub proof fn law_cookie_is_sent_back(
    s: SabrView,
    policy: NextRequestPolicy,
    contexts: Seq<(i32, Seq<u8>)>,
)
    requires
        policy.playback_cookie is Some,
    ensures
        request_of(
            on_next_request_policy(s, policy),
            contexts,
        ).streamer_context.playback_cookie == Some(policy.playback_cookie->0@),
{
}

/// A context that the server gave, to be sent and not discarded, goes with the next request.
pub proof fn law_context_is_sent_back(
    s: SabrView,
    update: SabrContextUpdate,
    contexts: Seq<(i32, Seq<u8>)>,
)
    requires
        update.value is Some,
        or_false(update.send_by_default),
        !s.sabr_contexts_discard.contains(or_zero_i32(update.context_type)),
        lists_entries(contexts, sendable(on_context_update(s, update))),
    ensures
        contexts.contains((or_zero_i32(update.context_type), update.value->0@)),
{
    let m = sendable(on_context_update(s, update));
    let kind = or_zero_i32(update.context_type);
    assert(m.contains_key(kind));
    let i = choose|i: int| 0 <= i < contexts.len() && (#[trigger] contexts[i]).0 == kind;
    assert(contexts[i] == (kind, update.value->0@));
}

/// The audio that a run of events brings to the listener.
pub open spec fn delivered(s: SabrView, events: Seq<CycleEvent>) -> Seq<u8>
    decreases events.len(),
{
    if events.len() == 0 {
        Seq::empty()
    } else {
        let before = events.drop_last();
        delivered(s, before) + match event_step(after_events(s, before), events.last()) {
            CycleStepView::Deliver(audio) => audio,
            _ => Seq::empty(),
        }
    }
}

/// The payloads of the media parts of a run that refer to the segment `id`, one behind another.
pub open spec fn payloads(id: u8, events: Seq<CycleEvent>) -> Seq<u8>
    decreases events.len(),
{
    if events.len() == 0 {
        Seq::empty()
    } else {
        payloads(id, events.drop_last()) + match events.last() {
            CycleEvent::Received(Part::Media(data)) => if data@.len() > 0 && data@[0] == id {
                data@.skip(1)
            } else {
                Seq::empty()
            },
            _ => Seq::empty(),
        }
    }
}

/// Whether an event neither announces the segment `id` anew nor brings audio of another segment.
pub open spec fn spares(s: SabrView, id: u8, event: CycleEvent) -> bool {
    match event {
        CycleEvent::Received(Part::MediaHeader(Ok(h))) => or_zero_u32(h.header_id) != id,
        CycleEvent::Received(Part::Media(data)) => data@.len() > 0 && data@[0] != id ==> !(
        referred(s, data@) matches Some(info) && info.is_audio),
        _ => true,
    }
}

/// Whether that holds of every event of a run.
pub open spec fn only_audio_is(s: SabrView, id: u8, events: Seq<CycleEvent>) -> bool
    decreases events.len(),
{
    events.len() == 0 || (only_audio_is(s, id, events.drop_last()) && spares(
        after_events(s, events.drop_last()),
        id,
        events.last(),
    ))
}

/// Once an audio segment has been announced, its media reach the listener whole and in order, in
/// whatever pieces they come and whatever else comes between them.
pub proof fn law_segment_is_delivered_in_order(s: SabrView, id: u8, events: Seq<CycleEvent>)
    requires
        s.header_map.contains_key(id as u32),
        s.header_map[id as u32].is_audio,
        only_audio_is(s, id, events),
    ensures
        delivered(s, events) == payloads(id, events),
        after_events(s, events).header_map.contains_key(id as u32),
        after_events(s, events).header_map[id as u32] == s.header_map[id as u32],
    decreases events.len(),
{
    if events.len() > 0 {
        law_segment_is_delivered_in_order(s, id, events.drop_last());
        if let CycleEvent::Received(Part::Media(data)) = events.last() {
            if data@.len() == 1 {
                assert(data@.skip(1) =~= Seq::empty());
            }
        }
    }
}

/// One run of events behind another leads where the second leads from where the first has led, and
/// brings what the first brings and then what the second brings.
pub proof fn law_runs_join(s: SabrView, a: Seq<CycleEvent>, b: Seq<CycleEvent>)
    ensures
        after_events(s, a + b) == after_events(after_events(s, a), b),
        delivered(s, a + b) == delivered(s, a) + delivered(after_events(s, a), b),
    decreases b.len(),
{
    if b.len() == 0 {
        assert(a + b =~= a);
        assert(delivered(s, a) + delivered(after_events(s, a), b) =~= delivered(s, a));
    } else {
        let before = b.drop_last();
        assert((a + b).drop_last() =~= a + before);
        law_runs_join(s, a, before);
        assert(delivered(s, a + b) =~= delivered(s, a) + delivered(after_events(s, a), b));
    }
}

/// An audio segment as it comes in: its announcement, and the events up to the next one's.
pub struct Segment {
    /// The announcement.
    pub header: MediaHeader,
    /// The byte by which the segment's media refer to it.
    pub id: u8,
    /// What follows the announcement.
    pub events: Seq<CycleEvent>,
}

impl Segment {
    /// The segment's events, the announcement first.
    pub open spec fn run(self) -> Seq<CycleEvent> {
        seq![CycleEvent::Received(Part::MediaHeader(Ok(self.header)))] + self.events
    }

    /// The segment's audio.
    pub open spec fn audio(self) -> Seq<u8> {
        payloads(self.id, self.events)
    }

    /// Whether the segment belongs to the chosen audio format, and no audio of another one comes
    /// before the next announcement.
    pub open spec fn comes_alone(self, s: SabrView) -> bool {
        &&& or_zero_u32(self.header.header_id) == self.id
        &&& or_zero_i32(self.header.itag) == s.audio_itag
        &&& only_audio_is(on_media_header(s, self.header), self.id, self.events)
    }
}

/// The events of segments that come one after another.
pub open spec fn segments_run(segments: Seq<Segment>) -> Seq<CycleEvent>
    decreases segments.len(),
{
    if segments.len() == 0 {
        Seq::empty()
    } else {
        segments_run(segments.drop_last()) + segments.last().run()
    }
}

/// The audio of segments, one behind another.
pub open spec fn segments_audio(segments: Seq<Segment>) -> Seq<u8>
    decreases segments.len(),
{
    if segments.len() == 0 {
        Seq::empty()
    } else {
        segments_audio(segments.drop_last()) + segments.last().audio()
    }
}

/// Whether segments come one after another.
pub open spec fn come_in_turn(s: SabrView, segments: Seq<Segment>) -> bool
    decreases segments.len(),
{
    segments.len() == 0 || (come_in_turn(s, segments.drop_last()) && segments.last().comes_alone(
        after_events(s, segments_run(segments.drop_last())),
    ))
}

/// Segments that come one after another reach the listener whole and in that order; what comes
/// first, as the segment with the container's headers does, is delivered first.
pub proof fn law_segments_are_delivered_in_order(s: SabrView, segments: Seq<Segment>)
    requires
        come_in_turn(s, segments),
    ensures
        delivered(s, segments_run(segments)) == segments_audio(segments),
        segments.len() > 0 ==> segments[0].audio().is_prefix_of(
            delivered(s, segments_run(segments)),
        ),
    decreases segments.len(),
{
    if segments.len() > 0 {
        let before = segments.drop_last();
        let last = segments.last();
        law_segments_are_delivered_in_order(s, before);
        let mid = after_events(s, segments_run(before));
        law_runs_join(s, segments_run(before), last.run());
        lemma_announced_segment(mid, last);
        let whole = segments_audio(segments);
        let first = segments[0].audio();
        if before.len() > 0 {
            assert(before[0] == segments[0]);
            assert(first =~= whole.subrange(0, first.len() as int));
        } else {
            assert(segments_audio(before) + last.audio() =~= last.audio());
        }
    }
}

/// A segment's events bring its audio.
proof fn lemma_announced_segment(s: SabrView, segment: Segment)
    requires
        segment.comes_alone(s),
    ensures
        delivered(s, segment.run()) == segment.audio(),
{
    let event = CycleEvent::Received(Part::MediaHeader(Ok(segment.header)));
    let announcement = seq![event];
    assert(announcement.drop_last() =~= Seq::empty());
    assert(announcement.last() == event);
    reveal_with_fuel(after_events, 2);
    reveal_with_fuel(delivered, 2);
    assert(after_events(s, announcement) == on_media_header(s, segment.header));
    assert(delivered(s, announcement) =~= Seq::empty());
    law_runs_join(s, announcement, segment.events);
    law_segment_is_delivered_in_order(
        on_media_header(s, segment.header),
        segment.id,
        segment.events,
    );
    assert(delivered(s, segment.run()) =~= segment.audio());
}

} // verus!
