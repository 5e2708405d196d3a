use ytcast::sabr::client::ios_client;
use ytcast::sabr::error::SabrError;
use ytcast::sabr::formats::AdaptiveFormat;
use ytcast::sabr::parts::{handle_media, media_end_fits, media_header_fits};
use ytcast::sabr::player_data::PlayerData;
use ytcast::sabr::proto::{
    FormatId, FormatInitializationMetadata, MediaHeader, NextRequestPolicy,
    SabrContextSendingPolicy, SabrContextUpdate, SabrRedirect, ServerError, StreamProtectionStatus,
    TimeRange,
};
use ytcast::sabr::session::{
    begin_cycle, check_event, sabr_loop, sabr_request_cycle, stream_audio, CycleEvent, CycleStep,
    Next, Part, Session,
};
use ytcast::sabr::state::SabrState;

fn format(itag: i32, mime: &str, bitrate: u64) -> AdaptiveFormat {
    AdaptiveFormat {
        itag,
        last_modified: 77,
        xtags: Some("t".to_string()),
        mime_type: mime.to_string(),
        bitrate,
    }
}

fn state() -> SabrState {
    SabrState::new(
        "https://host/play?a=1".to_string(),
        &format(251, "audio/webm; codecs=\"opus\"", 160),
        &format(160, "video/mp4", 10),
        vec![9, 9],
        ios_client(),
    )
}

fn session() -> Session {
    Session { state: state(), prev_progress: 0, consecutive_errors: 0, stall_count: 0 }
}

fn header(id: u32, itag: i32, seq: i32, start: i64, duration: i64) -> MediaHeader {
    MediaHeader {
        header_id: Some(id),
        itag: Some(itag),
        is_init_seg: None,
        sequence_number: Some(seq),
        start_ms: Some(start),
        duration_ms: Some(duration),
        time_range: None,
    }
}

fn receive(s: &mut SabrState, part: Part) -> CycleStep {
    let event = CycleEvent::Received(part);
    assert!(check_event(s, &event));
    sabr_request_cycle(s, event)
}

fn read_on(step: CycleStep) {
    assert!(matches!(step, CycleStep::Read));
}

fn over(step: CycleStep) -> Result<bool, SabrError> {
    match step {
        CycleStep::Over(outcome) => outcome,
        _ => panic!("the request goes on"),
    }
}

fn announce(s: &mut SabrState, end_ms: Option<i64>, end_segment: Option<i64>) {
    let meta = FormatInitializationMetadata {
        format_id: Some(FormatId { itag: Some(251), last_modified: None, xtags: None }),
        mime_type: None,
        end_time_ms: end_ms,
        end_segment_number: end_segment,
    };
    read_on(receive(s, Part::FormatInit(Ok(meta))));
}

fn complete(s: &mut SabrState, id: u8, seq: i32, start: i64, duration: i64) {
    let h = header(id as u32, 251, seq, start, duration);
    read_on(receive(s, Part::MediaHeader(Ok(h))));
    read_on(receive(s, Part::MediaEnd(vec![id])));
}

#[test]
fn first_request_claims_the_video_only() {
    let s = state();
    assert_eq!(s.request_url(), "https://host/play?a=1&rn=0");
    let req = s.build_request();
    assert_eq!(req.client_abr_state.enabled_track_types_bitfield, 1);
    assert_eq!(req.client_abr_state.playback_rate, 1);
    assert_eq!(req.client_abr_state.bandwidth_estimate, 5_000_000);
    assert_eq!(req.client_abr_state.player_time_ms, 0);
    assert_eq!(req.client_abr_state.visibility, 1);
    assert_eq!(req.client_abr_state.player_state, 1);
    assert_eq!(req.selected_format_ids.len(), 1);
    assert_eq!(req.selected_format_ids[0].itag, Some(160));
    assert_eq!(req.selected_format_ids[0].last_modified, Some(77));
    assert_eq!(req.selected_format_ids[0].xtags.as_deref(), Some("t"));
    assert_eq!(req.buffered_ranges.len(), 1);
    let r = &req.buffered_ranges[0];
    assert_eq!(r.format_id.itag, Some(160));
    assert_eq!(r.start_time_ms, 0);
    assert_eq!(r.duration_ms, i32::MAX as i64);
    assert_eq!(r.start_segment_index, i32::MAX);
    assert_eq!(r.end_segment_index, i32::MAX);
    assert_eq!(r.time_range.start_ticks, Some(0));
    assert_eq!(r.time_range.duration_ticks, Some(i32::MAX as i64));
    assert_eq!(r.time_range.timescale, Some(1000));
    assert_eq!(req.video_playback_ustreamer_config, Some(vec![9, 9]));
    assert_eq!(req.preferred_audio_format_ids[0].itag, Some(251));
    assert_eq!(req.preferred_video_format_ids[0].itag, Some(160));
    let c = &req.streamer_context.client_info;
    assert_eq!(c.client_name, 5);
    assert_eq!(c.client_version, "19.45.4");
    assert_eq!(c.device_make, "Apple");
    assert_eq!(c.device_model, "iPhone16,2");
    assert_eq!(c.os_name, "iPhone");
    assert_eq!(c.os_version, "18.1.0.22B83");
    assert_eq!(c.android_sdk_version, None);
    assert_eq!(req.streamer_context.po_token, None);
    assert_eq!(req.streamer_context.playback_cookie, None);
    assert!(req.streamer_context.sabr_contexts.is_empty());
}

#[test]
fn later_requests_claim_the_audio_too() {
    let mut s = state();
    s.ustreamer_config = Vec::new();
    announce(&mut s, Some(60_000), Some(6));
    assert!(s.audio_initialized);
    assert_eq!(s.audio_total_end_ms, 60_000);
    assert_eq!(s.audio_end_segment, 6);
    complete(&mut s, 1, 2, 10_000, 15_500);
    let req = s.build_request();
    assert_eq!(req.selected_format_ids.len(), 2);
    assert_eq!(req.selected_format_ids[1].itag, Some(251));
    assert_eq!(req.buffered_ranges.len(), 2);
    let r = &req.buffered_ranges[0];
    assert_eq!(r.format_id.itag, Some(251));
    assert_eq!(r.duration_ms, 25_500);
    assert_eq!((r.start_segment_index, r.end_segment_index), (0, 2));
    assert_eq!(r.time_range.duration_ticks, Some(25_500));
    assert_eq!(req.client_abr_state.player_time_ms, 15_500);
    assert_eq!(req.video_playback_ustreamer_config, None);
}

#[test]
fn other_formats_are_not_announced() {
    let mut s = state();
    let meta = FormatInitializationMetadata {
        format_id: None,
        mime_type: Some("video/mp4".to_string()),
        end_time_ms: Some(5),
        end_segment_number: Some(5),
    };
    read_on(receive(&mut s, Part::FormatInit(Ok(meta))));
    assert!(!s.audio_initialized);
    assert_eq!((s.audio_total_end_ms, s.audio_end_segment), (0, 0));
}

#[test]
fn audio_reaches_the_listener_unchanged() {
    let mut s = state();
    let mut init = header(3, 251, 0, 0, 0);
    init.is_init_seg = Some(true);
    read_on(receive(&mut s, Part::MediaHeader(Ok(init))));
    read_on(receive(&mut s, Part::MediaHeader(Ok(header(4, 160, 0, 0, 0)))));
    assert!(!s.audio_init_sent);
    match receive(&mut s, Part::Media(vec![3, 10, 20, 30])) {
        CycleStep::Deliver(audio) => assert_eq!(&audio[..], &[10, 20, 30]),
        _ => panic!("nothing to deliver"),
    }
    assert!(s.audio_init_sent);
    read_on(receive(&mut s, Part::Media(vec![4, 10])));
    read_on(receive(&mut s, Part::Media(vec![5, 10])));
    read_on(receive(&mut s, Part::Media(vec![3])));
    read_on(receive(&mut s, Part::Media(vec![])));
    assert!(handle_media(&mut s, &[3, 1]).is_some());
    assert!(handle_media(&mut s, &[9, 1]).is_none());
}

#[test]
fn segments_come_whole_and_in_order() {
    let mut s = state();
    read_on(receive(&mut s, Part::MediaHeader(Ok(header(1, 251, 1, 0, 10)))));
    read_on(receive(&mut s, Part::MediaHeader(Ok(header(2, 160, 1, 0, 10)))));
    let parts = vec![
        Part::Media(vec![1, 10, 11]),
        Part::Media(vec![2, 99]),
        Part::Other,
        Part::Media(vec![1]),
        Part::Media(vec![1, 12]),
        Part::MediaEnd(vec![1]),
        Part::Media(vec![1, 13, 14]),
    ];
    let mut audio: Vec<u8> = Vec::new();
    for part in parts {
        if let CycleStep::Deliver(bytes) = receive(&mut s, part) {
            audio.extend_from_slice(&bytes);
        }
    }
    assert_eq!(audio, vec![10, 11, 12, 13, 14]);
}

#[test]
fn segments_keep_the_order_in_which_they_come() {
    let mut s = state();
    let mut init = header(7, 251, 0, 0, 0);
    init.is_init_seg = Some(true);
    let parts = vec![
        Part::MediaHeader(Ok(init)),
        Part::Media(vec![7, 1, 2]),
        Part::MediaEnd(vec![7]),
        Part::MediaHeader(Ok(header(8, 251, 1, 0, 10))),
        Part::Media(vec![8, 3]),
        Part::MediaHeader(Ok(header(9, 160, 1, 0, 10))),
        Part::Media(vec![9, 99]),
        Part::Media(vec![8, 4]),
        Part::MediaEnd(vec![8]),
        Part::MediaHeader(Ok(header(7, 251, 2, 10, 10))),
        Part::Media(vec![7, 5, 6]),
        Part::MediaEnd(vec![7]),
    ];
    let mut audio: Vec<u8> = Vec::new();
    for part in parts {
        if let CycleStep::Deliver(bytes) = receive(&mut s, part) {
            audio.extend_from_slice(&bytes);
        }
    }
    assert_eq!(audio, vec![1, 2, 3, 4, 5, 6]);
    assert!(s.audio_init_sent);
}

#[test]
fn progress_never_moves_back() {
    let mut s = state();
    complete(&mut s, 1, 5, 40_000, 10_000);
    assert_eq!((s.audio_max_segment, s.audio_downloaded_ms), (5, 50_000));
    complete(&mut s, 2, 3, 20_000, 10_000);
    assert_eq!((s.audio_max_segment, s.audio_downloaded_ms), (5, 50_000));
    let mut init = header(3, 251, 99, 90_000, 10_000);
    init.is_init_seg = Some(true);
    read_on(receive(&mut s, Part::MediaHeader(Ok(init))));
    read_on(receive(&mut s, Part::MediaEnd(vec![3])));
    read_on(receive(&mut s, Part::MediaEnd(vec![])));
    read_on(receive(&mut s, Part::MediaEnd(vec![200])));
    assert_eq!((s.audio_max_segment, s.audio_downloaded_ms), (5, 50_000));
}

#[test]
fn times_fall_back_to_ticks() {
    let mut s = state();
    let h = |start: i64, duration: i64, scale: Option<i32>| MediaHeader {
        header_id: None,
        itag: Some(251),
        is_init_seg: None,
        sequence_number: None,
        start_ms: None,
        duration_ms: None,
        time_range: Some(TimeRange {
            start_ticks: Some(start),
            duration_ticks: Some(duration),
            timescale: scale,
        }),
    };
    let mut times = |m: MediaHeader| {
        read_on(receive(&mut s, Part::MediaHeader(Ok(m))));
        let info = s.header_map.get(&0).unwrap();
        (info.start_ms, info.duration_ms)
    };
    assert_eq!(times(h(48_000, 96_001, Some(48_000))), (1_000, 2_000));
    assert_eq!(times(h(7, 8, None)), (7, 8));
    assert_eq!(times(h(7, 8, Some(0))), (0, 0));
    assert_eq!(times(h(-7, -1_999, Some(2_000))), (-3, -999));
    let mut direct = h(1, 2, Some(1));
    direct.start_ms = Some(5);
    direct.duration_ms = Some(6);
    assert_eq!(times(direct), (5, 6));
    let mut none = h(1, 2, Some(1));
    none.time_range = None;
    assert_eq!(times(none), (0, 0));
    assert!(!media_header_fits(&h(i64::MAX / 1000 + 1, 0, Some(1))));
    assert!(media_header_fits(&h(i64::MAX / 1000, i64::MIN / 1000, Some(1))));
    assert!(!media_header_fits(&h(0, i64::MIN / 1000 - 1, Some(1))));
    assert!(media_header_fits(&h(i64::MAX, i64::MIN, Some(0))));
}

#[test]
fn ends_beyond_the_range_are_noticed() {
    let mut s = state();
    let h = header(1, 251, 1, i64::MAX, 1);
    read_on(receive(&mut s, Part::MediaHeader(Ok(h))));
    assert!(!media_end_fits(&s, &[1]));
    assert!(media_end_fits(&s, &[2]));
    assert!(media_end_fits(&s, &[]));
    assert!(!check_event(&s, &CycleEvent::Received(Part::MediaEnd(vec![1]))));
    s.request_number = u32::MAX;
    assert!(!check_event(&s, &CycleEvent::Ended));
}

#[test]
fn server_sets_delay_and_cookie() {
    let mut s = state();
    let policy = NextRequestPolicy { backoff_time_ms: Some(1500), playback_cookie: Some(vec![1, 2]) };
    read_on(receive(&mut s, Part::NextRequestPolicy(Ok(policy))));
    assert_eq!(s.backoff_time_ms, 1500);
    let policy = NextRequestPolicy { backoff_time_ms: None, playback_cookie: None };
    read_on(receive(&mut s, Part::NextRequestPolicy(Ok(policy))));
    assert_eq!(s.backoff_time_ms, 0);
    assert_eq!(s.build_request().streamer_context.playback_cookie, Some(vec![1, 2]));
    let policy = NextRequestPolicy { backoff_time_ms: Some(-1), playback_cookie: None };
    read_on(receive(&mut s, Part::NextRequestPolicy(Ok(policy))));
    assert_eq!(s.backoff_time_ms, u32::MAX);
}

#[test]
fn redirects_are_followed() {
    let mut s = state();
    read_on(receive(&mut s, Part::Redirect(Ok(SabrRedirect { url: None }))));
    assert_eq!(s.server_url, "https://host/play?a=1");
    let r = SabrRedirect { url: Some("https://other/play".to_string()) };
    read_on(receive(&mut s, Part::Redirect(Ok(r))));
    assert_eq!(s.request_url(), "https://other/play?rn=0");
}

#[test]
fn server_errors_end_the_request() {
    let mut s = state();
    let e = ServerError { kind: Some("sabr.malformed".to_string()), code: Some(-3) };
    let e = over(receive(&mut s, Part::Error(Ok(e)))).unwrap_err();
    assert_eq!(e.describe(), "SABR error: type=sabr.malformed, code=-3");
    let e = ServerError { kind: None, code: None };
    let e = over(receive(&mut s, Part::Error(Ok(e)))).unwrap_err();
    assert_eq!(e.describe(), "SABR error: type=unknown, code=0");
}

#[test]
fn undecodable_parts_end_the_request() {
    let bad = || "failed to decode".to_string();
    let parts = vec![
        Part::FormatInit(Err(bad())),
        Part::MediaHeader(Err(bad())),
        Part::NextRequestPolicy(Err(bad())),
        Part::Redirect(Err(bad())),
        Part::Error(Err(bad())),
        Part::ContextUpdate(Err(bad())),
        Part::StreamProtection(Err(bad())),
        Part::ContextSendingPolicy(Err(bad())),
    ];
    for part in parts {
        let mut s = state();
        let e = over(receive(&mut s, part)).unwrap_err();
        assert!(matches!(e, SabrError::Decode(_)));
        assert_eq!(e.describe(), "failed to decode");
    }
}

fn context(kind: i32, value: Option<Vec<u8>>, send: bool) -> Part {
    Part::ContextUpdate(Ok(SabrContextUpdate {
        context_type: Some(kind),
        value,
        send_by_default: Some(send),
    }))
}

fn sent(s: &SabrState) -> Vec<(i32, Vec<u8>)> {
    let mut list: Vec<(i32, Vec<u8>)> = s
        .build_request()
        .streamer_context
        .sabr_contexts
        .iter()
        .map(|c| (c.context_type, c.value.clone()))
        .collect();
    list.sort();
    list
}

fn policy(start: &[i32], stop: &[i32], discard: &[i32]) -> Part {
    Part::ContextSendingPolicy(Ok(SabrContextSendingPolicy {
        start_policy: start.to_vec(),
        stop_policy: stop.to_vec(),
        discard_policy: discard.to_vec(),
    }))
}

#[test]
fn contexts_are_sent_as_the_server_wants() {
    let mut s = state();
    read_on(receive(&mut s, context(1, Some(vec![1]), true)));
    read_on(receive(&mut s, context(2, Some(vec![2]), false)));
    read_on(receive(&mut s, context(3, None, true)));
    assert_eq!(sent(&s), vec![(1, vec![1])]);
    read_on(receive(&mut s, policy(&[2, 9], &[], &[])));
    assert_eq!(sent(&s), vec![(1, vec![1]), (2, vec![2])]);
    read_on(receive(&mut s, context(2, Some(vec![22]), false)));
    assert_eq!(sent(&s), vec![(1, vec![1]), (2, vec![22])]);
    read_on(receive(&mut s, policy(&[1], &[1], &[])));
    assert_eq!(sent(&s), vec![(2, vec![22])]);
}

#[test]
fn discarded_contexts_are_never_sent_again() {
    let mut s = state();
    read_on(receive(&mut s, context(1, Some(vec![1]), true)));
    read_on(receive(&mut s, policy(&[], &[], &[1])));
    assert!(sent(&s).is_empty());
    assert!(s.sabr_contexts.is_empty());
    read_on(receive(&mut s, context(1, Some(vec![5]), true)));
    read_on(receive(&mut s, policy(&[1], &[], &[])));
    assert!(sent(&s).is_empty());
}

#[test]
fn protection_and_unknown_parts_change_nothing() {
    let mut s = state();
    read_on(receive(&mut s, Part::StreamProtection(Ok(StreamProtectionStatus { status: Some(2) }))));
    read_on(receive(&mut s, Part::StreamProtection(Ok(StreamProtectionStatus { status: None }))));
    read_on(receive(&mut s, Part::Other));
    assert_eq!(s.request_url(), "https://host/play?a=1&rn=0");
}

#[test]
fn failed_requests_say_why() {
    let mut s = state();
    let e = over(sabr_request_cycle(&mut s, CycleEvent::Failed("no route".to_string())));
    assert_eq!(e.unwrap_err().describe(), "no route");
    let e = over(sabr_request_cycle(&mut s, CycleEvent::Refused("403 Forbidden".to_string())));
    assert_eq!(e.unwrap_err().describe(), "SABR request returned HTTP 403 Forbidden");
    let e = over(sabr_request_cycle(&mut s, CycleEvent::Broken("reset".to_string())));
    assert!(matches!(e, Err(SabrError::Transport(_))));
    read_on(sabr_request_cycle(&mut s, CycleEvent::Opened));
    read_on(sabr_request_cycle(&mut s, CycleEvent::Delivered(true)));
    let gone = over(sabr_request_cycle(&mut s, CycleEvent::Delivered(false)));
    assert!(matches!(gone, Ok(false)));
    assert_eq!(s.request_number, 0);
}

#[test]
fn streams_end_by_segments_or_by_time() {
    let mut s = state();
    assert!(over(sabr_request_cycle(&mut s, CycleEvent::Ended)).unwrap());
    assert_eq!((s.request_number, s.done), (1, false));
    announce(&mut s, Some(100_000), Some(3));
    complete(&mut s, 1, 2, 0, 50_000);
    assert!(over(sabr_request_cycle(&mut s, CycleEvent::Ended)).unwrap());
    complete(&mut s, 1, 3, 50_000, 1);
    assert!(!over(sabr_request_cycle(&mut s, CycleEvent::Ended)).unwrap());
    assert_eq!((s.request_number, s.done), (3, true));

    let mut s = state();
    announce(&mut s, Some(100_000), None);
    complete(&mut s, 1, 2, 0, 100_000);
    assert!(!over(sabr_request_cycle(&mut s, CycleEvent::Ended)).unwrap());
    assert!(s.done);

    let mut s = state();
    announce(&mut s, None, Some(0x1_0000_0001));
    complete(&mut s, 1, 1, 0, 1);
    assert!(over(sabr_request_cycle(&mut s, CycleEvent::Ended)).unwrap());
    assert!(!s.done);
}

#[test]
fn failures_are_retried_five_times() {
    let mut s = session();
    for expected in [500u64, 1_000, 2_000, 4_000, 8_000] {
        match sabr_loop(&mut s, Err(SabrError::Transport("reset".to_string()))) {
            Next::Again(ms) => assert_eq!(ms, expected),
            _ => panic!("no retry"),
        }
    }
    match sabr_loop(&mut s, Err(SabrError::Transport("reset".to_string()))) {
        Next::Fail(e) => assert_eq!(e.describe(), "SABR failed after 5 retries: reset"),
        _ => panic!("another retry"),
    }
}

#[test]
fn success_clears_failures() {
    let mut s = session();
    for _ in 0..5 {
        assert!(matches!(sabr_loop(&mut s, Err(SabrError::NotJson)), Next::Again(_)));
    }
    assert!(matches!(sabr_loop(&mut s, Ok(true)), Next::Again(0)));
    assert_eq!(s.consecutive_errors, 0);
    assert!(matches!(sabr_loop(&mut s, Err(SabrError::NotJson)), Next::Again(500)));
}

#[test]
fn stalls_end_the_session() {
    let mut s = session();
    complete(&mut s.state, 1, 1, 0, 10_000);
    s.state.backoff_time_ms = 250;
    for _ in 0..30 {
        assert!(begin_cycle(&mut s, false).is_some());
        assert!(matches!(sabr_loop(&mut s, Ok(true)), Next::Again(250)));
    }
    assert!(begin_cycle(&mut s, false).is_some());
    assert!(matches!(sabr_loop(&mut s, Ok(true)), Next::Stop));
}

#[test]
fn progress_clears_stalls_and_failures_do_not() {
    let mut s = session();
    for _ in 0..40 {
        begin_cycle(&mut s, false);
        assert!(matches!(sabr_loop(&mut s, Ok(true)), Next::Again(0)));
    }
    assert_eq!(s.stall_count, 0);
    complete(&mut s.state, 1, 1, 0, 10_000);
    begin_cycle(&mut s, false);
    sabr_loop(&mut s, Ok(true));
    assert_eq!(s.stall_count, 1);
    begin_cycle(&mut s, false);
    sabr_loop(&mut s, Err(SabrError::NotJson));
    assert_eq!(s.stall_count, 1);
    begin_cycle(&mut s, false);
    complete(&mut s.state, 1, 2, 10_000, 10_000);
    sabr_loop(&mut s, Ok(true));
    assert_eq!(s.stall_count, 0);
}

#[test]
fn sessions_stop_when_told_or_done() {
    let mut s = session();
    assert!(matches!(sabr_loop(&mut s, Ok(false)), Next::Stop));
    s.state.done = true;
    assert!(matches!(sabr_loop(&mut s, Ok(true)), Next::Stop));
    assert!(begin_cycle(&mut s, true).is_none());
}

#[test]
fn requests_carry_their_headers() {
    let mut s = session();
    s.state.request_number = 12;
    complete(&mut s.state, 1, 1, 0, 10_000);
    let call = begin_cycle(&mut s, false).unwrap();
    assert_eq!(s.prev_progress, 10_000);
    assert_eq!(call.url, "https://host/play?a=1&rn=12");
    assert_eq!(
        call.headers,
        vec![
            (
                "User-Agent",
                "com.google.ios.youtube/19.45.4 (iPhone16,2; U; CPU iOS 18_1_0 like Mac OS X;)"
            ),
            ("Content-Type", "application/x-protobuf"),
            ("Accept", "application/vnd.yt-ump"),
        ]
    );
    assert_eq!(call.body.buffered_ranges.len(), 2);
}

fn player(formats: Vec<AdaptiveFormat>) -> PlayerData {
    PlayerData {
        server_abr_streaming_url: "https://host/play".to_string(),
        ustreamer_config: vec![1],
        formats,
        title: "A Song".to_string(),
        duration_secs: 213,
    }
}

#[test]
fn streams_begin_with_the_chosen_formats() {
    let formats = vec![
        format(140, "audio/mp4; codecs=\"mp4a.40.2\"", 128),
        format(251, "audio/webm; codecs=\"opus\"", 160),
        format(137, "video/mp4", 4000),
        format(160, "video/mp4", 10),
    ];
    let (info, s) = stream_audio(player(formats), None, Some("+/8=".to_string())).ok().unwrap();
    assert_eq!(info.title, "A Song");
    assert_eq!(info.duration_secs, 213);
    assert_eq!(info.mime_type, "audio/webm; codecs=\"opus\"");
    assert_eq!(s.state.audio_itag, 251);
    assert_eq!(s.state.audio_format_id.itag, Some(251));
    assert_eq!(s.state.video_format_id.itag, Some(160));
    assert_eq!(s.state.server_url, "https://host/play");
    assert_eq!(s.state.ustreamer_config, vec![1]);
    assert_eq!(s.state.client_config.client_name, "IOS");
    assert_eq!(s.state.po_token, Some(vec![0xfb, 0xff]));
    assert_eq!(s.state.audio_max_segment, -1);
    assert_eq!(s.state.request_url(), "https://host/play?rn=0");
}

#[test]
fn streams_with_token_begin_as_the_web_client() {
    let formats = || vec![format(251, "audio/webm", 1), format(160, "video/mp4", 1)];
    let (_, s) = stream_audio(player(formats()), Some("tok"), Some("-_8=".to_string())).ok().unwrap();
    assert_eq!(s.state.client_config.client_name, "WEB_REMIX");
    assert_eq!(s.state.po_token, None);
    let (_, s) = stream_audio(player(formats()), Some("tok"), None).ok().unwrap();
    assert_eq!(s.state.po_token, None);
}

#[test]
fn streams_want_both_kinds_of_format() {
    let e = stream_audio(player(vec![format(160, "video/mp4", 1)]), None, None).err().unwrap();
    assert_eq!(e.describe(), "no suitable audio format found");
    let e = stream_audio(player(vec![format(251, "audio/webm", 1)]), None, None).err().unwrap();
    assert_eq!(e.describe(), "no video format found (needed for SABR discard trick)");
    let e = stream_audio(player(vec![]), None, None).err().unwrap();
    assert!(matches!(e, SabrError::NoAudioFormat));
}
