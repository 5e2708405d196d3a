//! What each part of a response does to the session.
use bytes::Bytes;
use std::collections::{HashMap, HashSet};
use vstd::prelude::*;
use vstd::slice::slice_subrange;
use crate::sabr::error::{SabrError, SabrErrorView};
use crate::sabr::numbers::{bits_u32, reinterpret_u32};
use crate::sabr::proto::{
    FormatId, FormatInitializationMetadata, MediaHeader, NextRequestPolicy,
    SabrContextSendingPolicy, SabrContextUpdate, SabrRedirect, ServerError, StreamProtectionStatus,
    TimeRange,
};
use crate::sabr::state::{values_view, HeaderInfo, SabrState, SabrView};

verus! {

broadcast use vstd::std_specs::hash::group_hash_axioms;

/// The shared byte buffer of the `bytes` crate, which carries audio to the listener.
#[verifier::external_type_specification]
#[verifier::external_body]
pub struct ExBytes(Bytes);

/// The bytes that a buffer holds.
pub uninterp spec fn bytes_of(b: Bytes) -> Seq<u8>;

/// Calls `bytes::Bytes::copy_from_slice`, which makes a buffer of its own that holds the bytes of
/// the slice in order.
#[verifier::external_body]
fn copy_from_slice(data: &[u8]) -> (b: Bytes)
    ensures
        bytes_of(b) == data@,
{
    Bytes::copy_from_slice(data)
}

/// What an optional buffer holds.
pub open spec fn opt_buffer(b: Option<Bytes>) -> Option<Seq<u8>> {
    match b {
        Some(b) => Some(bytes_of(b)),
        None => None,
    }
}

/// What the outcome of handling a part says.
pub open spec fn outcome_view(res: Result<(), SabrError>) -> Result<(), SabrErrorView> {
    match res {
        Ok(()) => Ok(()),
        Err(e) => Err(e@),
    }
}

/// The outcome of a part whose handler fails only where its message could not be decoded.
pub open spec fn decode_outcome<T>(decoded: Result<T, String>) -> Result<(), SabrErrorView> {
    match decoded {
        Ok(_) => Ok(()),
        Err(e) => Err(SabrErrorView::Decode(e@)),
    }
}

/// The value of an optional number, or zero.
pub open spec fn or_zero_i32(o: Option<i32>) -> i32 {
    match o {
        Some(n) => n,
        None => 0,
    }
}

/// The value of an optional number, or zero.
pub open spec fn or_zero_i64(o: Option<i64>) -> i64 {
    match o {
        Some(n) => n,
        None => 0,
    }
}

/// The value of an optional number, or zero.
pub open spec fn or_zero_u32(o: Option<u32>) -> u32 {
    match o {
        Some(n) => n,
        None => 0,
    }
}

/// The value of an optional flag, or false.
pub open spec fn or_false(o: Option<bool>) -> bool {
    match o {
        Some(b) => b,
        None => false,
    }
}

/// The number of a format, zero where it is not given.
pub open spec fn itag_of(id: Option<FormatId>) -> i32 {
    match id {
        Some(f) => or_zero_i32(f.itag),
        None => 0,
    }
}

/// Announcing the chosen audio format says where the audio ends; any other format is passed over.
pub open spec fn on_format_init(s: SabrView, meta: FormatInitializationMetadata) -> SabrView {
    if itag_of(meta.format_id) == s.audio_itag {
        SabrView {
            audio_initialized: true,
            audio_total_end_ms: or_zero_i64(meta.end_time_ms),
            audio_end_segment: or_zero_i64(meta.end_segment_number),
            ..s
        }
    } else {
        s
    }
}

/// Handles the announcement of a format.
pub fn handle_format_init_metadata(
    state: &mut SabrState,
    decoded: Result<FormatInitializationMetadata, String>,
) -> (res: Result<(), SabrError>)
    ensures
        outcome_view(res) == decode_outcome(decoded),
        final(state)@ == match decoded {
            Ok(meta) => on_format_init(old(state)@, meta),
            Err(_) => old(state)@,
        },
{
    let meta = match decoded {
        Ok(m) => m,
        Err(e) => return Err(SabrError::Decode(e)),
    };
    let itag = match &meta.format_id {
        Some(f) => f.itag.unwrap_or(0),
        None => 0,
    };
    if itag == state.audio_itag {
        state.audio_initialized = true;
        state.audio_total_end_ms = meta.end_time_ms.unwrap_or(0);
        state.audio_end_segment = meta.end_segment_number.unwrap_or(0);
    }
    Ok(())
}

/// The quotient of `a` and a positive `b`, rounded toward zero.
pub open spec fn quotient(a: int, b: int) -> int {
    if a >= 0 {
        a / b
    } else {
        -((-a) / b)
    }
}

/// How many milliseconds `ticks` ticks are, at `timescale` ticks per second; a thousand per second
/// where no timescale is given, and none where it is not positive.
pub open spec fn ticks_to_ms(ticks: Option<i64>, timescale: Option<i32>) -> int {
    let t = or_zero_i64(ticks);
    let scale = match timescale {
        Some(n) => n,
        None => 1000,
    };
    if scale > 0 {
        quotient(t * 1000, scale as int)
    } else {
        0
    }
}

/// Whether `ticks` can be converted: a thousand times its value must be a 64-bit integer, unless
/// the timescale is not positive.
pub open spec fn ticks_fit(ticks: Option<i64>, timescale: Option<i32>) -> bool {
    (timescale matches Some(n) && n <= 0) || i64::MIN <= or_zero_i64(ticks) * 1000 <= i64::MAX
}

/// A time of a segment: the value in milliseconds where it is given, else that of the time range.
pub open spec fn segment_time(
    given: Option<i64>,
    range: Option<TimeRange>,
    ticks: spec_fn(TimeRange) -> Option<i64>,
) -> int {
    match given {
        Some(ms) => ms as int,
        None => match range {
            Some(r) => ticks_to_ms(ticks(r), r.timescale),
            None => 0,
        },
    }
}

/// Whether that time can be computed.
pub open spec fn segment_time_fits(
    given: Option<i64>,
    range: Option<TimeRange>,
    ticks: spec_fn(TimeRange) -> Option<i64>,
) -> bool {
    given is None && range is Some ==> ticks_fit(ticks(range->0), range->0.timescale)
}

/// Where a segment starts.
pub open spec fn start_of(h: MediaHeader) -> int {
    segment_time(h.start_ms, h.time_range, |r: TimeRange| r.start_ticks)
}

/// How long a segment is.
pub open spec fn duration_of(h: MediaHeader) -> int {
    segment_time(h.duration_ms, h.time_range, |r: TimeRange| r.duration_ticks)
}

/// Whether a header's times can be computed.
pub open spec fn header_fits(h: MediaHeader) -> bool {
    &&& segment_time_fits(h.duration_ms, h.time_range, |r: TimeRange| r.duration_ticks)
    &&& segment_time_fits(h.start_ms, h.time_range, |r: TimeRange| r.start_ticks)
}

/// What is kept of a header.
pub open spec fn header_info(h: MediaHeader, audio_itag: i32) -> HeaderInfo {
    HeaderInfo {
        itag: or_zero_i32(h.itag),
        is_init_seg: or_false(h.is_init_seg),
        sequence_number: or_zero_i32(h.sequence_number),
        start_ms: start_of(h) as i64,
        duration_ms: duration_of(h) as i64,
        is_audio: or_zero_i32(h.itag) == audio_itag,
    }
}

/// A header takes its place among the announced segments, under its own number.
pub open spec fn on_media_header(s: SabrView, h: MediaHeader) -> SabrView {
    SabrView {
        header_map: s.header_map.insert(
            or_zero_u32(h.header_id),
            header_info(h, s.audio_itag),
        ),
        ..s
    }
}

/// Whether ticks can be converted.
fn check_ticks(ticks: Option<i64>, timescale: Option<i32>) -> (ok: bool)
    ensures
        ok == ticks_fit(ticks, timescale),
{
    let t = ticks.unwrap_or(0);
    let scale = timescale.unwrap_or(1000);
    scale <= 0 || (-9_223_372_036_854_775 <= t && t <= 9_223_372_036_854_775)
}

/// Converts ticks to milliseconds.
fn convert_ticks(ticks: Option<i64>, timescale: Option<i32>) -> (ms: i64)
    requires
        ticks_fit(ticks, timescale),
    ensures
        ms == ticks_to_ms(ticks, timescale),
{
    let t = ticks.unwrap_or(0);
    let scale = timescale.unwrap_or(1000);
    if scale > 0 {
        let scaled = t * 1000;
        let by = scale as i64;
        if scaled >= 0 {
            scaled / by
        } else {
            let positive: i64 = -scaled;
            let q: i64 = positive / by;
            assert(q >= 0) by (nonlinear_arith)
                requires
                    q == positive / by,
                    positive >= 0,
                    by > 0,
            ;
            -q
        }
    } else {
        0
    }
}

/// Whether a header's times can be computed without leaving the range of 64-bit integers.
pub fn media_header_fits(header: &MediaHeader) -> (ok: bool)
    ensures
        ok == header_fits(*header),
{
    match &header.time_range {
        Some(r) => {
            (header.duration_ms.is_some() || check_ticks(r.duration_ticks, r.timescale)) && (
            header.start_ms.is_some() || check_ticks(r.start_ticks, r.timescale))
        },
        None => true,
    }
}

/// Handles the announcement of a segment.
pub fn handle_media_header(
    state: &mut SabrState,
    decoded: Result<MediaHeader, String>,
) -> (res: Result<(), SabrError>)
    requires
        decoded matches Ok(h) ==> header_fits(h),
    ensures
        outcome_view(res) == decode_outcome(decoded),
        final(state)@ == match decoded {
            Ok(h) => on_media_header(old(state)@, h),
            Err(_) => old(state)@,
        },
{
    let hdr = match decoded {
        Ok(h) => h,
        Err(e) => return Err(SabrError::Decode(e)),
    };
    let header_id = hdr.header_id.unwrap_or(0);
    let itag = hdr.itag.unwrap_or(0);
    let is_audio = itag == state.audio_itag;
    let duration_ms = match hdr.duration_ms {
        Some(ms) => ms,
        None => match hdr.time_range {
            Some(r) => convert_ticks(r.duration_ticks, r.timescale),
            None => 0,
        },
    };
    let start_ms = match hdr.start_ms {
        Some(ms) => ms,
        None => match hdr.time_range {
            Some(r) => convert_ticks(r.start_ticks, r.timescale),
            None => 0,
        },
    };
    state.header_map.insert(
        header_id,
        HeaderInfo {
            itag,
            is_init_seg: hdr.is_init_seg.unwrap_or(false),
            sequence_number: hdr.sequence_number.unwrap_or(0),
            start_ms,
            duration_ms,
            is_audio,
        },
    );
    Ok(())
}

/// The announced segment that a media part or a media end refers to by its first byte.
pub open spec fn referred(s: SabrView, data: Seq<u8>) -> Option<HeaderInfo> {
    if data.len() > 0 && s.header_map.contains_key(data[0] as u32) {
        Some(s.header_map[data[0] as u32])
    } else {
        None
    }
}

/// The audio in a media part: what follows the first byte, where that byte refers to an announced
/// audio segment. An empty payload counts as none.
pub open spec fn media_payload(s: SabrView, data: Seq<u8>) -> Option<Seq<u8>> {
    match referred(s, data) {
        Some(info) => if info.is_audio && data.len() > 1 {
            Some(data.skip(1))
        } else {
            None
        },
        None => None,
    }
}

/// A media part changes nothing but the note that audio headers have been passed on.
pub open spec fn on_media(s: SabrView, data: Seq<u8>) -> SabrView {
    if media_payload(s, data) is Some && referred(s, data)->0.is_init_seg {
        SabrView { audio_init_sent: true, ..s }
    } else {
        s
    }
}

/// Handles a media part: its first byte names the segment, the rest is the payload.
pub fn handle_media(state: &mut SabrState, data: &[u8]) -> (res: Option<Bytes>)
    ensures
        opt_buffer(res) == media_payload(old(state)@, data@),
        final(state)@ == on_media(old(state)@, data@),
{
    if data.len() == 0 {
        return None;
    }
    let header_id = data[0] as u32;
    let payload = slice_subrange(data, 1, data.len());
    let info = match state.header_map.get(&header_id) {
        Some(i) => *i,
        None => return None,
    };
    if !info.is_audio || payload.len() == 0 {
        return None;
    }
    if info.is_init_seg {
        state.audio_init_sent = true;
    }
    assert(payload@ =~= data@.skip(1));
    Some(copy_from_slice(payload))
}

/// The audio segment that a media end completes: an announced one that holds media.
pub open spec fn completed(s: SabrView, data: Seq<u8>) -> Option<HeaderInfo> {
    match referred(s, data) {
        Some(info) => if info.is_audio && !info.is_init_seg {
            Some(info)
        } else {
            None
        },
        None => None,
    }
}

/// Whether the end of the segment that a media end completes is a 64-bit integer.
pub open spec fn end_fits(s: SabrView, data: Seq<u8>) -> bool {
    completed(s, data) matches Some(info) ==> i64::MIN <= info.start_ms + info.duration_ms
        <= i64::MAX
}

/// Completing a segment moves the progress forward, never back.
pub open spec fn on_media_end(s: SabrView, data: Seq<u8>) -> SabrView {
    match completed(s, data) {
        Some(info) => SabrView {
            audio_max_segment: if info.sequence_number > s.audio_max_segment {
                info.sequence_number
            } else {
                s.audio_max_segment
            },
            audio_downloaded_ms: if info.start_ms + info.duration_ms > s.audio_downloaded_ms {
                (info.start_ms + info.duration_ms) as i64
            } else {
                s.audio_downloaded_ms
            },
            ..s
        },
        None => s,
    }
}

/// Whether a media end can be handled without leaving the range of 64-bit integers.
pub fn media_end_fits(state: &SabrState, data: &[u8]) -> (ok: bool)
    ensures
        ok == end_fits(state@, data@),
{
    if data.len() == 0 {
        return true;
    }
    let header_id = data[0] as u32;
    match state.header_map.get(&header_id) {
        Some(info) => {
            if !info.is_audio || info.is_init_seg {
                true
            } else {
                info.start_ms.checked_add(info.duration_ms).is_some()
            }
        },
        None => true,
    }
}

/// Handles the end of a segment.
pub fn handle_media_end(state: &mut SabrState, data: &[u8])
    requires
        end_fits(old(state)@, data@),
    ensures
        final(state)@ == on_media_end(old(state)@, data@),
{
    if data.len() == 0 {
        return;
    }
    let header_id = data[0] as u32;
    let info = match state.header_map.get(&header_id) {
        Some(i) => *i,
        None => return,
    };
    if !info.is_audio || info.is_init_seg {
        return;
    }
    if info.sequence_number > state.audio_max_segment {
        state.audio_max_segment = info.sequence_number;
    }
    let seg_end = info.start_ms + info.duration_ms;
    if seg_end > state.audio_downloaded_ms {
        state.audio_downloaded_ms = seg_end;
    }
}

/// The server sets how long to wait and, where it gives one, the cookie.
pub open spec fn on_next_request_policy(s: SabrView, policy: NextRequestPolicy) -> SabrView {
    SabrView {
        backoff_time_ms: bits_u32(or_zero_i32(policy.backoff_time_ms) as int) as u32,
        playback_cookie: match policy.playback_cookie {
            Some(c) => Some(c@),
            None => s.playback_cookie,
        },
        ..s
    }
}

/// Handles what the server wants of the next request.
pub fn handle_next_request_policy(
    state: &mut SabrState,
    decoded: Result<NextRequestPolicy, String>,
) -> (res: Result<(), SabrError>)
    ensures
        outcome_view(res) == decode_outcome(decoded),
        final(state)@ == match decoded {
            Ok(policy) => on_next_request_policy(old(state)@, policy),
            Err(_) => old(state)@,
        },
{
    let policy = match decoded {
        Ok(p) => p,
        Err(e) => return Err(SabrError::Decode(e)),
    };
    state.backoff_time_ms = reinterpret_u32(policy.backoff_time_ms.unwrap_or(0));
    if let Some(cookie) = policy.playback_cookie {
        state.playback_cookie = Some(cookie);
    }
    Ok(())
}

/// The server may send the client elsewhere.
pub open spec fn on_redirect(s: SabrView, redirect: SabrRedirect) -> SabrView {
    match redirect.url {
        Some(url) => SabrView { server_url: url@, ..s },
        None => s,
    }
}

/// Handles a redirect.
pub fn handle_sabr_redirect(
    state: &mut SabrState,
    decoded: Result<SabrRedirect, String>,
) -> (res: Result<(), SabrError>)
    ensures
        outcome_view(res) == decode_outcome(decoded),
        final(state)@ == match decoded {
            Ok(redirect) => on_redirect(old(state)@, redirect),
            Err(_) => old(state)@,
        },
{
    let redirect = match decoded {
        Ok(r) => r,
        Err(e) => return Err(SabrError::Decode(e)),
    };
    if let Some(url) = redirect.url {
        state.server_url = url;
    }
    Ok(())
}

/// The failure that a server error stands for: its kind, `unknown` where none is given, and its
/// code.
pub open spec fn server_failure(decoded: Result<ServerError, String>) -> SabrErrorView {
    match decoded {
        Ok(e) => SabrErrorView::Server {
            kind: match e.kind {
                Some(k) => k@,
                None => "unknown"@,
            },
            code: or_zero_i32(e.code),
        },
        Err(text) => SabrErrorView::Decode(text@),
    }
}

/// Handles an error of the server, which always ends the request.
pub fn handle_sabr_error(decoded: Result<ServerError, String>) -> (res: Result<(), SabrError>)
    ensures
        outcome_view(res) == Err::<(), SabrErrorView>(server_failure(decoded)),
{
    let err = match decoded {
        Ok(e) => e,
        Err(e) => return Err(SabrError::Decode(e)),
    };
    let kind = match err.kind {
        Some(k) => k,
        None => "unknown".to_owned(),
    };
    Err(SabrError::Server { kind, code: err.code.unwrap_or(0) })
}

/// A context gets a value, and is marked to be sent where the server says so.
pub open spec fn on_context_update(s: SabrView, update: SabrContextUpdate) -> SabrView {
    let kind = or_zero_i32(update.context_type);
    SabrView {
        sabr_contexts: match update.value {
            Some(v) => s.sabr_contexts.insert(kind, v@),
            None => s.sabr_contexts,
        },
        sabr_contexts_send: if or_false(update.send_by_default) {
            s.sabr_contexts_send.insert(kind)
        } else {
            s.sabr_contexts_send
        },
        ..s
    }
}

/// Handles a context's new value.
pub fn handle_context_update(
    state: &mut SabrState,
    decoded: Result<SabrContextUpdate, String>,
) -> (res: Result<(), SabrError>)
    ensures
        outcome_view(res) == decode_outcome(decoded),
        final(state)@ == match decoded {
            Ok(update) => on_context_update(old(state)@, update),
            Err(_) => old(state)@,
        },
{
    let update = match decoded {
        Ok(u) => u,
        Err(e) => return Err(SabrError::Decode(e)),
    };
    let kind = update.context_type.unwrap_or(0);
    let send = update.send_by_default.unwrap_or(false);
    if let Some(value) = update.value {
        let ghost before = state.sabr_contexts@;
        let ghost content = value@;
        state.sabr_contexts.insert(kind, value);
        assert(values_view(state.sabr_contexts@) =~= values_view(before).insert(kind, content));
    }
    if send {
        state.sabr_contexts_send.insert(kind);
    }
    Ok(())
}

/// The types that start are to be sent, unless they stop in the same message; the types that are
/// discarded are forgotten for good.
pub open spec fn on_sending_policy(s: SabrView, policy: SabrContextSendingPolicy) -> SabrView {
    SabrView {
        sabr_contexts_send: s.sabr_contexts_send.union(policy.start_policy@.to_set()).difference(
            policy.stop_policy@.to_set(),
        ),
        sabr_contexts_discard: s.sabr_contexts_discard.union(policy.discard_policy@.to_set()),
        sabr_contexts: s.sabr_contexts.remove_keys(policy.discard_policy@.to_set()),
        ..s
    }
}

/// The elements of a list up to one place further.
proof fn lemma_take_next(list: Seq<i32>, i: int)
    requires
        0 <= i < list.len(),
    ensures
        list.take(i + 1).to_set() == list.take(i).to_set().insert(list[i]),
{
    let wider = list.take(i + 1);
    assert(wider =~= list.take(i).push(list[i]));
    assert forall|x: i32| wider.to_set().contains(x) implies list.take(i).to_set().insert(
        list[i],
    ).contains(x) by {
        let k = choose|k: int| 0 <= k < wider.len() && wider[k] == x;
        if k < i {
            assert(list.take(i)[k] == x);
        }
    }
    assert forall|x: i32| list.take(i).to_set().insert(list[i]).contains(x) implies
        wider.to_set().contains(x) by {
        if x == list[i] {
            assert(wider[i] == x);
        } else {
            let k = choose|k: int| 0 <= k < list.take(i).len() && list.take(i)[k] == x;
            assert(wider[k] == x);
        }
    }
    assert(wider.to_set() =~= list.take(i).to_set().insert(list[i]));
}

/// Adds the elements of a list to a set.
fn add_all(set: &mut HashSet<i32>, list: &Vec<i32>)
    ensures
        final(set)@ == old(set)@.union(list@.to_set()),
{
    let mut i: usize = 0;
    assert(set@ =~= old(set)@.union(list@.take(0).to_set()));
    while i < list.len()
        invariant
            i <= list@.len(),
            set@ == old(set)@.union(list@.take(i as int).to_set()),
        decreases list@.len() - i,
    {
        set.insert(list[i]);
        proof {
            lemma_take_next(list@, i as int);
            assert(set@ =~= old(set)@.union(list@.take(i + 1).to_set()));
        }
        i += 1;
    }
    assert(list@.take(i as int) =~= list@);
}

/// Removes the elements of a list from a set.
fn remove_all(set: &mut HashSet<i32>, list: &Vec<i32>)
    ensures
        final(set)@ == old(set)@.difference(list@.to_set()),
{
    let mut i: usize = 0;
    assert(set@ =~= old(set)@.difference(list@.take(0).to_set()));
    while i < list.len()
        invariant
            i <= list@.len(),
            set@ == old(set)@.difference(list@.take(i as int).to_set()),
        decreases list@.len() - i,
    {
        set.remove(&list[i]);
        proof {
            lemma_take_next(list@, i as int);
            assert(set@ =~= old(set)@.difference(list@.take(i + 1).to_set()));
        }
        i += 1;
    }
    assert(list@.take(i as int) =~= list@);
}

/// Removes the entries under the elements of a list from a map.
fn forget_all(map: &mut HashMap<i32, Vec<u8>>, list: &Vec<i32>)
    ensures
        final(map)@ == old(map)@.remove_keys(list@.to_set()),
{
    let mut i: usize = 0;
    assert(map@ =~= old(map)@.remove_keys(list@.take(0).to_set()));
    while i < list.len()
        invariant
            i <= list@.len(),
            map@ == old(map)@.remove_keys(list@.take(i as int).to_set()),
        decreases list@.len() - i,
    {
        map.remove(&list[i]);
        proof {
            lemma_take_next(list@, i as int);
            assert(map@ =~= old(map)@.remove_keys(list@.take(i + 1).to_set()));
        }
        i += 1;
    }
    assert(list@.take(i as int) =~= list@);
}

/// Handles which contexts are to be sent.
pub fn handle_context_sending_policy(
    state: &mut SabrState,
    decoded: Result<SabrContextSendingPolicy, String>,
) -> (res: Result<(), SabrError>)
    ensures
        outcome_view(res) == decode_outcome(decoded),
        final(state)@ == match decoded {
            Ok(policy) => on_sending_policy(old(state)@, policy),
            Err(_) => old(state)@,
        },
{
    let policy = match decoded {
        Ok(p) => p,
        Err(e) => return Err(SabrError::Decode(e)),
    };
    add_all(&mut state.sabr_contexts_send, &policy.start_policy);
    remove_all(&mut state.sabr_contexts_send, &policy.stop_policy);
    add_all(&mut state.sabr_contexts_discard, &policy.discard_policy);
    let ghost before = state.sabr_contexts@;
    forget_all(&mut state.sabr_contexts, &policy.discard_policy);
    assert(values_view(state.sabr_contexts@) =~= values_view(before).remove_keys(
        policy.discard_policy@.to_set(),
    ));
    Ok(())
}

/// Handles whether the server wants the client to attest itself, which changes nothing.
pub fn handle_stream_protection(
    decoded: Result<StreamProtectionStatus, String>,
) -> (res: Result<(), SabrError>)
    ensures
        outcome_view(res) == decode_outcome(decoded),
{
    match decoded {
        Ok(_) => Ok(()),
        Err(e) => Err(SabrError::Decode(e)),
    }
}

} // verus!
