//! What holds of the questions about a track and of the answers, for every track.
use vstd::prelude::*;
use crate::http::Reply;
use crate::innertube::{
    android_call, lookup_begin, lookup_error_text, lookup_next, track_in_body, track_in_reply,
    track_of, user_of_token, web_remix_call, Attempt, LookupErrorView, LookupStepView,
    StreamInfoView,
};
use crate::json::{
    fit_i64, fit_u64, json_document, leaf_integer, leaf_list, leaf_text, JsonLeaf, JsonView,
};
use crate::player_response::{
    details_of, streaming_of, DetailsView, FormatEntryView, StreamingView,
};
use crate::sabr::client::{
    android_client_spec, client_view, ios_client_spec, player_call, po_token_body, po_token_of,
    web_remix_client_spec, InnerTubeClient,
};
use crate::sabr::encoding::url_safe_bytes;
use crate::sabr::error::{error_text, SabrErrorView};
use crate::sabr::numbers::{bits_u32, low_i32};
use crate::sabr::player_data::{
    first_attempt, formats_of, player_data_in_body, player_data_in_reply,
    player_data_of, search_call, search_next, ustreamer_bytes, PlayerAttempt, PlayerDataView,
    PlayerSearchView, SearchStepView,
};
use crate::text::{decimal, signed_decimal, u64_of_text};

verus! {

/// How many members an object has.
pub open spec fn size(j: JsonView) -> nat {
    j->Object_0.len()
}

/// Whether an object has a member.
pub open spec fn holds(j: JsonView, key: Seq<char>, value: JsonView) -> bool {
    j is Object && j->Object_0.contains((key, value))
}

/// Whether an object has this member at the place `i`.
pub open spec fn holds_at(j: JsonView, i: int, key: Seq<char>, value: JsonView) -> bool {
    j is Object && 0 <= i < j->Object_0.len() && j->Object_0[i] == (key, value)
}

/// What stands at a place is there.
proof fn lemma_holds_at(j: JsonView, i: int, key: Seq<char>, value: JsonView)
    requires
        holds_at(j, i, key, value),
    ensures
        holds(j, key, value),
{
    assert(j->Object_0[i] == (key, value));
}

/// Whichever client was asked, a track that it yields ends the lookup, with the title and the
/// length that it gave and the local server's URL.
pub proof fn law_found_track_is_kept(
    video_id: Seq<char>,
    attempt: Attempt,
    title: Seq<char>,
    duration: u64,
)
    ensures
        lookup_next(video_id, attempt, Ok((title, duration))) == LookupStepView::Found(
            StreamInfoView {
                title,
                duration,
                stream_url: "http://localhost:8008/stream/"@ + video_id,
            },
        ),
{
}

/// After a failure of the music web client Android is asked, for the same video; after one of
/// Android the id stands in for the title and the length is zero.
pub proof fn law_failed_client_is_followed(video_id: Seq<char>, e: LookupErrorView)
    ensures
        lookup_next(video_id, Attempt::WebRemix, Err(e)) == LookupStepView::Ask(
            video_id,
            Attempt::Android,
            android_call(video_id),
        ),
        lookup_next(video_id, Attempt::Android, Err(e)) == LookupStepView::Found(
            StreamInfoView {
                title: video_id,
                duration: 0,
                stream_url: "http://localhost:8008/stream/"@ + video_id,
            },
        ),
{
}

/// A lookup begins with the music web client exactly where there is a token, and with that token.
pub proof fn law_token_decides_the_first_client(video_id: Seq<char>, token: Seq<char>)
    ensures
        lookup_begin(video_id, Some(token)) == LookupStepView::Ask(
            video_id,
            Attempt::WebRemix,
            web_remix_call(video_id, token),
        ),
        lookup_begin(video_id, None) == LookupStepView::Ask(
            video_id,
            Attempt::Android,
            android_call(video_id),
        ),
{
}

/// The token is sent for the scope of one video, as the only token.
pub proof fn law_token_is_sent_for_the_video(token: Seq<char>)
    ensures
        size(user_of_token(token)) == 1,
        user_of_token(token)->Object_0[0].0 == "credentialTransferTokens"@,
        user_of_token(token)->Object_0[0].1 is List,
        user_of_token(token)->Object_0[0].1->List_0.len() == 1,
        ({
            let only = user_of_token(token)->Object_0[0].1->List_0[0];
            &&& size(only) == 2
            &&& holds(only, "scope"@, JsonView::Text("VIDEO"@))
            &&& holds(only, "token"@, JsonView::Text(token))
        }),
{
    let only = user_of_token(token)->Object_0[0].1->List_0[0];
    lemma_holds_at(only, 0, "scope"@, JsonView::Text("VIDEO"@));
    lemma_holds_at(only, 1, "token"@, JsonView::Text(token));
}

/// Whether a body asks for the video in the context that is its second member, and for nothing
/// else.
pub open spec fn asks_for(body: JsonView, video_id: Seq<char>) -> bool {
    &&& body is Object
    &&& size(body) >= 4
    &&& holds(body, "videoId"@, JsonView::Text(video_id))
    &&& body->Object_0[1].0 == "context"@
    &&& holds(body, "contentCheckOk"@, JsonView::Bool(true))
    &&& holds(body, "racyCheckOk"@, JsonView::Bool(true))
}

/// The lookup's question to the music web client: which video, as whom, and with which token.
pub proof fn law_web_client_is_asked_with_token(video_id: Seq<char>, token: Seq<char>)
    ensures
        ({
            let call = web_remix_call(video_id, token);
            let context = call.body->Object_0[1].1;
            let client = context->Object_0[0].1;
            &&& call.url == "https://music.youtube.com/youtubei/v1/player?prettyPrint=false"@
            &&& call.headers == seq![
                (
                    "User-Agent"@,
                    "Mozilla/5.0 (Windows NT 10.0; Win64; x64) AppleWebKit/537.36 (KHTML, like Gecko) Chrome/131.0.0.0 Safari/537.36"@,
                ),
                ("Content-Type"@, "application/json"@),
                ("Origin"@, "https://music.youtube.com"@),
                ("Referer"@, "https://music.youtube.com/"@),
            ]
            &&& asks_for(call.body, video_id)
            &&& size(call.body) == 4
            &&& context is Object && size(context) == 2
            &&& context->Object_0[0].0 == "client"@
            &&& holds(context, "user"@, user_of_token(token))
            &&& client is Object && size(client) == 4
            &&& holds(client, "clientName"@, JsonView::Text("WEB_REMIX"@))
            &&& holds(client, "clientVersion"@, JsonView::Text("1.20241120.01.00"@))
            &&& holds(client, "hl"@, JsonView::Text("en"@))
            &&& holds(client, "gl"@, JsonView::Text("US"@))
        }),
{
    let call = web_remix_call(video_id, token);
    let context = call.body->Object_0[1].1;
    let client = context->Object_0[0].1;
    lemma_holds_at(call.body, 0, "videoId"@, JsonView::Text(video_id));
    lemma_holds_at(call.body, 2, "contentCheckOk"@, JsonView::Bool(true));
    lemma_holds_at(call.body, 3, "racyCheckOk"@, JsonView::Bool(true));
    lemma_holds_at(context, 1, "user"@, user_of_token(token));
    lemma_holds_at(client, 0, "clientName"@, JsonView::Text("WEB_REMIX"@));
    lemma_holds_at(client, 1, "clientVersion"@, JsonView::Text("1.20241120.01.00"@));
    lemma_holds_at(client, 2, "hl"@, JsonView::Text("en"@));
    lemma_holds_at(client, 3, "gl"@, JsonView::Text("US"@));
}

/// The lookup's question to the Android client: which video and as whom, with no token.
pub proof fn law_android_is_asked_without_token(video_id: Seq<char>)
    ensures
        ({
            let call = android_call(video_id);
            let context = call.body->Object_0[1].1;
            let client = context->Object_0[0].1;
            &&& call.url == "https://www.youtube.com/youtubei/v1/player?prettyPrint=false"@
            &&& call.headers == seq![
                (
                    "User-Agent"@,
                    "com.google.android.youtube/19.44.38 (Linux; U; Android 14; en_US; Pixel 8) gzip"@,
                ),
                ("Content-Type"@, "application/json"@),
            ]
            &&& asks_for(call.body, video_id)
            &&& size(call.body) == 4
            &&& context is Object && size(context) == 1
            &&& context->Object_0[0].0 == "client"@
            &&& client is Object && size(client) == 5
            &&& holds(client, "clientName"@, JsonView::Text("ANDROID"@))
            &&& holds(client, "clientVersion"@, JsonView::Text("19.44.38"@))
            &&& holds(client, "androidSdkVersion"@, JsonView::Int(34))
            &&& holds(client, "hl"@, JsonView::Text("en"@))
            &&& holds(client, "gl"@, JsonView::Text("US"@))
        }),
{
    let call = android_call(video_id);
    let context = call.body->Object_0[1].1;
    let client = context->Object_0[0].1;
    lemma_holds_at(call.body, 0, "videoId"@, JsonView::Text(video_id));
    lemma_holds_at(call.body, 2, "contentCheckOk"@, JsonView::Bool(true));
    lemma_holds_at(call.body, 3, "racyCheckOk"@, JsonView::Bool(true));
    lemma_holds_at(client, 0, "clientName"@, JsonView::Text("ANDROID"@));
    lemma_holds_at(client, 1, "clientVersion"@, JsonView::Text("19.44.38"@));
    lemma_holds_at(client, 2, "androidSdkVersion"@, JsonView::Int(34));
    lemma_holds_at(client, 3, "hl"@, JsonView::Text("en"@));
    lemma_holds_at(client, 4, "gl"@, JsonView::Text("US"@));
}

/// A document gives a text, an integer or the length of a list exactly where one stands at the
/// place asked for, and an integer only where it fits.
pub proof fn law_document_gives_what_stands_there(
    doc: Map<Seq<char>, JsonLeaf>,
    at: Seq<char>,
)
    ensures
        !doc.contains_key(at) ==> leaf_text(doc, at) is None && leaf_integer(doc, at) is None
            && leaf_list(doc, at) is None,
        doc.contains_key(at) ==> match doc[at] {
            JsonLeaf::Text(t) => leaf_text(doc, at) == Some(t) && leaf_integer(doc, at) is None
                && leaf_list(doc, at) is None,
            JsonLeaf::Integer(n) => leaf_text(doc, at) is None && leaf_integer(doc, at) == Some(n)
                && leaf_list(doc, at) is None,
            JsonLeaf::List(n) => leaf_text(doc, at) is None && leaf_integer(doc, at) is None
                && leaf_list(doc, at) == Some(n),
        },
        forall|n: i64| fit_i64(Some(n as int)) == Some(n),
        forall|n: u64| fit_u64(Some(n as int)) == Some(n),
        forall|n: int| n < i64::MIN || n > i64::MAX ==> #[trigger] fit_i64(Some(n)) is None,
        forall|n: int| n < 0 || n > u64::MAX ==> #[trigger] fit_u64(Some(n)) is None,
        fit_i64(None) is None && fit_u64(None) is None,
{
}

/// The playability, the title and the length are the texts at their places in the document.
pub proof fn law_details_stand_at_their_places(doc: Map<Seq<char>, JsonLeaf>)
    ensures
        details_of(doc).status == leaf_text(doc, "/playabilityStatus/status"@),
        details_of(doc).reason == leaf_text(doc, "/playabilityStatus/reason"@),
        details_of(doc).title == leaf_text(doc, "/videoDetails/title"@),
        details_of(doc).length_seconds == leaf_text(doc, "/videoDetails/lengthSeconds"@),
{
}

/// The streaming data are what stands at their places in the document, and every format of the list
/// is read, each from its own entry.
pub proof fn law_every_format_is_read(doc: Map<Seq<char>, JsonLeaf>, i: nat)
    ensures
        ({
            let s = streaming_of(doc);
            let n = leaf_list(doc, "/streamingData/adaptiveFormats"@);
            let entry = "/streamingData/adaptiveFormats/"@ + decimal(i);
            &&& s.server_abr_url == leaf_text(doc, "/streamingData/serverAbrStreamingUrl"@)
            &&& s.ustreamer_config == leaf_text(
                doc,
                "/playerConfig/mediaCommonConfig/mediaUstreamerRequestConfig/videoPlaybackUstreamerConfig"@,
            )
            &&& s.formats is Some <==> n is Some
            &&& n is Some ==> s.formats->0.len() == n->0
            &&& n is Some && i < n->0 ==> {
                let f = s.formats->0[i as int];
                &&& f.itag == fit_i64(leaf_integer(doc, entry + "/itag"@))
                &&& f.last_modified == leaf_text(doc, entry + "/lastModified"@)
                &&& f.xtags == leaf_text(doc, entry + "/xtags"@)
                &&& f.mime_type == leaf_text(doc, entry + "/mimeType"@)
                &&& f.bitrate == fit_u64(leaf_integer(doc, entry + "/bitrate"@))
            }
        }),
{
}

/// A playable video has the title and the length that the answer gives: the id stands in for a
/// title that is not given, zero for a length that is not given or is no number.
pub proof fn law_playable_track(
    video_id: Seq<char>,
    d: DetailsView,
    title: Seq<char>,
    n: u64,
    length: Seq<char>,
)
    requires
        d.status == Some("OK"@),
    ensures
        track_of(video_id, d) is Ok,
        d.title == Some(title) ==> track_of(video_id, d)->Ok_0.0 == title,
        d.title is None ==> track_of(video_id, d)->Ok_0.0 == video_id,
        d.length_seconds == Some(length) && u64_of_text(length) == Some(n) ==> track_of(
            video_id,
            d,
        )->Ok_0.1 == n,
        d.length_seconds == Some(length) && u64_of_text(length) is None ==> track_of(
            video_id,
            d,
        )->Ok_0.1 == 0,
        d.length_seconds is None ==> track_of(video_id, d)->Ok_0.1 == 0,
{
}

/// Any other video is refused, with the status and the reason that the answer gives.
pub proof fn law_unplayable_track(video_id: Seq<char>, d: DetailsView)
    requires
        d.status != Some("OK"@),
    ensures
        track_of(video_id, d) is Err,
        track_of(video_id, d)->Err_0 is NotPlayable,
        track_of(video_id, d)->Err_0->video_id == video_id,
        d.status is Some ==> track_of(video_id, d)->Err_0->status == d.status->0,
        d.status is None ==> track_of(video_id, d)->Err_0->status == "UNKNOWN"@,
        d.reason is Some ==> track_of(video_id, d)->Err_0->reason == d.reason->0,
        d.reason is None ==> track_of(video_id, d)->Err_0->reason == "unknown"@,
{
    reveal_strlit("UNKNOWN");
    reveal_strlit("OK");
    assert("UNKNOWN"@.len() == 7 && "OK"@.len() == 2);
}

/// A reply without a body fails as it says; a body is judged by what the document in it holds.
pub proof fn law_reply_of_lookup(video_id: Seq<char>, reply: Reply)
    ensures
        match reply {
            Reply::Failed(why) => track_in_reply(video_id, reply) == Err::<(Seq<char>, u64), _>(
                LookupErrorView::Transport(why@),
            ),
            Reply::Refused(status) => track_in_reply(video_id, reply) == Err::<
                (Seq<char>, u64),
                _,
            >(LookupErrorView::Status(status@)),
            Reply::Body(body) => {
                &&& track_in_reply(video_id, reply) == track_in_body(video_id, body@)
                &&& json_document(body@) matches Some(doc) ==> track_in_body(video_id, body@)
                    == track_of(video_id, details_of(doc))
                &&& json_document(body@) is None ==> track_in_body(video_id, body@) == Err::<
                    (Seq<char>, u64),
                    _,
                >(LookupErrorView::NotJson)
            },
        },
{
}

/// Each failure of a lookup is told with all that is known of it.
pub proof fn law_lookup_failures_are_told(a: Seq<char>, b: Seq<char>, c: Seq<char>)
    ensures
        lookup_error_text(LookupErrorView::Transport(a)) == a,
        lookup_error_text(LookupErrorView::Status(a)) == "/player HTTP "@ + a,
        lookup_error_text(LookupErrorView::NotJson) == "error decoding response body"@,
        lookup_error_text(LookupErrorView::NotPlayable { video_id: a, status: b, reason: c }) == a
            + ": "@ + b + " ("@ + c + ")"@,
{
}

/// Each failure of a stream is told with all that is known of it.
pub proof fn law_stream_failures_are_told(a: Seq<char>, b: Seq<char>, c: Seq<char>, n: i32)
    ensures
        error_text(SabrErrorView::Transport(a)) == a,
        error_text(SabrErrorView::PlayerStatus(a)) == "innertube /player returned HTTP "@ + a,
        error_text(SabrErrorView::NotJson) == "error decoding response body"@,
        error_text(SabrErrorView::NotPlayable { video_id: a, status: b, reason: c }) == "video "@ + a
            + " not playable: "@ + b + " ("@ + c + ")"@,
        error_text(SabrErrorView::NoStreamingUrl) == "missing serverAbrStreamingUrl"@,
        error_text(SabrErrorView::NoFormats) == "missing adaptiveFormats"@,
        error_text(SabrErrorView::NoAudioFormat) == "no suitable audio format found"@,
        error_text(SabrErrorView::NoVideoFormat)
            == "no video format found (needed for SABR discard trick)"@,
        error_text(SabrErrorView::RequestStatus(a)) == "SABR request returned HTTP "@ + a,
        error_text(SabrErrorView::Decode(a)) == a,
        error_text(SabrErrorView::Server { kind: a, code: n }) == "SABR error: type="@ + a
            + ", code="@ + signed_decimal(n as int),
        error_text(SabrErrorView::RetriesExhausted(a)) == "SABR failed after 5 retries: "@ + a,
{
}

/// The clients are who they say they are.
pub proof fn law_clients_present_themselves()
    ensures
        ios_client_spec().client_name@ == "IOS"@,
        ios_client_spec().client_version@ == "19.45.4"@,
        ios_client_spec().device_make@ == "Apple"@,
        ios_client_spec().device_model@ == "iPhone16,2"@,
        ios_client_spec().os_name@ == "iPhone"@,
        ios_client_spec().os_version@ == "18.1.0.22B83"@,
        ios_client_spec().user_agent@
            == "com.google.ios.youtube/19.45.4 (iPhone16,2; U; CPU iOS 18_1_0 like Mac OS X;)"@,
        ios_client_spec().client_name_id == 5,
        ios_client_spec().android_sdk_version is None,
        android_client_spec().client_name@ == "ANDROID"@,
        android_client_spec().client_version@ == "19.44.38"@,
        android_client_spec().device_make@ == "Google"@,
        android_client_spec().device_model@ == "Pixel 8"@,
        android_client_spec().os_name@ == "Android"@,
        android_client_spec().os_version@ == "14"@,
        android_client_spec().user_agent@
            == "com.google.android.youtube/19.44.38 (Linux; U; Android 14; en_US; Pixel 8) gzip"@,
        android_client_spec().client_name_id == 3,
        android_client_spec().android_sdk_version == Some(34i32),
        web_remix_client_spec().client_name@ == "WEB_REMIX"@,
        web_remix_client_spec().client_version@ == "1.20241120.01.00"@,
        web_remix_client_spec().device_make@ == ""@,
        web_remix_client_spec().device_model@ == ""@,
        web_remix_client_spec().os_name@ == ""@,
        web_remix_client_spec().os_version@ == ""@,
        web_remix_client_spec().user_agent@
            == "Mozilla/5.0 (Windows NT 10.0; Win64; x64) AppleWebKit/537.36 (KHTML, like Gecko) Chrome/131.0.0.0 Safari/537.36"@,
        web_remix_client_spec().client_name_id == 67,
        web_remix_client_spec().android_sdk_version is None,
{
}

/// Every client gives its name and version; one with a device gives all of that too, and one with
/// an SDK version that; nothing else is given.
pub proof fn law_client_gives_what_it_has(c: InnerTubeClient)
    ensures
        ({
            let j = client_view(c);
            let device: nat = if c.device_make@.len() > 0 {
                4
            } else {
                0
            };
            let sdk: nat = if c.android_sdk_version is Some {
                1
            } else {
                0
            };
            &&& j is Object && size(j) == 4 + device + sdk
            &&& holds(j, "clientName"@, JsonView::Text(c.client_name@))
            &&& holds(j, "clientVersion"@, JsonView::Text(c.client_version@))
            &&& holds(j, "hl"@, JsonView::Text("en"@))
            &&& holds(j, "gl"@, JsonView::Text("US"@))
            &&& c.device_make@.len() > 0 ==> {
                &&& holds(j, "deviceMake"@, JsonView::Text(c.device_make@))
                &&& holds(j, "deviceModel"@, JsonView::Text(c.device_model@))
                &&& holds(j, "osName"@, JsonView::Text(c.os_name@))
                &&& holds(j, "osVersion"@, JsonView::Text(c.os_version@))
            }
            &&& c.android_sdk_version matches Some(n) ==> holds(
                j,
                "androidSdkVersion"@,
                JsonView::Int(n as int),
            )
        }),
{
    let j = client_view(c);
    lemma_holds_at(j, 0, "clientName"@, JsonView::Text(c.client_name@));
    lemma_holds_at(j, 1, "clientVersion"@, JsonView::Text(c.client_version@));
    lemma_holds_at(j, 2, "hl"@, JsonView::Text("en"@));
    lemma_holds_at(j, 3, "gl"@, JsonView::Text("US"@));
    if c.device_make@.len() > 0 {
        lemma_holds_at(j, 4, "deviceMake"@, JsonView::Text(c.device_make@));
        lemma_holds_at(j, 5, "deviceModel"@, JsonView::Text(c.device_model@));
        lemma_holds_at(j, 6, "osName"@, JsonView::Text(c.os_name@));
        lemma_holds_at(j, 7, "osVersion"@, JsonView::Text(c.os_version@));
    }
    if let Some(n) = c.android_sdk_version {
        lemma_holds_at(j, size(j) - 1, "androidSdkVersion"@, JsonView::Int(n as int));
    }
}

/// The question for streaming data goes where the client's name says, under its own user agent.
pub proof fn law_question_goes_where_the_client_belongs(
    video_id: Seq<char>,
    c: InnerTubeClient,
    ctt: Option<Seq<char>>,
    po_token: Option<Seq<char>>,
)
    ensures
        c.client_name@ == "WEB_REMIX"@ ==> {
            let call = player_call(video_id, c, ctt, po_token);
            &&& call.url == "https://music.youtube.com/youtubei/v1/player?prettyPrint=false"@
            &&& call.headers == seq![
                ("User-Agent"@, c.user_agent@),
                ("Content-Type"@, "application/json"@),
                ("Origin"@, "https://music.youtube.com"@),
                ("Referer"@, "https://music.youtube.com/"@),
            ]
        },
        c.client_name@ != "WEB_REMIX"@ ==> {
            let call = player_call(video_id, c, ctt, po_token);
            &&& call.url == "https://www.youtube.com/youtubei/v1/player?prettyPrint=false"@
            &&& call.headers == seq![
                ("User-Agent"@, c.user_agent@),
                ("Content-Type"@, "application/json"@),
            ]
        },
{
    let call = player_call(video_id, c, ctt, po_token);
    if c.client_name@ == "WEB_REMIX"@ {
        assert(call.headers =~= seq![
            ("User-Agent"@, c.user_agent@),
            ("Content-Type"@, "application/json"@),
            ("Origin"@, "https://music.youtube.com"@),
            ("Referer"@, "https://music.youtube.com/"@),
        ]);
    } else {
        assert(call.headers =~= seq![
            ("User-Agent"@, c.user_agent@),
            ("Content-Type"@, "application/json"@),
        ]);
    }
}

/// The question for streaming data names the video and the client, carries each token exactly where
/// there is one, and nothing else.
pub proof fn law_question_carries_the_tokens(
    video_id: Seq<char>,
    c: InnerTubeClient,
    ctt: Option<Seq<char>>,
    po_token: Option<Seq<char>>,
)
    ensures
        ({
            let body = player_call(video_id, c, ctt, po_token).body;
            let context = body->Object_0[1].1;
            &&& asks_for(body, video_id)
            &&& size(body) == (if po_token is Some {
                5nat
            } else {
                4
            })
            &&& po_token matches Some(t) ==> {
                &&& body->Object_0[4].0 == "serviceIntegrityDimensions"@
                &&& body->Object_0[4].1 is Object
                &&& size(body->Object_0[4].1) == 1
                &&& holds(body->Object_0[4].1, "poToken"@, JsonView::Text(t))
            }
            &&& context is Object
            &&& size(context) == (if ctt is Some {
                2nat
            } else {
                1
            })
            &&& holds(context, "client"@, client_view(c))
            &&& ctt matches Some(t) ==> holds(context, "user"@, user_of_token(t))
        }),
{
    let body = player_call(video_id, c, ctt, po_token).body;
    let context = body->Object_0[1].1;
    lemma_holds_at(body, 0, "videoId"@, JsonView::Text(video_id));
    lemma_holds_at(body, 2, "contentCheckOk"@, JsonView::Bool(true));
    lemma_holds_at(body, 3, "racyCheckOk"@, JsonView::Bool(true));
    lemma_holds_at(context, 0, "client"@, client_view(c));
    if let Some(t) = ctt {
        lemma_holds_at(context, 1, "user"@, user_of_token(t));
    }
    if let Some(t) = po_token {
        lemma_holds_at(body->Object_0[4].1, 0, "poToken"@, JsonView::Text(t));
    }
}

/// The token service is asked for a token bound to the video, and its answer is the text under
/// `poToken`; without one there is no token.
pub proof fn law_token_service(video_id: Seq<char>, body: Vec<u8>, why: String)
    ensures
        po_token_body(video_id) is Object,
        size(po_token_body(video_id)) == 1,
        holds(po_token_body(video_id), "content_binding"@, JsonView::Text(video_id)),
        po_token_of(Reply::Failed(why)) is None,
        po_token_of(Reply::Refused(why)) is None,
        json_document(body@) is None ==> po_token_of(Reply::Body(body)) is None,
        json_document(body@) matches Some(doc) ==> po_token_of(Reply::Body(body)) == leaf_text(
            doc,
            "/poToken"@,
        ),
{
    lemma_holds_at(
        po_token_body(video_id),
        0,
        "content_binding"@,
        JsonView::Text(video_id),
    );
}

/// Keeping the low 32 bits changes a number by a multiple of two to the 32nd, into the range of
/// signed 32-bit integers; reading the bits as unsigned changes none that is not negative.
pub proof fn law_low_bits(n: int)
    ensures
        -0x8000_0000 <= low_i32(n) <= 0x7fff_ffff,
        (n - low_i32(n)) % 0x1_0000_0000 == 0,
        -0x8000_0000 <= n <= 0x7fff_ffff ==> low_i32(n) == n,
        n >= 0 ==> bits_u32(n) == n,
        n < 0 ==> bits_u32(n) - n == 0x1_0000_0000,
{
}

/// The formats are the entries, in their order; what an entry does not give, or gives as no number,
/// counts as zero or nothing.
pub proof fn law_formats_are_the_entries(entries: Seq<FormatEntryView>, i: int)
    requires
        0 <= i < entries.len(),
    ensures
        formats_of(entries).len() == entries.len(),
        ({
            let e = entries[i];
            let f = formats_of(entries)[i];
            &&& e.itag matches Some(n) ==> f.itag == low_i32(n as int)
            &&& e.itag is None ==> f.itag == 0
            &&& e.last_modified matches Some(t) ==> f.last_modified == (match u64_of_text(t) {
                Some(n) => n,
                None => 0,
            })
            &&& e.last_modified is None ==> f.last_modified == 0
            &&& f.xtags == e.xtags
            &&& e.mime_type is Some ==> f.mime_type == e.mime_type->0
            &&& e.mime_type is None ==> f.mime_type.len() == 0
            &&& e.bitrate is Some ==> f.bitrate == e.bitrate->0
            &&& e.bitrate is None ==> f.bitrate == 0
        }),
{
    reveal_strlit("");
    if let Some(n) = entries[i].itag {
        law_low_bits(n as int);
    }
}

/// A playable video with a streaming URL and a list of formats can be streamed, with all of what the
/// answer gives.
pub proof fn law_streaming_data_are_kept(
    video_id: Seq<char>,
    d: DetailsView,
    s: StreamingView,
    config: Seq<u8>,
)
    requires
        d.status == Some("OK"@),
        s.server_abr_url is Some,
        s.formats is Some,
    ensures
        player_data_of(video_id, d, s, config) is Ok,
        ({
            let data = player_data_of(video_id, d, s, config)->Ok_0;
            &&& data.server_abr_streaming_url == s.server_abr_url->0
            &&& data.ustreamer_config == config
            &&& data.formats == formats_of(s.formats->0)
            &&& d.title is Some ==> data.title == d.title->0
            &&& d.title is None ==> data.title == "Unknown"@
            &&& data.duration_secs == (match d.length_seconds {
                Some(t) => match u64_of_text(t) {
                    Some(n) => n,
                    None => 0,
                },
                None => 0,
            })
        }),
{
}

/// Any other video cannot be streamed, and the failure says what is missing, the status first.
pub proof fn law_missing_streaming_data_are_told(
    video_id: Seq<char>,
    d: DetailsView,
    s: StreamingView,
    config: Seq<u8>,
)
    ensures
        ({
            let res = player_data_of(video_id, d, s, config);
            &&& d.status != Some("OK"@) ==> {
                &&& res is Err
                &&& res->Err_0 is NotPlayable
                &&& res->Err_0->video_id == video_id
                &&& d.status is Some ==> res->Err_0->status == d.status->0
                &&& d.status is None ==> res->Err_0->status == "UNKNOWN"@
                &&& d.reason is Some ==> res->Err_0->reason == d.reason->0
                &&& d.reason is None ==> res->Err_0->reason == "unknown reason"@
            }
            &&& d.status == Some("OK"@) && s.server_abr_url is None ==> res == Err::<
                PlayerDataView,
                _,
            >(SabrErrorView::NoStreamingUrl)
            &&& d.status == Some("OK"@) && s.server_abr_url is Some && s.formats is None ==> res
                == Err::<PlayerDataView, _>(SabrErrorView::NoFormats)
        }),
{
    reveal_strlit("UNKNOWN");
    reveal_strlit("OK");
    assert("UNKNOWN"@.len() == 7 && "OK"@.len() == 2);
}

/// The server's configuration is what its Base64 stands for, and nothing where it stands for
/// nothing.
pub proof fn law_configuration_is_decoded(text: Seq<char>)
    ensures
        ustreamer_bytes(None).len() == 0,
        text.len() == 0 || url_safe_bytes(text) is None ==> ustreamer_bytes(Some(text)).len() == 0,
        text.len() > 0 && url_safe_bytes(text) is Some ==> Some(ustreamer_bytes(Some(text)))
            == url_safe_bytes(text),
{
}

/// A reply without a body fails as it says; a body is judged by what the document in it holds.
pub proof fn law_reply_of_search(video_id: Seq<char>, reply: Reply)
    ensures
        match reply {
            Reply::Failed(why) => player_data_in_reply(video_id, reply) == Err::<
                PlayerDataView,
                _,
            >(SabrErrorView::Transport(why@)),
            Reply::Refused(status) => player_data_in_reply(video_id, reply) == Err::<
                PlayerDataView,
                _,
            >(SabrErrorView::PlayerStatus(status@)),
            Reply::Body(body) => {
                &&& player_data_in_reply(video_id, reply) == player_data_in_body(video_id, body@)
                &&& json_document(body@) matches Some(doc) ==> player_data_in_body(
                    video_id,
                    body@,
                ) == player_data_of(
                    video_id,
                    details_of(doc),
                    streaming_of(doc),
                    ustreamer_bytes(streaming_of(doc).ustreamer_config),
                )
                &&& json_document(body@) is None ==> player_data_in_body(video_id, body@) == Err::<
                    PlayerDataView,
                    _,
                >(SabrErrorView::NotJson)
            },
        },
{
}

/// Whichever client was asked, data that it yields end the search, unchanged, with the token that
/// the search began with.
pub proof fn law_found_data_are_kept(s: PlayerSearchView, data: PlayerDataView)
    ensures
        search_next(s, Ok(data)) == SearchStepView::Found(data, s.po_token),
{
}

/// The clients are asked in turn, from the music web client where there is a token and from iOS
/// where there is none: each after the one before has failed, and the last failure is the search's.
pub proof fn law_clients_are_asked_in_turn(s: PlayerSearchView, token: Seq<char>, e: SabrErrorView)
    ensures
        first_attempt(Some(token)) == PlayerAttempt::WebRemix,
        first_attempt(None) == PlayerAttempt::Ios,
        s.attempt == PlayerAttempt::WebRemix ==> search_next(s, Err(e)) == SearchStepView::Ask(
            PlayerSearchView { attempt: PlayerAttempt::Ios, ..s },
        ),
        s.attempt == PlayerAttempt::Ios ==> search_next(s, Err(e)) == SearchStepView::Ask(
            PlayerSearchView { attempt: PlayerAttempt::Android, ..s },
        ),
        s.attempt == PlayerAttempt::Android ==> search_next(s, Err(e)) == SearchStepView::Failed(e),
{
}

/// Each client is asked for the search's video as itself, with the proof-of-origin token, and the
/// music web client alone with the credential transfer token.
pub proof fn law_search_asks_as_the_client(s: PlayerSearchView)
    ensures
        s.attempt == PlayerAttempt::WebRemix ==> search_call(s) == player_call(
            s.video_id,
            web_remix_client_spec(),
            s.ctt,
            s.po_token,
        ),
        s.attempt == PlayerAttempt::Ios ==> search_call(s) == player_call(
            s.video_id,
            ios_client_spec(),
            None,
            s.po_token,
        ),
        s.attempt == PlayerAttempt::Android ==> search_call(s) == player_call(
            s.video_id,
            android_client_spec(),
            None,
            s.po_token,
        ),
{
}

} // verus!
