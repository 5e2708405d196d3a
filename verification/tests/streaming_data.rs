use serde_json::Value;
use ytcast::http::Reply;
use ytcast::json::Json;
use ytcast::sabr::client::{
    android_client, fetch_po_token, innertube_player, ios_client, po_token_call, web_remix_client,
};
use ytcast::sabr::error::SabrError;
use ytcast::sabr::formats::{choose_audio_format, choose_video_format, AdaptiveFormat};
use ytcast::sabr::numbers::{reinterpret_u32, truncate_i32};
use ytcast::sabr::player_data::{
    decode_ustreamer, get_player_data, parse_player_data, PlayerData, PlayerSearch, SearchStep,
};

fn value_of(j: &Json) -> Value {
    match j {
        Json::Bool(b) => Value::from(*b),
        Json::Int(n) => Value::from(*n),
        Json::Text(s) => Value::from(s.as_str()),
        Json::List(items) => Value::Array(items.iter().map(value_of).collect()),
        Json::Object(members) => {
            Value::Object(members.iter().map(|(k, v)| (k.clone(), value_of(v))).collect())
        }
    }
}

fn parsed(s: &str) -> Value {
    serde_json::from_str(s).unwrap()
}

fn format(itag: i32, mime: &str, bitrate: u64) -> AdaptiveFormat {
    AdaptiveFormat {
        itag,
        last_modified: 0,
        xtags: None,
        mime_type: mime.to_string(),
        bitrate,
    }
}

const BODY: &str = r#"{
  "playabilityStatus": {"status": "OK"},
  "videoDetails": {"title": "A Song", "lengthSeconds": "213"},
  "playerConfig": {"mediaCommonConfig": {"mediaUstreamerRequestConfig":
      {"videoPlaybackUstreamerConfig": "-_8"}}},
  "streamingData": {
    "serverAbrStreamingUrl": "https://host/videoplayback?id=1",
    "adaptiveFormats": [
      {"itag": 251, "lastModified": "1700000000000000", "xtags": "x", "mimeType": "audio/webm; codecs=\"opus\"", "bitrate": 160000},
      {"itag": 4294967436, "mimeType": "video/mp4", "bitrate": -5},
      {}
    ]
  }
}"#;

#[test]
fn low_bits_are_kept() {
    assert_eq!(truncate_i32(251), 251);
    assert_eq!(truncate_i32(-1), -1);
    assert_eq!(truncate_i32(4294967436), 140);
    assert_eq!(truncate_i32(i64::MIN), i64::MIN as i32);
    assert_eq!(truncate_i32(0x8000_0000), i32::MIN);
    assert_eq!(reinterpret_u32(-1), u32::MAX);
    assert_eq!(reinterpret_u32(i32::MIN), 0x8000_0000);
    assert_eq!(reinterpret_u32(1500), 1500);
}

#[test]
fn phone_clients_name_their_device() {
    let call = innertube_player("vid", &android_client(), None, Some("pot"));
    assert_eq!(call.url, "https://www.youtube.com/youtubei/v1/player?prettyPrint=false");
    assert_eq!(
        call.headers,
        vec![
            (
                "User-Agent",
                "com.google.android.youtube/19.44.38 (Linux; U; Android 14; en_US; Pixel 8) gzip"
            ),
            ("Content-Type", "application/json"),
        ]
    );
    assert_eq!(
        value_of(&call.body),
        parsed(
            r#"{"videoId":"vid","context":{"client":{"clientName":"ANDROID",
            "clientVersion":"19.44.38","hl":"en","gl":"US","deviceMake":"Google",
            "deviceModel":"Pixel 8","osName":"Android","osVersion":"14","androidSdkVersion":34}},
            "contentCheckOk":true,"racyCheckOk":true,
            "serviceIntegrityDimensions":{"poToken":"pot"}}"#
        )
    );
    let call = innertube_player("vid", &ios_client(), None, None);
    assert_eq!(
        value_of(&call.body),
        parsed(
            r#"{"videoId":"vid","context":{"client":{"clientName":"IOS",
            "clientVersion":"19.45.4","hl":"en","gl":"US","deviceMake":"Apple",
            "deviceModel":"iPhone16,2","osName":"iPhone","osVersion":"18.1.0.22B83"}},
            "contentCheckOk":true,"racyCheckOk":true}"#
        )
    );
}

#[test]
fn web_client_names_no_device() {
    let call = innertube_player("vid", &web_remix_client(), Some("tok"), None);
    assert_eq!(call.url, "https://music.youtube.com/youtubei/v1/player?prettyPrint=false");
    assert_eq!(call.headers.len(), 4);
    assert_eq!(call.headers[2], ("Origin", "https://music.youtube.com"));
    assert_eq!(call.headers[3], ("Referer", "https://music.youtube.com/"));
    assert_eq!(
        value_of(&call.body),
        parsed(
            r#"{"videoId":"vid","context":{"client":{"clientName":"WEB_REMIX",
            "clientVersion":"1.20241120.01.00","hl":"en","gl":"US"},
            "user":{"credentialTransferTokens":[{"scope":"VIDEO","token":"tok"}]}},
            "contentCheckOk":true,"racyCheckOk":true}"#
        )
    );
}

#[test]
fn token_service_is_asked_and_read() {
    let call = po_token_call("vid");
    assert_eq!(call.url, "http://127.0.0.1:4416/get_pot");
    assert!(call.headers.is_empty());
    assert_eq!(value_of(&call.body), parsed(r#"{"content_binding":"vid"}"#));
    let body = |s: &str| Reply::Body(s.as_bytes().to_vec());
    assert_eq!(fetch_po_token(body(r#"{"poToken":"abc"}"#)), Some("abc".to_string()));
    assert_eq!(fetch_po_token(body(r#"{"poToken":5}"#)), None);
    assert_eq!(fetch_po_token(body("{}")), None);
    assert_eq!(fetch_po_token(body("nope")), None);
    assert_eq!(fetch_po_token(Reply::Refused("500".to_string())), None);
    assert_eq!(fetch_po_token(Reply::Failed("refused".to_string())), None);
}

#[test]
fn configuration_is_url_safe_base64() {
    let decode = |s: &str| decode_ustreamer(&Some(s.to_string()));
    assert_eq!(decode("-_8"), vec![0xfb, 0xff]);
    assert_eq!(decode("-_8="), vec![0xfb, 0xff]);
    assert_eq!(decode("AQID"), vec![1, 2, 3]);
    assert_eq!(decode("+/8="), Vec::<u8>::new());
    assert_eq!(decode(""), Vec::<u8>::new());
    assert_eq!(decode_ustreamer(&None), Vec::<u8>::new());
}

#[test]
fn streaming_data_are_read() {
    let data = parse_player_data("vid", BODY.as_bytes()).unwrap();
    assert_eq!(data.server_abr_streaming_url, "https://host/videoplayback?id=1");
    assert_eq!(data.ustreamer_config, vec![0xfb, 0xff]);
    assert_eq!(data.title, "A Song");
    assert_eq!(data.duration_secs, 213);
    assert_eq!(data.formats.len(), 3);
    let f = &data.formats[0];
    assert_eq!((f.itag, f.last_modified, f.bitrate), (251, 1700000000000000, 160000));
    assert_eq!(f.xtags.as_deref(), Some("x"));
    assert_eq!(f.mime_type, "audio/webm; codecs=\"opus\"");
    let f = &data.formats[1];
    assert_eq!((f.itag, f.last_modified, f.bitrate), (140, 0, 0));
    assert_eq!(f.xtags, None);
    let f = &data.formats[2];
    assert_eq!((f.itag, f.mime_type.as_str(), f.bitrate), (0, "", 0));
}

fn failure(body: &str) -> SabrError {
    match parse_player_data("vid", body.as_bytes()) {
        Ok(_) => panic!("the data were read"),
        Err(e) => e,
    }
}

#[test]
fn missing_streaming_data_are_errors() {
    let e = failure("{}");
    assert_eq!(e.describe(), "video vid not playable: UNKNOWN (unknown reason)");
    let e = failure(r#"{"playabilityStatus":{"status":"ERROR","reason":"gone"}}"#);
    assert_eq!(e.describe(), "video vid not playable: ERROR (gone)");
    let e = failure(r#"{"playabilityStatus":{"status":"OK"}}"#);
    assert!(matches!(e, SabrError::NoStreamingUrl));
    assert_eq!(e.describe(), "missing serverAbrStreamingUrl");
    let e = failure(
        r#"{"playabilityStatus":{"status":"OK"},"streamingData":{"serverAbrStreamingUrl":"u","adaptiveFormats":{}}}"#,
    );
    assert!(matches!(e, SabrError::NoFormats));
    assert_eq!(e.describe(), "missing adaptiveFormats");
    assert!(matches!(failure("nope"), SabrError::NotJson));
}

fn next_search(step: SearchStep) -> PlayerSearch {
    match step {
        SearchStep::Ask(search) => search,
        _ => panic!("the search is over"),
    }
}

fn found_data(step: SearchStep) -> (PlayerData, Option<String>) {
    match step {
        SearchStep::Found(data, token) => (data, token),
        _ => panic!("nothing found"),
    }
}

#[test]
fn search_with_token_tries_three_clients() {
    let search = get_player_data("vid", Some("tok"), Some("pot".to_string()));
    let call = search.call();
    assert!(call.url.starts_with("https://music.youtube.com/"));
    assert_eq!(
        value_of(&call.body)["context"]["user"]["credentialTransferTokens"][0]["token"],
        Value::from("tok")
    );
    let search = next_search(search.on_reply(Reply::Refused("400 Bad Request".to_string())));
    let body = value_of(&search.call().body);
    assert_eq!(body["context"]["client"]["clientName"], Value::from("IOS"));
    assert!(body["context"]["user"].is_null());
    assert_eq!(body["serviceIntegrityDimensions"]["poToken"], Value::from("pot"));
    let search = next_search(search.on_reply(Reply::Failed("timeout".to_string())));
    let body = value_of(&search.call().body);
    assert_eq!(body["context"]["client"]["clientName"], Value::from("ANDROID"));
    let (data, token) = found_data(search.on_reply(Reply::Body(BODY.as_bytes().to_vec())));
    assert_eq!(data.title, "A Song");
    assert_eq!(token.as_deref(), Some("pot"));
}

#[test]
fn search_fails_with_the_last_failure() {
    let search = get_player_data("vid", None, None);
    let body = value_of(&search.call().body);
    assert_eq!(body["context"]["client"]["clientName"], Value::from("IOS"));
    let search = next_search(search.on_reply(Reply::Body(b"{}".to_vec())));
    match search.on_reply(Reply::Refused("503 Service Unavailable".to_string())) {
        SearchStep::Failed(e) => {
            assert_eq!(e.describe(), "innertube /player returned HTTP 503 Service Unavailable")
        }
        _ => panic!("the search goes on"),
    }
}

#[test]
fn opus_is_chosen_at_its_highest_bitrate() {
    let formats = vec![
        format(140, "audio/mp4; codecs=\"mp4a.40.2\"", 256_000),
        format(250, "audio/webm; codecs=\"opus\"", 70_000),
        format(251, "audio/webm; codecs=\"opus\"", 160_000),
        format(160, "video/mp4", 10),
    ];
    assert_eq!(choose_audio_format(&formats).unwrap().itag, 251);
    assert_eq!(choose_audio_format(&formats[..1]).unwrap().itag, 140);
    assert!(choose_audio_format(&formats[3..]).is_none());
    assert!(choose_audio_format(&[]).is_none());
}

#[test]
fn no_bitrate_beats_opus() {
    let formats = vec![
        format(251, "audio/webm; codecs=\"opus\"", 160_000),
        format(140, "audio/mp4; codecs=\"mp4a.40.2\"", 2_000_000_000),
        format(1, "audio/flac", u64::MAX),
        format(249, "audio/webm; codecs=\"opus\"", 50_000),
    ];
    assert_eq!(choose_audio_format(&formats).unwrap().itag, 251);
    assert_eq!(choose_audio_format(&formats[1..]).unwrap().itag, 249);
    assert_eq!(choose_audio_format(&formats[1..3]).unwrap().itag, 1);
}

#[test]
fn without_opus_aac_has_a_bonus() {
    let choose = |aac: u64, other: u64| {
        let formats = vec![
            format(140, "audio/mp4; codecs=\"mp4a.40.2\"", aac),
            format(1, "audio/flac", other),
        ];
        choose_audio_format(&formats).unwrap().itag
    };
    assert_eq!(choose(1, 600_000_000), 1);
    assert_eq!(choose(1, 500_000_000), 140);
    assert_eq!(choose(1, 500_000_001), 1);
    assert_eq!(choose(128_000, 1_000_000), 140);
    assert_eq!(choose(u64::MAX, u64::MAX), 140);
}

#[test]
fn among_equals_the_last_audio_and_the_first_video_are_chosen() {
    let formats = vec![
        format(1, "audio/webm; codecs=\"opus\"", 5),
        format(2, "audio/webm; codecs=\"opus\"", 5),
        format(3, "video/mp4", 9),
        format(4, "video/mp4", 7),
        format(5, "video/webm", 7),
    ];
    assert_eq!(choose_audio_format(&formats).unwrap().itag, 2);
    assert_eq!(choose_video_format(&formats).unwrap().itag, 4);
    assert!(choose_video_format(&formats[..2]).is_none());
    let huge = vec![format(1, "audio/webm; codecs=\"opus\"", u64::MAX), format(2, "audio/mp4", u64::MAX)];
    assert_eq!(choose_audio_format(&huge).unwrap().itag, 1);
}
