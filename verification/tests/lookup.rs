use serde_json::Value;
use ytcast::http::{is_success, PlayerCall, Reply};
use ytcast::innertube::{
    android_player, parse_player_response, resolve_stream, web_remix_player, LookupError,
    LookupStep, StreamInfo,
};
use ytcast::json::Json;

const BROWSER: &str = "Mozilla/5.0 (Windows NT 10.0; Win64; x64) AppleWebKit/537.36 (KHTML, like Gecko) Chrome/131.0.0.0 Safari/537.36";

fn value_of(j: &Json) -> Value {
    match j {
        Json::Bool(b) => Value::from(*b),
        Json::Int(n) => Value::from(*n),
        Json::Text(s) => Value::from(s.as_str()),
        Json::List(items) => Value::Array(items.iter().map(value_of).collect()),
        Json::Object(members) => {
            Value::Object(members.iter().map(|(k, v)| (k.clone(), value_of(v))).collect())
        }
    }
}

fn parsed(s: &str) -> Value {
    serde_json::from_str(s).unwrap()
}

fn body(s: &str) -> Reply {
    Reply::Body(s.as_bytes().to_vec())
}

fn asked(step: LookupStep) -> (ytcast::innertube::StreamLookup, PlayerCall) {
    match step {
        LookupStep::Ask(lookup, call) => (lookup, call),
        LookupStep::Found(_) => panic!("the lookup is over"),
    }
}

fn found(step: LookupStep) -> StreamInfo {
    match step {
        LookupStep::Ask(..) => panic!("the lookup goes on"),
        LookupStep::Found(info) => info,
    }
}

const OK_BODY: &str = r#"{"playabilityStatus":{"status":"OK"},"videoDetails":{"title":"A Song","lengthSeconds":"213"}}"#;

#[test]
fn statuses_of_success() {
    assert!(!is_success(199));
    assert!(is_success(200));
    assert!(is_success(299));
    assert!(!is_success(300));
    assert!(!is_success(404));
}

#[test]
fn web_client_asks_with_token() {
    let call = web_remix_player("vid", "tok");
    assert_eq!(call.url, "https://music.youtube.com/youtubei/v1/player?prettyPrint=false");
    assert_eq!(
        call.headers,
        vec![
            ("User-Agent", BROWSER),
            ("Content-Type", "application/json"),
            ("Origin", "https://music.youtube.com"),
            ("Referer", "https://music.youtube.com/"),
        ]
    );
    assert_eq!(
        value_of(&call.body),
        parsed(
            r#"{"videoId":"vid","context":{"client":{"clientName":"WEB_REMIX",
            "clientVersion":"1.20241120.01.00","hl":"en","gl":"US"},
            "user":{"credentialTransferTokens":[{"scope":"VIDEO","token":"tok"}]}},
            "contentCheckOk":true,"racyCheckOk":true}"#
        )
    );
}

#[test]
fn android_client_asks_without_token() {
    let call = android_player("vid");
    assert_eq!(call.url, "https://www.youtube.com/youtubei/v1/player?prettyPrint=false");
    assert_eq!(
        call.headers,
        vec![
            (
                "User-Agent",
                "com.google.android.youtube/19.44.38 (Linux; U; Android 14; en_US; Pixel 8) gzip"
            ),
            ("Content-Type", "application/json"),
        ]
    );
    assert_eq!(
        value_of(&call.body),
        parsed(
            r#"{"videoId":"vid","context":{"client":{"clientName":"ANDROID",
            "clientVersion":"19.44.38","androidSdkVersion":34,"hl":"en","gl":"US"}},
            "contentCheckOk":true,"racyCheckOk":true}"#
        )
    );
}

#[test]
fn answers_give_title_and_length() {
    let (title, secs) = parse_player_response("vid", OK_BODY.as_bytes()).unwrap();
    assert_eq!((title.as_str(), secs), ("A Song", 213));
    let bare = r#"{"playabilityStatus":{"status":"OK"}}"#;
    let (title, secs) = parse_player_response("vid", bare.as_bytes()).unwrap();
    assert_eq!((title.as_str(), secs), ("vid", 0));
    let odd = r#"{"playabilityStatus":{"status":"OK"},"videoDetails":{"title":7,"lengthSeconds":213}}"#;
    let (title, secs) = parse_player_response("vid", odd.as_bytes()).unwrap();
    assert_eq!((title.as_str(), secs), ("vid", 0));
    let fraction = r#"{"playabilityStatus":{"status":"OK"},"videoDetails":{"lengthSeconds":"1.5"}}"#;
    assert_eq!(parse_player_response("vid", fraction.as_bytes()).unwrap().1, 0);
}

#[test]
fn unplayable_tracks_are_errors() {
    let login = r#"{"playabilityStatus":{"status":"LOGIN_REQUIRED","reason":"Sign in"}}"#;
    let e = parse_player_response("vid", login.as_bytes()).unwrap_err();
    assert_eq!(e.describe(), "vid: LOGIN_REQUIRED (Sign in)");
    assert!(matches!(e, LookupError::NotPlayable { .. }));
    let e = parse_player_response("vid", b"{}").unwrap_err();
    assert_eq!(e.describe(), "vid: UNKNOWN (unknown)");
    let e = parse_player_response("vid", b"[]").unwrap_err();
    assert_eq!(e.describe(), "vid: UNKNOWN (unknown)");
    let e = parse_player_response("vid", b"not json").unwrap_err();
    assert!(matches!(e, LookupError::NotJson));
    assert_eq!(e.describe(), "error decoding response body");
    assert_eq!(LookupError::Status("403 Forbidden".to_string()).describe(), "/player HTTP 403 Forbidden");
    assert_eq!(LookupError::Transport("refused".to_string()).describe(), "refused");
}

#[test]
fn lookup_without_token_asks_android_once() {
    let (lookup, call) = asked(resolve_stream("vid", None, Some("list")));
    assert!(call.url.starts_with("https://www.youtube.com/"));
    let info = found(lookup.on_reply(body(OK_BODY)));
    assert_eq!(info.title, "A Song");
    assert_eq!(info.duration, 213);
    assert_eq!(info.stream_url, "http://localhost:8008/stream/vid");
}

#[test]
fn lookup_with_token_falls_back_to_android() {
    let (lookup, call) = asked(resolve_stream("vid", Some("tok"), None));
    assert!(call.url.starts_with("https://music.youtube.com/"));
    let (lookup, call) = asked(lookup.on_reply(Reply::Refused("400 Bad Request".to_string())));
    assert!(call.url.starts_with("https://www.youtube.com/"));
    let info = found(lookup.on_reply(body(OK_BODY)));
    assert_eq!(info.title, "A Song");
}

#[test]
fn lookup_always_ends_with_a_stream() {
    let (lookup, _) = asked(resolve_stream("vid", Some("tok"), None));
    let (lookup, _) = asked(lookup.on_reply(Reply::Failed("no route".to_string())));
    let info = found(lookup.on_reply(body("not json")));
    assert_eq!(info.title, "vid");
    assert_eq!(info.duration, 0);
    assert_eq!(info.stream_url, "http://localhost:8008/stream/vid");
}
