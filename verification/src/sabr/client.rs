//! The clients as which the InnerTube `/player` endpoint is asked, and what they ask.
use vstd::prelude::*;
use crate::http::{no_headers, no_headers_view, put_header, PlayerCall, PlayerCallView, Reply};
use crate::innertube::{body_in_context, make_body, make_user, user_of_token};
use crate::json::{json_document, leaf_text, parse_json, text_at, Json, JsonView};
use crate::text::{opt_str, opt_text, same_text};

verus! {

/// A client as which requests are made.
#[derive(Debug, Clone, Copy)]
pub struct InnerTubeClient {
    /// The client's name.
    pub client_name: &'static str,
    /// The client's version.
    pub client_version: &'static str,
    /// Who made the device; empty where the client names no device.
    pub device_make: &'static str,
    /// The device's model.
    pub device_model: &'static str,
    /// The operating system.
    pub os_name: &'static str,
    /// The operating system's version.
    pub os_version: &'static str,
    /// The `User-Agent` header.
    pub user_agent: &'static str,
    /// The number that stands for the name in binary requests.
    pub client_name_id: i32,
    /// The Android SDK version, for Android clients.
    pub android_sdk_version: Option<i32>,
}

/// The iOS client.
pub open spec fn ios_client_spec() -> InnerTubeClient {
    InnerTubeClient {
        client_name: "IOS",
        client_version: "19.45.4",
        device_make: "Apple",
        device_model: "iPhone16,2",
        os_name: "iPhone",
        os_version: "18.1.0.22B83",
        user_agent: "com.google.ios.youtube/19.45.4 (iPhone16,2; U; CPU iOS 18_1_0 like Mac OS X;)",
        client_name_id: 5,
        android_sdk_version: None,
    }
}

/// The iOS client.
pub fn ios_client() -> (c: InnerTubeClient)
    ensures
        c == ios_client_spec(),
{
    InnerTubeClient {
        client_name: "IOS",
        client_version: "19.45.4",
        device_make: "Apple",
        device_model: "iPhone16,2",
        os_name: "iPhone",
        os_version: "18.1.0.22B83",
        user_agent: "com.google.ios.youtube/19.45.4 (iPhone16,2; U; CPU iOS 18_1_0 like Mac OS X;)",
        client_name_id: 5,
        android_sdk_version: None,
    }
}

/// The Android client.
pub open spec fn android_client_spec() -> InnerTubeClient {
    InnerTubeClient {
        client_name: "ANDROID",
        client_version: "19.44.38",
        device_make: "Google",
        device_model: "Pixel 8",
        os_name: "Android",
        os_version: "14",
        user_agent: "com.google.android.youtube/19.44.38 (Linux; U; Android 14; en_US; Pixel 8) gzip",
        client_name_id: 3,
        android_sdk_version: Some(34),
    }
}

/// The Android client.
pub fn android_client() -> (c: InnerTubeClient)
    ensures
        c == android_client_spec(),
{
    InnerTubeClient {
        client_name: "ANDROID",
        client_version: "19.44.38",
        device_make: "Google",
        device_model: "Pixel 8",
        os_name: "Android",
        os_version: "14",
        user_agent: "com.google.android.youtube/19.44.38 (Linux; U; Android 14; en_US; Pixel 8) gzip",
        client_name_id: 3,
        android_sdk_version: Some(34),
    }
}

/// The music web client, used with the credential transfer token of a cast session, which the
/// other clients do not take.
pub open spec fn web_remix_client_spec() -> InnerTubeClient {
    InnerTubeClient {
        client_name: "WEB_REMIX",
        client_version: "1.20241120.01.00",
        device_make: "",
        device_model: "",
        os_name: "",
        os_version: "",
        user_agent: "Mozilla/5.0 (Windows NT 10.0; Win64; x64) AppleWebKit/537.36 (KHTML, like Gecko) Chrome/131.0.0.0 Safari/537.36",
        client_name_id: 67,
        android_sdk_version: None,
    }
}

/// The music web client.
pub fn web_remix_client() -> (c: InnerTubeClient)
    ensures
        c == web_remix_client_spec(),
{
    InnerTubeClient {
        client_name: "WEB_REMIX",
        client_version: "1.20241120.01.00",
        device_make: "",
        device_model: "",
        os_name: "",
        os_version: "",
        user_agent: "Mozilla/5.0 (Windows NT 10.0; Win64; x64) AppleWebKit/537.36 (KHTML, like Gecko) Chrome/131.0.0.0 Safari/537.36",
        client_name_id: 67,
        android_sdk_version: None,
    }
}

/// How a client presents itself: its name and version, its device where it names one, and its
/// Android SDK version where it has one.
pub open spec fn client_view(c: InnerTubeClient) -> JsonView {
    let base = JsonView::object().with("clientName"@, JsonView::Text(c.client_name@)).with(
        "clientVersion"@,
        JsonView::Text(c.client_version@),
    ).with("hl"@, JsonView::Text("en"@)).with("gl"@, JsonView::Text("US"@));
    let device = if c.device_make@.len() > 0 {
        base.with("deviceMake"@, JsonView::Text(c.device_make@)).with(
            "deviceModel"@,
            JsonView::Text(c.device_model@),
        ).with("osName"@, JsonView::Text(c.os_name@)).with(
            "osVersion"@,
            JsonView::Text(c.os_version@),
        )
    } else {
        base
    };
    match c.android_sdk_version {
        Some(sdk) => device.with("androidSdkVersion"@, JsonView::Int(sdk as int)),
        None => device,
    }
}

/// Composes the object in which a client presents itself.
fn make_client(c: &InnerTubeClient) -> (j: Json)
    ensures
        j is Object,
        j@ == client_view(*c),
{
    let mut j = Json::object().with("clientName", Json::text(c.client_name)).with(
        "clientVersion",
        Json::text(c.client_version),
    ).with("hl", Json::text("en")).with("gl", Json::text("US"));
    if !c.device_make.is_empty() {
        j = j.with("deviceMake", Json::text(c.device_make)).with(
            "deviceModel",
            Json::text(c.device_model),
        ).with("osName", Json::text(c.os_name)).with("osVersion", Json::text(c.os_version));
    }
    match c.android_sdk_version {
        Some(sdk) => j.with("androidSdkVersion", Json::Int(sdk as i64)),
        None => j,
    }
}

/// The body of a request for a track.
pub open spec fn player_body(
    video_id: Seq<char>,
    c: InnerTubeClient,
    ctt: Option<Seq<char>>,
    po_token: Option<Seq<char>>,
) -> JsonView {
    let client = JsonView::object().with("client"@, client_view(c));
    let context = match ctt {
        Some(token) => client.with("user"@, user_of_token(token)),
        None => client,
    };
    let body = body_in_context(video_id, context);
    match po_token {
        Some(pot) => body.with(
            "serviceIntegrityDimensions"@,
            JsonView::object().with("poToken"@, JsonView::Text(pot)),
        ),
        None => body,
    }
}

/// Whether a client is the music web client.
pub open spec fn is_web_remix(c: InnerTubeClient) -> bool {
    c.client_name@ == "WEB_REMIX"@
}

/// The request for a track.
pub open spec fn player_call(
    video_id: Seq<char>,
    c: InnerTubeClient,
    ctt: Option<Seq<char>>,
    po_token: Option<Seq<char>>,
) -> PlayerCallView {
    let common = no_headers_view().push(("User-Agent"@, c.user_agent@)).push(
        ("Content-Type"@, "application/json"@),
    );
    PlayerCallView {
        url: if is_web_remix(c) {
            "https://music.youtube.com/youtubei/v1/player?prettyPrint=false"@
        } else {
            "https://www.youtube.com/youtubei/v1/player?prettyPrint=false"@
        },
        headers: if is_web_remix(c) {
            common.push(("Origin"@, "https://music.youtube.com"@)).push(
                ("Referer"@, "https://music.youtube.com/"@),
            )
        } else {
            common
        },
        body: player_body(video_id, c, ctt, po_token),
    }
}

/// Composes the request for a track: as a given client, with a credential transfer token and a
/// proof-of-origin token where there are such.
pub fn innertube_player(
    video_id: &str,
    itclient: &InnerTubeClient,
    ctt: Option<&str>,
    po_token: Option<&str>,
) -> (call: PlayerCall)
    ensures
        call@ == player_call(video_id@, *itclient, opt_str(ctt), opt_str(po_token)),
{
    let mut context = Json::object().with("client", make_client(itclient));
    if let Some(token) = ctt {
        context = context.with("user", make_user(token));
    }
    let mut body = make_body(video_id, context);
    if let Some(pot) = po_token {
        body = body.with(
            "serviceIntegrityDimensions",
            Json::object().with("poToken", Json::text(pot)),
        );
    }
    let web_remix = same_text(itclient.client_name, "WEB_REMIX");
    let url = if web_remix {
        "https://music.youtube.com/youtubei/v1/player?prettyPrint=false"
    } else {
        "https://www.youtube.com/youtubei/v1/player?prettyPrint=false"
    };
    let mut headers = no_headers();
    put_header(&mut headers, "User-Agent", itclient.user_agent);
    put_header(&mut headers, "Content-Type", "application/json");
    if web_remix {
        put_header(&mut headers, "Origin", "https://music.youtube.com");
        put_header(&mut headers, "Referer", "https://music.youtube.com/");
    }
    PlayerCall { url, headers, body }
}

/// The body that asks the local token service for a proof-of-origin token.
pub open spec fn po_token_body(video_id: Seq<char>) -> JsonView {
    JsonView::object().with("content_binding"@, JsonView::Text(video_id))
}

/// Composes the request to the local token service for a proof-of-origin token.
pub fn po_token_call(video_id: &str) -> (call: PlayerCall)
    ensures
        call.url@ == "http://127.0.0.1:4416/get_pot"@,
        call.headers@.len() == 0,
        call.body@ == po_token_body(video_id@),
{
    PlayerCall {
        url: "http://127.0.0.1:4416/get_pot",
        headers: Vec::new(),
        body: Json::object().with("content_binding", Json::text(video_id)),
    }
}

/// The token in the answer of the token service, if there is one.
pub open spec fn po_token_in(body: Seq<u8>) -> Option<Seq<char>> {
    match json_document(body) {
        Some(doc) => leaf_text(doc, "/poToken"@),
        None => None,
    }
}

/// The token that a reply of the token service gives, if it gives one.
pub open spec fn po_token_of(reply: Reply) -> Option<Seq<char>> {
    match reply {
        Reply::Body(body) => po_token_in(body@),
        _ => None,
    }
}

/// Reads the token from the answer of the token service. Whatever goes wrong, there is no token.
pub fn fetch_po_token(reply: Reply) -> (token: Option<String>)
    ensures
        opt_text(token) == po_token_of(reply),
{
    match reply {
        Reply::Body(body) => match parse_json(body.as_slice()) {
            Ok(v) => text_at(&v, "/poToken"),
            Err(_) => None,
        },
        _ => None,
    }
}

} // verus!
