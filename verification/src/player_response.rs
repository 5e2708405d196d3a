//! What is read from the answer of the InnerTube `/player` endpoint.
use vstd::prelude::*;
use vstd::string::StringExecFns;
use crate::json::{
    fit_i64, fit_u64, json_leaves, leaf_integer, leaf_list, leaf_text, list_len_at, signed_at,
    text_at, unsigned_at, JsonLeaf,
};
use crate::text::{append_decimal, decimal, opt_text};

verus! {

/// Whether a track can be played, and what it is.
pub struct Details {
    /// The playability status.
    pub status: Option<String>,
    /// Why the track cannot be played.
    pub reason: Option<String>,
    /// The title.
    pub title: Option<String>,
    /// The length in seconds, as a decimal text.
    pub length_seconds: Option<String>,
}

/// What [`Details`] say.
pub struct DetailsView {
    /// The playability status.
    pub status: Option<Seq<char>>,
    /// Why the track cannot be played.
    pub reason: Option<Seq<char>>,
    /// The title.
    pub title: Option<Seq<char>>,
    /// The length in seconds, as a decimal text.
    pub length_seconds: Option<Seq<char>>,
}

impl View for Details {
    type V = DetailsView;

    open spec fn view(&self) -> DetailsView {
        DetailsView {
            status: opt_text(self.status),
            reason: opt_text(self.reason),
            title: opt_text(self.title),
            length_seconds: opt_text(self.length_seconds),
        }
    }
}

/// One entry of the list of formats, as it was sent.
pub struct FormatEntry {
    /// The format's number.
    pub itag: Option<i64>,
    /// When it was last changed, as a decimal text.
    pub last_modified: Option<String>,
    /// Further tags.
    pub xtags: Option<String>,
    /// The media type.
    pub mime_type: Option<String>,
    /// Bits per second.
    pub bitrate: Option<u64>,
}

/// What a [`FormatEntry`] says.
pub struct FormatEntryView {
    /// The format's number.
    pub itag: Option<i64>,
    /// When it was last changed, as a decimal text.
    pub last_modified: Option<Seq<char>>,
    /// Further tags.
    pub xtags: Option<Seq<char>>,
    /// The media type.
    pub mime_type: Option<Seq<char>>,
    /// Bits per second.
    pub bitrate: Option<u64>,
}

impl View for FormatEntry {
    type V = FormatEntryView;

    open spec fn view(&self) -> FormatEntryView {
        FormatEntryView {
            itag: self.itag,
            last_modified: opt_text(self.last_modified),
            xtags: opt_text(self.xtags),
            mime_type: opt_text(self.mime_type),
            bitrate: self.bitrate,
        }
    }
}

/// Where the stream of a track is to be had.
pub struct Streaming {
    /// The URL that serves the stream.
    pub server_abr_url: Option<String>,
    /// The server's opaque configuration, in Base64.
    pub ustreamer_config: Option<String>,
    /// The formats on offer.
    pub formats: Option<Vec<FormatEntry>>,
}

/// What [`Streaming`] says.
pub struct StreamingView {
    /// The URL that serves the stream.
    pub server_abr_url: Option<Seq<char>>,
    /// The server's opaque configuration, in Base64.
    pub ustreamer_config: Option<Seq<char>>,
    /// The formats on offer.
    pub formats: Option<Seq<FormatEntryView>>,
}

/// What a list of format entries says.
pub open spec fn entries_view(entries: Seq<FormatEntry>) -> Seq<FormatEntryView> {
    entries.map_values(|e: FormatEntry| e@)
}

impl View for Streaming {
    type V = StreamingView;

    open spec fn view(&self) -> StreamingView {
        StreamingView {
            server_abr_url: opt_text(self.server_abr_url),
            ustreamer_config: opt_text(self.ustreamer_config),
            formats: match self.formats {
                Some(list) => Some(entries_view(list@)),
                None => None,
            },
        }
    }
}

/// The details that a document holds.
pub open spec fn details_of(doc: Map<Seq<char>, JsonLeaf>) -> DetailsView {
    DetailsView {
        status: leaf_text(doc, "/playabilityStatus/status"@),
        reason: leaf_text(doc, "/playabilityStatus/reason"@),
        title: leaf_text(doc, "/videoDetails/title"@),
        length_seconds: leaf_text(doc, "/videoDetails/lengthSeconds"@),
    }
}

/// The pointer to a field of the format entry at `i`.
pub open spec fn entry_pointer(i: nat, field: Seq<char>) -> Seq<char> {
    "/streamingData/adaptiveFormats/"@ + decimal(i) + field
}

/// The format entry that a document holds at `i`.
pub open spec fn entry_of(doc: Map<Seq<char>, JsonLeaf>, i: nat) -> FormatEntryView {
    FormatEntryView {
        itag: fit_i64(leaf_integer(doc, entry_pointer(i, "/itag"@))),
        last_modified: leaf_text(doc, entry_pointer(i, "/lastModified"@)),
        xtags: leaf_text(doc, entry_pointer(i, "/xtags"@)),
        mime_type: leaf_text(doc, entry_pointer(i, "/mimeType"@)),
        bitrate: fit_u64(leaf_integer(doc, entry_pointer(i, "/bitrate"@))),
    }
}

/// The first `n` format entries that a document holds.
pub open spec fn entries_of(doc: Map<Seq<char>, JsonLeaf>, n: nat) -> Seq<FormatEntryView> {
    Seq::new(n, |i: int| entry_of(doc, i as nat))
}

/// The streaming data that a document holds.
pub open spec fn streaming_of(doc: Map<Seq<char>, JsonLeaf>) -> StreamingView {
    StreamingView {
        server_abr_url: leaf_text(doc, "/streamingData/serverAbrStreamingUrl"@),
        ustreamer_config: leaf_text(
            doc,
            "/playerConfig/mediaCommonConfig/mediaUstreamerRequestConfig/videoPlaybackUstreamerConfig"@,
        ),
        formats: match leaf_list(doc, "/streamingData/adaptiveFormats"@) {
            Some(n) => Some(entries_of(doc, n)),
            None => None,
        },
    }
}

/// Reads the details.
pub(crate) fn read_details(v: &serde_json::Value) -> (d: Details)
    ensures
        d@ == details_of(json_leaves(*v)),
{
    Details {
        status: text_at(v, "/playabilityStatus/status"),
        reason: text_at(v, "/playabilityStatus/reason"),
        title: text_at(v, "/videoDetails/title"),
        length_seconds: text_at(v, "/videoDetails/lengthSeconds"),
    }
}

/// The pointer to a field of the format entry at `i`.
fn make_entry_pointer(i: usize, field: &str) -> (p: String)
    ensures
        p@ == entry_pointer(i as nat, field@),
{
    let mut p = "/streamingData/adaptiveFormats/".to_owned();
    append_decimal(&mut p, i as u64);
    p.append(field);
    p
}

/// Reads the format entry at `i`.
fn read_entry(v: &serde_json::Value, i: usize) -> (e: FormatEntry)
    ensures
        e@ == entry_of(json_leaves(*v), i as nat),
{
    FormatEntry {
        itag: signed_at(v, make_entry_pointer(i, "/itag").as_str()),
        last_modified: text_at(v, make_entry_pointer(i, "/lastModified").as_str()),
        xtags: text_at(v, make_entry_pointer(i, "/xtags").as_str()),
        mime_type: text_at(v, make_entry_pointer(i, "/mimeType").as_str()),
        bitrate: unsigned_at(v, make_entry_pointer(i, "/bitrate").as_str()),
    }
}

/// Reads the streaming data.
pub(crate) fn read_streaming(v: &serde_json::Value) -> (s: Streaming)
    ensures
        s@ == streaming_of(json_leaves(*v)),
{
    let formats = match list_len_at(v, "/streamingData/adaptiveFormats") {
        None => None,
        Some(n) => {
            let mut list: Vec<FormatEntry> = Vec::new();
            let mut i: usize = 0;
            while i < n
                invariant
                    i <= n,
                    entries_view(list@) == entries_of(json_leaves(*v), i as nat),
                decreases n - i,
            {
                let ghost before = list@;
                let entry = read_entry(v, i);
                let ghost read = entry@;
                list.push(entry);
                assert(entries_view(list@) =~= entries_view(before).push(read));
                assert(entries_of(json_leaves(*v), (i + 1) as nat) =~= entries_of(
                    json_leaves(*v),
                    i as nat,
                ).push(read));
                i += 1;
            }
            Some(list)
        },
    };
    Streaming {
        server_abr_url: text_at(v, "/streamingData/serverAbrStreamingUrl"),
        ustreamer_config: text_at(
            v,
            "/playerConfig/mediaCommonConfig/mediaUstreamerRequestConfig/videoPlaybackUstreamerConfig",
        ),
        formats,
    }
}

} // verus!
