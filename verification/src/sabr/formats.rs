//! The formats on offer for a video, and the choice among them.
use vstd::prelude::*;
use crate::text::{contains, has_infix, has_prefix, opt_text, starts_with};

verus! {

/// One format in which a video is on offer.
#[derive(Debug)]
pub struct AdaptiveFormat {
    /// The format's number.
    pub itag: i32,
    /// When it was last changed.
    pub last_modified: u64,
    /// Further tags.
    pub xtags: Option<String>,
    /// The media type.
    pub mime_type: String,
    /// Bits per second.
    pub bitrate: u64,
}

/// What an [`AdaptiveFormat`] says.
pub struct AdaptiveFormatView {
    /// The format's number.
    pub itag: i32,
    /// When it was last changed.
    pub last_modified: u64,
    /// Further tags.
    pub xtags: Option<Seq<char>>,
    /// The media type.
    pub mime_type: Seq<char>,
    /// Bits per second.
    pub bitrate: u64,
}

impl View for AdaptiveFormat {
    type V = AdaptiveFormatView;

    open spec fn view(&self) -> AdaptiveFormatView {
        AdaptiveFormatView {
            itag: self.itag,
            last_modified: self.last_modified,
            xtags: opt_text(self.xtags),
            mime_type: self.mime_type@,
            bitrate: self.bitrate,
        }
    }
}

impl Clone for AdaptiveFormat {
    fn clone(&self) -> (res: Self)
        ensures
            res@ == self@,
    {
        AdaptiveFormat {
            itag: self.itag,
            last_modified: self.last_modified,
            xtags: self.xtags.clone(),
            mime_type: self.mime_type.clone(),
            bitrate: self.bitrate,
        }
    }
}

/// What a list of formats says.
pub open spec fn formats_view(formats: Seq<AdaptiveFormat>) -> Seq<AdaptiveFormatView> {
    formats.map_values(|f: AdaptiveFormat| f@)
}

/// Whether a format is audio.
pub open spec fn is_audio(f: AdaptiveFormatView) -> bool {
    has_prefix(f.mime_type, "audio/"@)
}

/// Whether a format is video.
pub open spec fn is_video(f: AdaptiveFormatView) -> bool {
    has_prefix(f.mime_type, "video/"@)
}

/// Whether a format is Opus.
pub open spec fn is_opus(f: AdaptiveFormatView) -> bool {
    has_infix(f.mime_type, "opus"@)
}

/// By how much AAC is preferred to other codecs that are not Opus, in bits per second.
pub const AAC_BONUS: u64 = 500_000_000;

/// What a format counts for beside others of its kind, Opus or not: its bitrate, and for AAC the
/// bonus.
pub open spec fn weight(f: AdaptiveFormatView) -> int {
    if !is_opus(f) && has_infix(f.mime_type, "mp4a"@) {
        f.bitrate + AAC_BONUS
    } else {
        f.bitrate as int
    }
}

/// Whether `a` ranks below `b`: Opus stands above all else, and otherwise the weight decides.
pub open spec fn ranks_below(a: AdaptiveFormatView, b: AdaptiveFormatView) -> bool {
    if is_opus(a) == is_opus(b) {
        weight(a) < weight(b)
    } else {
        is_opus(b)
    }
}

/// Whether the format at `i` is the audio format to choose: none ranks higher, and none behind it
/// as high.
pub open spec fn is_audio_choice(formats: Seq<AdaptiveFormatView>, i: int) -> bool {
    &&& 0 <= i < formats.len()
    &&& is_audio(formats[i])
    &&& forall|j: int|
        #![trigger formats[j]]
        0 <= j < formats.len() && is_audio(formats[j]) ==> {
            &&& !ranks_below(formats[i], formats[j])
            &&& j > i ==> ranks_below(formats[j], formats[i])
        }
}

/// Whether the format at `i` is the video format to choose: none has a lower bitrate, and none
/// before it as low a one.
pub open spec fn is_video_choice(formats: Seq<AdaptiveFormatView>, i: int) -> bool {
    &&& 0 <= i < formats.len()
    &&& is_video(formats[i])
    &&& forall|j: int|
        #![trigger formats[j]]
        0 <= j < formats.len() && is_video(formats[j]) ==> {
            &&& formats[i].bitrate <= formats[j].bitrate
            &&& j < i ==> formats[i].bitrate < formats[j].bitrate
        }
}

/// Whether a format is Opus, and what it counts for beside others of its kind.
fn rank(f: &AdaptiveFormat) -> (r: (bool, u128))
    ensures
        r.0 == is_opus(f@),
        r.1 == weight(f@),
{
    let opus = contains(f.mime_type.as_str(), "opus");
    let bitrate = f.bitrate as u128;
    if !opus && contains(f.mime_type.as_str(), "mp4a") {
        (opus, bitrate + AAC_BONUS as u128)
    } else {
        (opus, bitrate)
    }
}

/// Whether `a` ranks below `b`.
fn is_below(a: &AdaptiveFormat, b: &AdaptiveFormat) -> (res: bool)
    ensures
        res == ranks_below(a@, b@),
{
    let (opus_a, weight_a) = rank(a);
    let (opus_b, weight_b) = rank(b);
    if opus_a == opus_b {
        weight_a < weight_b
    } else {
        opus_b
    }
}

/// Chooses the best audio format: Opus at the highest bitrate, where there is Opus.
pub fn choose_audio_format(formats: &[AdaptiveFormat]) -> (res: Option<&AdaptiveFormat>)
    ensures
        match res {
            Some(f) => exists|i: int| #[trigger]
                is_audio_choice(formats_view(formats@), i) && *f == formats@[i],
            None => forall|i: int|
                0 <= i < formats@.len() ==> !is_audio(#[trigger] formats_view(formats@)[i]),
        },
{
    let ghost all = formats_view(formats@);
    let mut best: Option<usize> = None;
    let mut i: usize = 0;
    while i < formats.len()
        invariant
            i <= formats.len(),
            all == formats_view(formats@),
            match best {
                Some(b) => is_audio_choice(all.take(i as int), b as int),
                None => forall|j: int| 0 <= j < i ==> !is_audio(#[trigger] all[j]),
            },
        decreases formats.len() - i,
    {
        let ghost before = all.take(i as int);
        let ghost after = all.take(i + 1);
        assert(forall|j: int| 0 <= j < i ==> #[trigger] after[j] == before[j]);
        assert(after[i as int] == formats@[i as int]@);
        if starts_with(formats[i].mime_type.as_str(), "audio/") {
            let better = match best {
                Some(b) => !is_below(&formats[i], &formats[b]),
                None => true,
            };
            if better {
                best = Some(i);
            }
        }
        proof {
            if let Some(b) = best {
                assert(is_audio_choice(after, b as int));
            }
        }
        i += 1;
    }
    assert(all.take(i as int) =~= all);
    match best {
        Some(b) => Some(&formats[b]),
        None => None,
    }
}

/// Chooses the video format of the lowest bitrate.
///
/// The protocol wants a video format beside the audio format. The request then claims that the
/// video is wholly buffered, so that the server sends none of it.
pub fn choose_video_format(formats: &[AdaptiveFormat]) -> (res: Option<&AdaptiveFormat>)
    ensures
        match res {
            Some(f) => exists|i: int| #[trigger]
                is_video_choice(formats_view(formats@), i) && *f == formats@[i],
            None => forall|i: int|
                0 <= i < formats@.len() ==> !is_video(#[trigger] formats_view(formats@)[i]),
        },
{
    let ghost all = formats_view(formats@);
    let mut best: Option<usize> = None;
    let mut i: usize = 0;
    while i < formats.len()
        invariant
            i <= formats.len(),
            all == formats_view(formats@),
            match best {
                Some(b) => is_video_choice(all.take(i as int), b as int),
                None => forall|j: int| 0 <= j < i ==> !is_video(#[trigger] all[j]),
            },
        decreases formats.len() - i,
    {
        let ghost before = all.take(i as int);
        let ghost after = all.take(i + 1);
        assert(forall|j: int| 0 <= j < i ==> #[trigger] after[j] == before[j]);
        assert(after[i as int] == formats@[i as int]@);
        if starts_with(formats[i].mime_type.as_str(), "video/") {
            let better = match best {
                Some(b) => formats[i].bitrate < formats[b].bitrate,
                None => true,
            };
            if better {
                best = Some(i);
            }
        }
        proof {
            if let Some(b) = best {
                assert(is_video_choice(after, b as int));
            }
        }
        i += 1;
    }
    assert(all.take(i as int) =~= all);
    match best {
        Some(b) => Some(&formats[b]),
        None => None,
    }
}

/// At most one format is the audio format to choose.
pub proof fn law_audio_choice_is_unique(formats: Seq<AdaptiveFormatView>, i: int, j: int)
    requires
        is_audio_choice(formats, i),
        is_audio_choice(formats, j),
    ensures
        i == j,
{
    assert(is_audio(formats[i]) && is_audio(formats[j]));
}

/// At most one format is the video format to choose.
pub proof fn law_video_choice_is_unique(formats: Seq<AdaptiveFormatView>, i: int, j: int)
    requires
        is_video_choice(formats, i),
        is_video_choice(formats, j),
    ensures
        i == j,
{
    assert(is_video(formats[i]) && is_video(formats[j]));
}

/// Where an Opus format is on offer, the choice is Opus, at the highest bitrate among the Opus
/// formats, whatever the bitrate of the others.
pub proof fn law_opus_at_highest_bitrate(formats: Seq<AdaptiveFormatView>, i: int, opus: int)
    requires
        is_audio_choice(formats, i),
        0 <= opus < formats.len(),
        is_audio(formats[opus]),
        is_opus(formats[opus]),
    ensures
        is_opus(formats[i]),
        formats[opus].bitrate <= formats[i].bitrate,
{
}

} // verus!
