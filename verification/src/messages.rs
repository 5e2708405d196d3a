//! What the receiver tells the phone.
use vstd::prelude::*;
use crate::playlist::{PlaylistState, PlaylistView};
use crate::text::{decimal, decimal_text, join, joined};

verus! {

/// What the player does.
#[derive(Debug, Clone, Copy, PartialEq, Eq, Structural)]
pub enum PlayerState {
    /// It plays.
    Playing,
    /// It pauses.
    Paused,
    /// It has stopped.
    Stopped,
}

/// A span of time as an IEEE 754 binary64 number of seconds, held by its bits.
#[derive(Debug, Clone, Copy, PartialEq, Eq, Structural)]
pub struct Seconds {
    /// The number's bits.
    pub bits: u64,
}

/// The bits of positive infinity; those of the positive numbers lie between zero and these.
pub const INFINITY_BITS: u64 = 0x7ff0_0000_0000_0000;

/// No time at all.
pub open spec fn zero_seconds() -> Seconds {
    Seconds { bits: 0 }
}

impl Seconds {
    /// Whether the number is greater than zero: its sign bit is clear, it is not zero, and it is a
    /// number.
    pub open spec fn positive(self) -> bool {
        0 < self.bits <= INFINITY_BITS
    }

    /// No time at all.
    pub fn zero() -> (s: Seconds)
        ensures
            s == zero_seconds(),
    {
        Seconds { bits: 0 }
    }

    /// Whether the number is greater than zero.
    pub fn is_positive(self) -> (res: bool)
        ensures
            res == self.positive(),
    {
        0 < self.bits && self.bits <= INFINITY_BITS
    }
}

/// An argument of a message.
#[derive(Debug)]
pub enum Arg {
    /// A text, as it is.
    Text(String),
    /// The player's state, by its code.
    State(PlayerState),
    /// A whole number of seconds, with three decimals.
    WholeSeconds(u64),
    /// A number of seconds, with three decimals.
    Time(Seconds),
    /// A fresh random word.
    Nonce,
}

/// What an [`Arg`] says.
pub enum ArgView {
    /// A text, as it is.
    Text(Seq<char>),
    /// The player's state, by its code.
    State(PlayerState),
    /// A whole number of seconds, with three decimals.
    WholeSeconds(u64),
    /// A number of seconds, with three decimals.
    Time(Seconds),
    /// A fresh random word.
    Nonce,
}

impl View for Arg {
    type V = ArgView;

    open spec fn view(&self) -> ArgView {
        match self {
            Arg::Text(s) => ArgView::Text(s@),
            Arg::State(p) => ArgView::State(*p),
            Arg::WholeSeconds(n) => ArgView::WholeSeconds(*n),
            Arg::Time(t) => ArgView::Time(*t),
            Arg::Nonce => ArgView::Nonce,
        }
    }
}

/// A message to the phone.
#[derive(Debug)]
pub struct OutgoingMessage {
    /// Its name.
    pub name: &'static str,
    /// Its arguments, in order.
    pub args: Vec<(&'static str, Arg)>,
}

/// What an [`OutgoingMessage`] says.
pub struct MessageView {
    /// Its name.
    pub name: Seq<char>,
    /// Its arguments, in order.
    pub args: Seq<(Seq<char>, ArgView)>,
}

/// What a list of arguments says.
pub open spec fn args_view(args: Seq<(&'static str, Arg)>) -> Seq<(Seq<char>, ArgView)> {
    args.map_values(|a: (&'static str, Arg)| (a.0@, a.1@))
}

impl View for OutgoingMessage {
    type V = MessageView;

    open spec fn view(&self) -> MessageView {
        MessageView { name: self.name@, args: args_view(self.args@) }
    }
}

/// A message without arguments.
pub open spec fn message(name: Seq<char>) -> MessageView {
    MessageView { name, args: Seq::empty() }
}

impl MessageView {
    /// The message with one more argument.
    pub open spec fn with(self, key: Seq<char>, arg: ArgView) -> MessageView {
        MessageView { name: self.name, args: self.args.push((key, arg)) }
    }
}

impl OutgoingMessage {
    /// A message without arguments.
    pub fn new(name: &'static str) -> (m: OutgoingMessage)
        ensures
            m@ == message(name@),
    {
        let args: Vec<(&'static str, Arg)> = Vec::new();
        assert(args_view(args@) =~= Seq::empty());
        OutgoingMessage { name, args }
    }

    /// The message with one more argument.
    pub fn with_arg(self, key: &'static str, arg: Arg) -> (m: OutgoingMessage)
        ensures
            m@ == self@.with(key@, arg@),
    {
        let mut args = self.args;
        let ghost before = args@;
        let ghost shown = arg@;
        args.push((key, arg));
        assert(args_view(args@) =~= args_view(before).push((key@, shown)));
        OutgoingMessage { name: self.name, args }
    }
}

/// `true` or `false`.
pub open spec fn flag_text(b: bool) -> Seq<char> {
    if b {
        "true"@
    } else {
        "false"@
    }
}

/// `true` or `false`.
fn flag(b: bool) -> (a: Arg)
    ensures
        a@ == ArgView::Text(flag_text(b)),
{
    if b {
        Arg::Text("true".to_owned())
    } else {
        Arg::Text("false".to_owned())
    }
}

/// Tells what the player does, where it is and how long the track is.
pub open spec fn state_change(state: ArgView, time: ArgView, duration: u64) -> MessageView {
    message("onStateChange"@).with("state"@, state).with("currentTime"@, time).with(
        "duration"@,
        ArgView::WholeSeconds(duration),
    )
}

/// Composes what [`state_change`] says.
pub fn state_change_message(state: Arg, time: Arg, duration: u64) -> (m: OutgoingMessage)
    ensures
        m@ == state_change(state@, time@, duration),
{
    OutgoingMessage::new("onStateChange").with_arg("state", state).with_arg(
        "currentTime",
        time,
    ).with_arg("duration", Arg::WholeSeconds(duration))
}

/// Tells which track of the playlist is on, where it is and how long it is.
pub open spec fn now_playing(
    p: PlaylistView,
    state: ArgView,
    time: ArgView,
    with_index: bool,
) -> MessageView {
    let base = message("nowPlaying"@).with("videoId"@, ArgView::Text(p.current_video())).with(
        "currentTime"@,
        time,
    ).with("duration"@, ArgView::WholeSeconds(p.current_duration)).with("state"@, state).with(
        "listId"@,
        ArgView::Text(p.list_id),
    );
    let indexed = if with_index {
        base.with("currentIndex"@, ArgView::Text(decimal(p.current_index as nat)))
    } else {
        base
    };
    indexed.with("cpn"@, ArgView::Nonce)
}

/// Composes what [`now_playing`] says.
pub fn now_playing_message(p: &PlaylistState, state: Arg, time: Arg, with_index: bool) -> (m:
    OutgoingMessage)
    ensures
        m@ == now_playing(p@, state@, time@, with_index),
{
    let base = OutgoingMessage::new("nowPlaying").with_arg(
        "videoId",
        Arg::Text(crate::playlist::current_video_id(p)),
    ).with_arg("currentTime", time).with_arg(
        "duration",
        Arg::WholeSeconds(p.current_duration),
    ).with_arg("state", state).with_arg("listId", Arg::Text(p.list_id.clone()));
    let indexed = if with_index {
        base.with_arg("currentIndex", Arg::Text(decimal_text(p.current_index as u64)))
    } else {
        base
    };
    indexed.with_arg("cpn", Arg::Nonce)
}

/// Tells whether there is a track before and one behind the current one.
pub open spec fn navigation(p: PlaylistView) -> MessageView {
    message("onHasPreviousNextChanged"@).with(
        "hasPrevious"@,
        ArgView::Text(flag_text(p.has_previous())),
    ).with("hasNext"@, ArgView::Text(flag_text(p.has_next())))
}

/// Composes what [`navigation`] says.
pub fn navigation_message(p: &PlaylistState) -> (m: OutgoingMessage)
    ensures
        m@ == navigation(p@),
{
    OutgoingMessage::new("onHasPreviousNextChanged").with_arg(
        "hasPrevious",
        flag(p.has_previous()),
    ).with_arg("hasNext", flag(p.has_next()))
}

/// Tells what the playlist holds and which track is the current one.
pub open spec fn playlist_info(p: PlaylistView) -> MessageView {
    message("nowPlayingPlaylist"@).with(
        "videoIds"@,
        ArgView::Text(joined(p.video_ids, ","@)),
    ).with("currentIndex"@, ArgView::Text(decimal(p.current_index as nat))).with(
        "listId"@,
        ArgView::Text(p.list_id),
    )
}

/// Composes what [`playlist_info`] says.
pub fn playlist_message(p: &PlaylistState) -> (m: OutgoingMessage)
    ensures
        m@ == playlist_info(p@),
{
    OutgoingMessage::new("nowPlayingPlaylist").with_arg(
        "videoIds",
        Arg::Text(join(&p.video_ids, ",")),
    ).with_arg("currentIndex", Arg::Text(decimal_text(p.current_index as u64))).with_arg(
        "listId",
        Arg::Text(p.list_id.clone()),
    )
}

/// Tells how loud it is; no volume at all counts as muted.
pub open spec fn volume_info(volume: u32) -> MessageView {
    message("onVolumeChanged"@).with("volume"@, ArgView::Text(decimal(volume as nat))).with(
        "muted"@,
        ArgView::Text(flag_text(volume == 0)),
    )
}

/// Composes what [`volume_info`] says.
pub fn send_volume(volume: u32) -> (m: OutgoingMessage)
    ensures
        m@ == volume_info(volume),
{
    OutgoingMessage::new("onVolumeChanged").with_arg(
        "volume",
        Arg::Text(decimal_text(volume as u64)),
    ).with_arg("muted", flag(volume == 0))
}

} // verus!
