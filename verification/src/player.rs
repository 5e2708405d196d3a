//! What the receiver does when the phone gives a command, a track ends or time passes.
//!
//! The player holds what is still to be done. Whoever drives it takes one operation after another,
//! performs it, hands back what came of it, and drops the rest where an operation fails.
use vstd::prelude::*;
use crate::innertube::{StreamInfo, StreamInfoView};
use crate::messages::{
    navigation, navigation_message, now_playing, now_playing_message, playlist_info,
    playlist_message, send_volume, state_change, state_change_message, volume_info, zero_seconds,
    Arg, ArgView, MessageView, OutgoingMessage, PlayerState, Seconds,
};
use crate::playlist::{
    current_video_id, empty_playlist, find_place, place_of, PlaylistState, PlaylistView,
};
use crate::text::{opt_text, same_text, texts};

verus! {

/// A command of the phone.
#[derive(Debug)]
pub enum PlayerCommand {
    /// Play a playlist.
    SetPlaylist {
        /// The track to begin with.
        video_id: String,
        /// The tracks.
        video_ids: Vec<String>,
        /// The playlist's own id.
        list_id: String,
        /// Which of the tracks is the one to begin with.
        index: usize,
        /// The credential transfer token.
        ctt: Option<String>,
        /// Where to begin.
        current_time: Seconds,
    },
    /// Play one track.
    SetVideo {
        /// The track.
        video_id: String,
        /// The credential transfer token.
        ctt: Option<String>,
        /// Where to begin.
        current_time: Seconds,
    },
    /// Go on playing.
    Play,
    /// Pause.
    Pause,
    /// Go to a position.
    SeekTo {
        /// The position.
        position: Seconds,
    },
    /// Set the volume.
    SetVolume {
        /// The volume.
        volume: u32,
    },
    /// Tell the volume.
    GetVolume,
    /// Tell what is playing.
    GetNowPlaying,
    /// Tell the playlist.
    GetPlaylist,
    /// Stop.
    Stop,
    /// Change the playlist while it plays.
    UpdatePlaylist {
        /// The tracks.
        video_ids: Vec<String>,
        /// The playlist's own id; empty where it stays the same.
        list_id: String,
        /// Which track is the current one, where the phone says so.
        current_index: Option<usize>,
    },
    /// Go to the track before.
    Previous,
    /// Go to the track behind.
    Next,
    /// The phone has gone.
    RemoteDisconnected,
}

/// What a [`PlayerCommand`] says.
pub enum CommandView {
    /// Play a playlist.
    SetPlaylist {
        /// The track to begin with.
        video_id: Seq<char>,
        /// The tracks.
        video_ids: Seq<Seq<char>>,
        /// The playlist's own id.
        list_id: Seq<char>,
        /// Which of the tracks is the one to begin with.
        index: usize,
        /// The credential transfer token.
        ctt: Option<Seq<char>>,
        /// Where to begin.
        current_time: Seconds,
    },
    /// Play one track.
    SetVideo {
        /// The track.
        video_id: Seq<char>,
        /// The credential transfer token.
        ctt: Option<Seq<char>>,
        /// Where to begin.
        current_time: Seconds,
    },
    /// Go on playing.
    Play,
    /// Pause.
    Pause,
    /// Go to a position.
    SeekTo {
        /// The position.
        position: Seconds,
    },
    /// Set the volume.
    SetVolume {
        /// The volume.
        volume: u32,
    },
    /// Tell the volume.
    GetVolume,
    /// Tell what is playing.
    GetNowPlaying,
    /// Tell the playlist.
    GetPlaylist,
    /// Stop.
    Stop,
    /// Change the playlist while it plays.
    UpdatePlaylist {
        /// The tracks.
        video_ids: Seq<Seq<char>>,
        /// The playlist's own id; empty where it stays the same.
        list_id: Seq<char>,
        /// Which track is the current one, where the phone says so.
        current_index: Option<usize>,
    },
    /// Go to the track before.
    Previous,
    /// Go to the track behind.
    Next,
    /// The phone has gone.
    RemoteDisconnected,
}

impl View for PlayerCommand {
    type V = CommandView;

    open spec fn view(&self) -> CommandView {
        match self {
            PlayerCommand::SetPlaylist {
                video_id,
                video_ids,
                list_id,
                index,
                ctt,
                current_time,
            } => CommandView::SetPlaylist {
                video_id: video_id@,
                video_ids: texts(video_ids@),
                list_id: list_id@,
                index: *index,
                ctt: opt_text(*ctt),
                current_time: *current_time,
            },
            PlayerCommand::SetVideo { video_id, ctt, current_time } => CommandView::SetVideo {
                video_id: video_id@,
                ctt: opt_text(*ctt),
                current_time: *current_time,
            },
            PlayerCommand::Play => CommandView::Play,
            PlayerCommand::Pause => CommandView::Pause,
            PlayerCommand::SeekTo { position } => CommandView::SeekTo { position: *position },
            PlayerCommand::SetVolume { volume } => CommandView::SetVolume { volume: *volume },
            PlayerCommand::GetVolume => CommandView::GetVolume,
            PlayerCommand::GetNowPlaying => CommandView::GetNowPlaying,
            PlayerCommand::GetPlaylist => CommandView::GetPlaylist,
            PlayerCommand::Stop => CommandView::Stop,
            PlayerCommand::UpdatePlaylist {
                video_ids,
                list_id,
                current_index,
            } => CommandView::UpdatePlaylist {
                video_ids: texts(video_ids@),
                list_id: list_id@,
                current_index: *current_index,
            },
            PlayerCommand::Previous => CommandView::Previous,
            PlayerCommand::Next => CommandView::Next,
            PlayerCommand::RemoteDisconnected => CommandView::RemoteDisconnected,
        }
    }
}

/// What the music daemon says of itself.
#[derive(Debug)]
pub struct MpdStatus {
    /// What it does: `play`, `pause` or `stop`.
    pub state: String,
    /// Where it is, where it says so.
    pub elapsed: Option<Seconds>,
    /// How loud it is.
    pub volume: u32,
}

/// Why the daemon's status is asked for.
#[derive(Debug, Clone, Copy, PartialEq, Eq, Structural)]
pub enum Query {
    /// To report that the player is in this state.
    Report(PlayerState),
    /// To tell the volume.
    Volume,
    /// To tell what is playing.
    NowPlaying,
    /// To see whether the track has ended.
    Ended,
    /// To report the position.
    Position,
}

/// Something to be done.
#[derive(Debug)]
pub enum Op {
    /// Keep the credential transfer token for the stream.
    StoreToken(Option<String>),
    /// Resolve a track to a stream, and hand the result back with the start.
    Resolve {
        /// The track.
        video_id: String,
        /// The credential transfer token.
        ctt: Option<String>,
        /// The playlist's own id, where it has one.
        list_id: Option<String>,
        /// Where to begin.
        start: Seconds,
    },
    /// Clear the daemon's queue.
    Clear,
    /// Add a stream to the daemon's queue.
    Add(String),
    /// Make the daemon play.
    Play,
    /// Make the daemon seek.
    Seek(Seconds),
    /// Make the daemon go on.
    Resume,
    /// Make the daemon pause.
    Pause,
    /// Make the daemon stop.
    Stop,
    /// Set the daemon's volume.
    SetVolume(u32),
    /// Ask for the daemon's status, and hand it back with the query.
    Ask(Query),
    /// Send a message to the phone. That it cannot be sent is no failure.
    Send(OutgoingMessage),
    /// Note that playback has started. The player does this itself.
    MarkStarted,
    /// Forget the playlist. The player does this itself.
    Forget,
}

/// What an [`Op`] says.
pub enum OpView {
    /// Keep the credential transfer token for the stream.
    StoreToken(Option<Seq<char>>),
    /// Resolve a track to a stream, and hand the result back with the start.
    Resolve {
        /// The track.
        video_id: Seq<char>,
        /// The credential transfer token.
        ctt: Option<Seq<char>>,
        /// The playlist's own id, where it has one.
        list_id: Option<Seq<char>>,
        /// Where to begin.
        start: Seconds,
    },
    /// Clear the daemon's queue.
    Clear,
    /// Add a stream to the daemon's queue.
    Add(Seq<char>),
    /// Make the daemon play.
    Play,
    /// Make the daemon seek.
    Seek(Seconds),
    /// Make the daemon go on.
    Resume,
    /// Make the daemon pause.
    Pause,
    /// Make the daemon stop.
    Stop,
    /// Set the daemon's volume.
    SetVolume(u32),
    /// Ask for the daemon's status, and hand it back with the query.
    Ask(Query),
    /// Send a message to the phone.
    Send(MessageView),
    /// Note that playback has started.
    MarkStarted,
    /// Forget the playlist.
    Forget,
}

impl View for Op {
    type V = OpView;

    open spec fn view(&self) -> OpView {
        match self {
            Op::StoreToken(t) => OpView::StoreToken(opt_text(*t)),
            Op::Resolve { video_id, ctt, list_id, start } => OpView::Resolve {
                video_id: video_id@,
                ctt: opt_text(*ctt),
                list_id: opt_text(*list_id),
                start: *start,
            },
            Op::Clear => OpView::Clear,
            Op::Add(url) => OpView::Add(url@),
            Op::Play => OpView::Play,
            Op::Seek(t) => OpView::Seek(*t),
            Op::Resume => OpView::Resume,
            Op::Pause => OpView::Pause,
            Op::Stop => OpView::Stop,
            Op::SetVolume(v) => OpView::SetVolume(*v),
            Op::Ask(q) => OpView::Ask(*q),
            Op::Send(m) => OpView::Send(m@),
            Op::MarkStarted => OpView::MarkStarted,
            Op::Forget => OpView::Forget,
        }
    }
}

/// What a list of operations says.
pub open spec fn ops_view(ops: Seq<Op>) -> Seq<OpView> {
    ops.map_values(|op: Op| op@)
}

/// Nothing to be done.
pub open spec fn no_ops() -> Seq<OpView> {
    Seq::empty()
}

/// The player.
#[derive(Debug)]
pub struct Player {
    /// What is to be played.
    pub playlist: PlaylistState,
    /// Whether playback has started, so that its end means the end of a track.
    pub play_started: bool,
    /// What is still to be done.
    pub pending: Vec<Op>,
}

/// What a [`Player`] says.
pub struct PlayerView {
    /// What is to be played.
    pub playlist: PlaylistView,
    /// Whether playback has started.
    pub play_started: bool,
    /// What is still to be done.
    pub pending: Seq<OpView>,
}

impl View for Player {
    type V = PlayerView;

    open spec fn view(&self) -> PlayerView {
        PlayerView {
            playlist: self.playlist@,
            play_started: self.play_started,
            pending: ops_view(self.pending@),
        }
    }
}

/// The player's state that the daemon's word stands for; any other word means that it has stopped.
pub open spec fn player_state_of(state: Seq<char>) -> PlayerState {
    if state == "play"@ {
        PlayerState::Playing
    } else if state == "pause"@ {
        PlayerState::Paused
    } else {
        PlayerState::Stopped
    }
}

/// The player's state that the daemon's word stands for.
pub fn mpd_state_to_player_state(state: &str) -> (p: PlayerState)
    ensures
        p == player_state_of(state@),
{
    if same_text(state, "play") {
        PlayerState::Playing
    } else if same_text(state, "pause") {
        PlayerState::Paused
    } else {
        PlayerState::Stopped
    }
}

/// Where the daemon is; the beginning where it does not say.
pub open spec fn elapsed_of(status: MpdStatus) -> Seconds {
    match status.elapsed {
        Some(t) => t,
        None => zero_seconds(),
    }
}

/// The track to be resolved, with the token and the playlist's id where there are such.
pub open spec fn resolve_op(p: PlaylistView, video_id: Seq<char>, start: Seconds) -> OpView {
    OpView::Resolve {
        video_id,
        ctt: p.ctt,
        list_id: if p.list_id.len() == 0 {
            None
        } else {
            Some(p.list_id)
        },
        start,
    }
}

/// The index after a change of the playlist: the one that the phone gives, held within the list;
/// else the place at which the current track stands in it, or the beginning.
pub open spec fn updated_index(
    p: PlaylistView,
    video_ids: Seq<Seq<char>>,
    given: Option<usize>,
) -> usize {
    match given {
        Some(i) => if video_ids.len() == 0 {
            0
        } else if i < video_ids.len() {
            i
        } else {
            (video_ids.len() - 1) as usize
        },
        None => place_of(video_ids, p.current_video()) as usize,
    }
}

/// The playlist after a command has been taken. What an operation must come first for is not part
/// of it.
pub open spec fn commanded_playlist(p: PlaylistView, cmd: CommandView) -> PlaylistView {
    match cmd {
        CommandView::SetPlaylist { video_ids, list_id, index, ctt, .. } => PlaylistView {
            video_ids,
            current_index: index,
            list_id,
            ctt,
            ..p
        },
        CommandView::SetVideo { video_id, ctt, .. } => PlaylistView {
            video_ids: seq![video_id],
            current_index: 0,
            list_id: Seq::empty(),
            ctt,
            ..p
        },
        CommandView::UpdatePlaylist { video_ids, list_id, current_index } => PlaylistView {
            video_ids,
            current_index: updated_index(p, video_ids, current_index),
            list_id: if list_id.len() == 0 {
                p.list_id
            } else {
                list_id
            },
            ..p
        },
        CommandView::Previous => if p.has_previous() {
            PlaylistView { current_index: (p.current_index - 1) as usize, ..p }
        } else {
            p
        },
        CommandView::Next => if p.has_next() {
            PlaylistView { current_index: (p.current_index + 1) as usize, ..p }
        } else {
            p
        },
        _ => p,
    }
}

/// Whether a command ends what is playing.
pub open spec fn ends_playback(p: PlaylistView, cmd: CommandView) -> bool {
    match cmd {
        CommandView::SetPlaylist { .. } => true,
        CommandView::SetVideo { .. } => true,
        CommandView::Stop => true,
        CommandView::Previous => p.has_previous(),
        CommandView::Next => true,
        CommandView::RemoteDisconnected => true,
        _ => false,
    }
}

/// What is to be done for a command; `p` is the playlist after it has been taken, `was` the one
/// before.
pub open spec fn command_ops(was: PlaylistView, p: PlaylistView, cmd: CommandView) -> Seq<OpView> {
    match cmd {
        CommandView::SetPlaylist { video_id, ctt, current_time, .. } => no_ops().push(
            OpView::StoreToken(ctt),
        ).push(resolve_op(p, video_id, current_time)),
        CommandView::SetVideo { video_id, ctt, current_time } => no_ops().push(
            OpView::StoreToken(ctt),
        ).push(resolve_op(p, video_id, current_time)),
        CommandView::Play => no_ops().push(OpView::Resume).push(OpView::MarkStarted).push(
            OpView::Ask(Query::Report(PlayerState::Playing)),
        ),
        CommandView::Pause => no_ops().push(OpView::Pause).push(
            OpView::Ask(Query::Report(PlayerState::Paused)),
        ),
        CommandView::SeekTo { position } => no_ops().push(OpView::Seek(position)).push(
            OpView::Ask(Query::Report(PlayerState::Playing)),
        ),
        CommandView::SetVolume { volume } => no_ops().push(OpView::SetVolume(volume)).push(
            OpView::Send(volume_info(volume)),
        ),
        CommandView::GetVolume => no_ops().push(OpView::Ask(Query::Volume)),
        CommandView::GetNowPlaying => no_ops().push(OpView::Ask(Query::NowPlaying)),
        CommandView::GetPlaylist => no_ops().push(OpView::Send(playlist_info(p))),
        CommandView::Stop => no_ops().push(OpView::Stop).push(OpView::Clear).push(
            OpView::Forget,
        ).push(OpView::Ask(Query::Report(PlayerState::Stopped))),
        CommandView::UpdatePlaylist { .. } => no_ops().push(OpView::Send(navigation(p))).push(
            OpView::Send(playlist_info(p)),
        ),
        CommandView::Previous => if was.has_previous() {
            no_ops().push(resolve_op(p, p.current_video(), zero_seconds()))
        } else {
            no_ops()
        },
        CommandView::Next => if was.has_next() {
            no_ops().push(resolve_op(p, p.current_video(), zero_seconds()))
        } else {
            no_ops().push(OpView::Stop).push(OpView::Clear).push(
                OpView::Ask(Query::Report(PlayerState::Stopped)),
            )
        },
        CommandView::RemoteDisconnected => no_ops().push(OpView::Stop).push(OpView::Clear).push(
            OpView::Forget,
        ),
    }
}

/// The player after a command has been taken.
pub open spec fn commanded(p: PlayerView, cmd: CommandView) -> PlayerView {
    let playlist = commanded_playlist(p.playlist, cmd);
    PlayerView {
        playlist,
        play_started: p.play_started && !ends_playback(p.playlist, cmd),
        pending: command_ops(p.playlist, playlist, cmd),
    }
}

/// Whether a command can be taken: going back must lead to a track of the list.
pub open spec fn command_fits(p: PlaylistView, cmd: CommandView) -> bool {
    cmd is Previous && p.has_previous() ==> p.current_index <= p.video_ids.len()
}

/// The messages that report a state: what the player does, which track is on, and where one can go
/// from there.
pub open spec fn state_report(p: PlaylistView, state: PlayerState, elapsed: Seconds) -> Seq<
    OpView,
> {
    no_ops().push(
        OpView::Send(
            state_change(ArgView::State(state), ArgView::Time(elapsed), p.current_duration),
        ),
    ).push(
        OpView::Send(now_playing(p, ArgView::State(state), ArgView::Time(elapsed), true)),
    ).push(OpView::Send(navigation(p)))
}

/// The messages that report the end of a track.
pub open spec fn end_report(p: PlaylistView) -> Seq<OpView> {
    no_ops().push(
        OpView::Send(
            state_change(
                ArgView::Text("0"@),
                ArgView::WholeSeconds(p.current_duration),
                p.current_duration,
            ),
        ),
    ).push(
        OpView::Send(
            now_playing(
                p,
                ArgView::Text("0"@),
                ArgView::WholeSeconds(p.current_duration),
                true,
            ),
        ),
    )
}

/// The messages that report the position.
pub open spec fn position_report(p: PlaylistView, elapsed: Seconds) -> Seq<OpView> {
    no_ops().push(
        OpView::Send(
            state_change(ArgView::Text("1"@), ArgView::Time(elapsed), p.current_duration),
        ),
    ).push(OpView::Send(now_playing(p, ArgView::Text("1"@), ArgView::Time(elapsed), false)))
}

/// The player after the end of a track: the end is reported first, then the track behind it is to
/// be resolved, where there is one.
pub open spec fn track_ended(p: PlayerView) -> PlayerView {
    if p.playlist.has_next() {
        let playlist = PlaylistView {
            current_index: (p.playlist.current_index + 1) as usize,
            ..p.playlist
        };
        PlayerView {
            playlist,
            play_started: false,
            pending: end_report(p.playlist).push(
                resolve_op(playlist, playlist.current_video(), zero_seconds()),
            ) + p.pending,
        }
    } else {
        PlayerView { play_started: false, pending: end_report(p.playlist) + p.pending, ..p }
    }
}

/// The player after the daemon has told its status.
pub open spec fn told(p: PlayerView, query: Query, status: MpdStatus) -> PlayerView {
    let elapsed = elapsed_of(status);
    match query {
        Query::Report(state) => PlayerView {
            pending: state_report(p.playlist, state, elapsed) + p.pending,
            ..p
        },
        Query::Volume => PlayerView {
            pending: no_ops().push(OpView::Send(volume_info(status.volume))) + p.pending,
            ..p
        },
        Query::NowPlaying => PlayerView {
            pending: no_ops().push(
                OpView::Send(
                    now_playing(
                        p.playlist,
                        ArgView::State(player_state_of(status.state@)),
                        ArgView::Time(elapsed),
                        false,
                    ),
                ),
            ) + p.pending,
            ..p
        },
        Query::Ended => if p.play_started && status.state@ == "stop"@ {
            track_ended(p)
        } else {
            p
        },
        Query::Position => if p.play_started && p.playlist.video_ids.len() > 0 && status.state@
            == "play"@ {
            PlayerView { pending: position_report(p.playlist, elapsed) + p.pending, ..p }
        } else {
            p
        },
    }
}

/// What is to be done with a stream: play it from the start asked for, report it, and note that
/// playback has started.
pub open spec fn stream_ops(info: StreamInfoView, start: Seconds) -> Seq<OpView> {
    let playing = no_ops().push(OpView::Clear).push(OpView::Add(info.stream_url)).push(
        OpView::Play,
    );
    let placed = if start.positive() {
        playing.push(OpView::Seek(start))
    } else {
        playing
    };
    placed.push(OpView::Ask(Query::Report(PlayerState::Playing))).push(OpView::MarkStarted)
}

/// The player after a track has been looked up. Without a stream nothing is played, and the player
/// goes to no other track by itself.
pub open spec fn resolved(
    p: PlayerView,
    start: Seconds,
    stream: Option<StreamInfoView>,
) -> PlayerView {
    match stream {
        Some(info) => PlayerView {
            playlist: PlaylistView {
                current_title: info.title,
                current_duration: info.duration,
                ..p.playlist
            },
            play_started: p.play_started,
            pending: stream_ops(info, start) + p.pending,
        },
        None => PlayerView {
            pending: no_ops().push(OpView::Ask(Query::Report(PlayerState::Stopped))) + p.pending,
            ..p
        },
    }
}

/// The player after it has done what it does itself at the front of its list.
pub open spec fn settled(p: PlayerView) -> PlayerView
    decreases p.pending.len(),
{
    if p.pending.len() == 0 {
        p
    } else if p.pending[0] is MarkStarted {
        settled(PlayerView { play_started: true, pending: p.pending.skip(1), ..p })
    } else if p.pending[0] is Forget {
        settled(
            PlayerView {
                playlist: p.playlist.forgotten(),
                pending: p.pending.skip(1),
                ..p
            },
        )
    } else {
        p
    }
}

/// Adds an operation to a list.
fn then_do(ops: &mut Vec<Op>, op: Op)
    ensures
        ops_view(final(ops)@) == ops_view(old(ops)@).push(op@),
{
    let ghost shown = op@;
    ops.push(op);
    assert(ops_view(ops@) =~= ops_view(old(ops)@).push(shown));
}

/// An empty list of operations.
fn nothing() -> (ops: Vec<Op>)
    ensures
        ops_view(ops@) == no_ops(),
{
    let ops: Vec<Op> = Vec::new();
    assert(ops_view(ops@) =~= no_ops());
    ops
}

/// The operation that resolves a track.
fn make_resolve(p: &PlaylistState, video_id: String, start: Seconds) -> (op: Op)
    ensures
        op@ == resolve_op(p@, video_id@, start),
{
    Op::Resolve {
        video_id,
        ctt: p.ctt.clone(),
        list_id: if p.list_id.as_str().is_empty() {
            None
        } else {
            Some(p.list_id.clone())
        },
        start,
    }
}

/// The index after a change of the playlist.
fn new_index(p: &PlaylistState, video_ids: &Vec<String>, given: Option<usize>) -> (index: usize)
    ensures
        index == updated_index(p@, texts(video_ids@), given),
{
    match given {
        Some(i) => if video_ids.len() == 0 {
            0
        } else if i < video_ids.len() {
            i
        } else {
            video_ids.len() - 1
        },
        None => {
            let current = current_video_id(p);
            find_place(video_ids, &current)
        },
    }
}

/// Adds the messages that report a state.
fn send_state(ops: &mut Vec<Op>, p: &PlaylistState, state: PlayerState, elapsed: Seconds)
    ensures
        ops_view(final(ops)@) == ops_view(old(ops)@) + state_report(p@, state, elapsed),
{
    then_do(
        ops,
        Op::Send(
            state_change_message(Arg::State(state), Arg::Time(elapsed), p.current_duration),
        ),
    );
    then_do(
        ops,
        Op::Send(now_playing_message(p, Arg::State(state), Arg::Time(elapsed), true)),
    );
    then_do(ops, Op::Send(navigation_message(p)));
    assert(ops_view(ops@) =~= ops_view(old(ops)@) + state_report(p@, state, elapsed));
}

impl Player {
    /// A player with nothing to play.
    pub fn new() -> (p: Player)
        ensures
            p@ == (PlayerView {
                playlist: empty_playlist(),
                play_started: false,
                pending: no_ops(),
            }),
    {
        Player { playlist: PlaylistState::default(), play_started: false, pending: nothing() }
    }

    /// Puts operations in front of what is still to be done.
    fn do_first(&mut self, ops: Vec<Op>)
        ensures
            final(self)@ == (PlayerView {
                pending: ops_view(ops@) + old(self)@.pending,
                ..old(self)@
            }),
    {
        let mut all = ops;
        let ghost first = all@;
        let ghost before = self.pending@;
        all.append(&mut self.pending);
        self.pending = all;
        assert(ops_view(self.pending@) =~= ops_view(first) + ops_view(before));
    }

    /// Drops what is still to be done, after an operation has failed.
    pub fn drop_pending(&mut self)
        ensures
            final(self)@ == (PlayerView { pending: no_ops(), ..old(self)@ }),
    {
        self.pending = nothing();
    }

    /// Takes the next operation.
    ///
    /// What the player does itself it does on the way, as all that stood before it has been done.
    pub fn next_op(&mut self) -> (op: Option<Op>)
        ensures
            ({
                let p = settled(old(self)@);
                if p.pending.len() == 0 {
                    op is None && final(self)@ == p
                } else {
                    &&& op matches Some(o) && o@ == p.pending[0]
                    &&& final(self)@ == (PlayerView { pending: p.pending.skip(1), ..p })
                }
            }),
    {
        loop
            invariant
                settled(self@) == settled(old(self)@),
            decreases self.pending@.len(),
        {
            if self.pending.len() == 0 {
                return None;
            }
            let ghost before = self.pending@;
            let ghost shown = self@;
            let op = self.pending.remove(0);
            assert(ops_view(self.pending@) =~= ops_view(before).skip(1));
            assert(shown.pending[0] == op@);
            match op {
                Op::MarkStarted => {
                    self.play_started = true;
                },
                Op::Forget => {
                    self.playlist.forget();
                },
                other => {
                    return Some(other);
                },
            }
        }
    }

    /// Whether a command can be taken: going back must lead to a track of the list.
    pub fn can_take(&self, cmd: &PlayerCommand) -> (ok: bool)
        ensures
            ok == command_fits(self@.playlist, cmd@),
    {
        match cmd {
            PlayerCommand::Previous => {
                self.playlist.current_index == 0 || self.playlist.current_index
                    <= self.playlist.video_ids.len()
            },
            _ => true,
        }
    }

    /// Begins to play the current track from its beginning.
    fn play_current(&self) -> (ops: Vec<Op>)
        ensures
            ops_view(ops@) == no_ops().push(
                resolve_op(self@.playlist, self@.playlist.current_video(), zero_seconds()),
            ),
    {
        let mut ops = nothing();
        let video_id = current_video_id(&self.playlist);
        then_do(&mut ops, make_resolve(&self.playlist, video_id, Seconds::zero()));
        ops
    }
}

/// Takes a command of the phone: changes the playlist at once, and lists what is to be done.
pub fn handle_command(player: &mut Player, cmd: PlayerCommand)
    requires
        old(player)@.pending.len() == 0,
        command_fits(old(player)@.playlist, cmd@),
    ensures
        final(player)@ == commanded(old(player)@, cmd@),
{
    let mut ops = nothing();
    match cmd {
        PlayerCommand::SetPlaylist { video_id, video_ids, list_id, index, ctt, current_time } => {
            player.playlist.video_ids = video_ids;
            player.playlist.current_index = index;
            player.playlist.list_id = list_id;
            player.playlist.ctt = ctt.clone();
            then_do(&mut ops, Op::StoreToken(ctt));
            player.play_started = false;
            then_do(&mut ops, make_resolve(&player.playlist, video_id, current_time));
        },
        PlayerCommand::SetVideo { video_id, ctt, current_time } => {
            let mut video_ids: Vec<String> = Vec::new();
            video_ids.push(video_id.clone());
            assert(texts(video_ids@) =~= seq![video_id@]);
            player.playlist.video_ids = video_ids;
            player.playlist.current_index = 0;
            player.playlist.list_id = String::new();
            player.playlist.ctt = ctt.clone();
            then_do(&mut ops, Op::StoreToken(ctt));
            player.play_started = false;
            assert(player.playlist@.list_id =~= Seq::empty());
            then_do(&mut ops, make_resolve(&player.playlist, video_id, current_time));
        },
        PlayerCommand::Play => {
            then_do(&mut ops, Op::Resume);
            then_do(&mut ops, Op::MarkStarted);
            then_do(&mut ops, Op::Ask(Query::Report(PlayerState::Playing)));
        },
        PlayerCommand::Pause => {
            then_do(&mut ops, Op::Pause);
            then_do(&mut ops, Op::Ask(Query::Report(PlayerState::Paused)));
        },
        PlayerCommand::SeekTo { position } => {
            then_do(&mut ops, Op::Seek(position));
            then_do(&mut ops, Op::Ask(Query::Report(PlayerState::Playing)));
        },
        PlayerCommand::SetVolume { volume } => {
            then_do(&mut ops, Op::SetVolume(volume));
            then_do(&mut ops, Op::Send(send_volume(volume)));
        },
        PlayerCommand::GetVolume => {
            then_do(&mut ops, Op::Ask(Query::Volume));
        },
        PlayerCommand::GetNowPlaying => {
            then_do(&mut ops, Op::Ask(Query::NowPlaying));
        },
        PlayerCommand::GetPlaylist => {
            then_do(&mut ops, Op::Send(playlist_message(&player.playlist)));
        },
        PlayerCommand::Stop => {
            player.play_started = false;
            then_do(&mut ops, Op::Stop);
            then_do(&mut ops, Op::Clear);
            then_do(&mut ops, Op::Forget);
            then_do(&mut ops, Op::Ask(Query::Report(PlayerState::Stopped)));
        },
        PlayerCommand::UpdatePlaylist { video_ids, list_id, current_index } => {
            let index = new_index(&player.playlist, &video_ids, current_index);
            player.playlist.video_ids = video_ids;
            player.playlist.current_index = index;
            if !list_id.as_str().is_empty() {
                player.playlist.list_id = list_id;
            }
            then_do(&mut ops, Op::Send(navigation_message(&player.playlist)));
            then_do(&mut ops, Op::Send(playlist_message(&player.playlist)));
        },
        PlayerCommand::Previous => {
            if player.playlist.has_previous() {
                player.playlist.current_index -= 1;
                player.play_started = false;
                ops = player.play_current();
            }
        },
        PlayerCommand::Next => {
            if player.playlist.has_next() {
                player.playlist.current_index += 1;
                player.play_started = false;
                ops = player.play_current();
            } else {
                player.play_started = false;
                then_do(&mut ops, Op::Stop);
                then_do(&mut ops, Op::Clear);
                then_do(&mut ops, Op::Ask(Query::Report(PlayerState::Stopped)));
            }
        },
        PlayerCommand::RemoteDisconnected => {
            player.play_started = false;
            then_do(&mut ops, Op::Stop);
            then_do(&mut ops, Op::Clear);
            then_do(&mut ops, Op::Forget);
        },
    }
    player.pending = ops;
}

/// The player after the news that the daemon's state has changed.
pub open spec fn idled(p: PlayerView) -> PlayerView {
    PlayerView {
        pending: if p.play_started {
            no_ops().push(OpView::Ask(Query::Ended))
        } else {
            no_ops()
        },
        ..p
    }
}

/// Takes the news that the daemon's state has changed, which may mean that the track has ended.
pub fn handle_idle(player: &mut Player)
    requires
        old(player)@.pending.len() == 0,
    ensures
        final(player)@ == idled(old(player)@),
{
    let mut ops = nothing();
    if player.play_started {
        then_do(&mut ops, Op::Ask(Query::Ended));
    }
    player.pending = ops;
}

/// The player after the news that it is time to report the position.
pub open spec fn ticked(p: PlayerView) -> PlayerView {
    PlayerView { pending: no_ops().push(OpView::Ask(Query::Position)), ..p }
}

/// Takes the news that it is time to report the position. The status is asked for in any case,
/// which keeps the connection to the daemon alive.
pub fn handle_tick(player: &mut Player)
    requires
        old(player)@.pending.len() == 0,
    ensures
        final(player)@ == ticked(old(player)@),
{
    let mut ops = nothing();
    then_do(&mut ops, Op::Ask(Query::Position));
    player.pending = ops;
}

/// Takes what came of looking up a track.
///
/// Where there is a stream, it is played from the start asked for. Where there is none, the phone
/// is told that the player has stopped, and decides for itself how to go on.
pub fn play_video(player: &mut Player, start: Seconds, stream: Option<StreamInfo>)
    ensures
        final(player)@ == resolved(
            old(player)@,
            start,
            match stream {
                Some(info) => Some(info@),
                None => None,
            },
        ),
{
    let mut ops = nothing();
    match stream {
        Some(info) => {
            player.playlist.current_title = info.title;
            player.playlist.current_duration = info.duration;
            then_do(&mut ops, Op::Clear);
            then_do(&mut ops, Op::Add(info.stream_url));
            then_do(&mut ops, Op::Play);
            if start.is_positive() {
                then_do(&mut ops, Op::Seek(start));
            }
            then_do(&mut ops, Op::Ask(Query::Report(PlayerState::Playing)));
            then_do(&mut ops, Op::MarkStarted);
        },
        None => {
            then_do(&mut ops, Op::Ask(Query::Report(PlayerState::Stopped)));
        },
    }
    player.do_first(ops);
}

/// Takes the daemon's status, asked for with the given query.
pub fn handle_status(player: &mut Player, query: Query, status: MpdStatus)
    ensures
        final(player)@ == told(old(player)@, query, status),
{
    let mut ops = nothing();
    let elapsed = match status.elapsed {
        Some(t) => t,
        None => Seconds::zero(),
    };
    let duration = player.playlist.current_duration;
    match query {
        Query::Report(state) => {
            send_state(&mut ops, &player.playlist, state, elapsed);
            assert(no_ops() + state_report(player.playlist@, state, elapsed) =~= state_report(
                player.playlist@,
                state,
                elapsed,
            ));
        },
        Query::Volume => {
            then_do(&mut ops, Op::Send(send_volume(status.volume)));
        },
        Query::NowPlaying => {
            let state = mpd_state_to_player_state(status.state.as_str());
            then_do(
                &mut ops,
                Op::Send(
                    now_playing_message(
                        &player.playlist,
                        Arg::State(state),
                        Arg::Time(elapsed),
                        false,
                    ),
                ),
            );
        },
        Query::Ended => {
            if !player.play_started || !same_text(status.state.as_str(), "stop") {
                return;
            }
            player.play_started = false;
            then_do(
                &mut ops,
                Op::Send(
                    state_change_message(
                        Arg::Text("0".to_owned()),
                        Arg::WholeSeconds(duration),
                        duration,
                    ),
                ),
            );
            then_do(
                &mut ops,
                Op::Send(
                    now_playing_message(
                        &player.playlist,
                        Arg::Text("0".to_owned()),
                        Arg::WholeSeconds(duration),
                        true,
                    ),
                ),
            );
            if player.playlist.has_next() {
                player.playlist.current_index += 1;
                let video_id = current_video_id(&player.playlist);
                then_do(&mut ops, make_resolve(&player.playlist, video_id, Seconds::zero()));
            }
        },
        Query::Position => {
            if !player.play_started || player.playlist.video_ids.len() == 0 || !same_text(
                status.state.as_str(),
                "play",
            ) {
                return;
            }
            then_do(
                &mut ops,
                Op::Send(
                    state_change_message(
                        Arg::Text("1".to_owned()),
                        Arg::Time(elapsed),
                        duration,
                    ),
                ),
            );
            then_do(
                &mut ops,
                Op::Send(
                    now_playing_message(
                        &player.playlist,
                        Arg::Text("1".to_owned()),
                        Arg::Time(elapsed),
                        false,
                    ),
                ),
            );
        },
    }
    player.do_first(ops);
}

} // verus!
