//! What holds of the player whatever the phone and the daemon do.
use vstd::prelude::*;
use crate::innertube::StreamInfoView;
use crate::messages::{zero_seconds, ArgView, PlayerState, Seconds};
use crate::player::{
    command_fits, commanded, elapsed_of, end_report, no_ops, resolve_op, resolved, settled,
    state_report, stream_ops, told, CommandView, MpdStatus, OpView, PlayerView, Query,
};
use crate::playlist::PlaylistView;

verus! {

/// The operation that comes next.
pub open spec fn next_of(p: PlayerView) -> Option<OpView> {
    let s = settled(p);
    if s.pending.len() == 0 {
        None
    } else {
        Some(s.pending[0])
    }
}

/// The player once that operation has been taken.
pub open spec fn taken(p: PlayerView) -> PlayerView {
    let s = settled(p);
    if s.pending.len() == 0 {
        s
    } else {
        PlayerView { pending: s.pending.skip(1), ..s }
    }
}

/// What comes of an operation that does not fail.
pub enum Answer {
    /// It is done.
    Done,
    /// The daemon's status.
    Status(MpdStatus),
    /// The stream of a track, where there is one.
    Stream(Option<StreamInfoView>),
}

/// The player after the next operation has been performed with the given answer.
pub open spec fn performed(p: PlayerView, answer: Answer) -> PlayerView {
    let q = taken(p);
    match (next_of(p), answer) {
        (Some(OpView::Ask(query)), Answer::Status(status)) => told(q, query, status),
        (Some(OpView::Resolve { start, .. }), Answer::Stream(stream)) => resolved(q, start, stream),
        _ => q,
    }
}

/// Whether the index points at a track of the list, or the list is empty and the index zero.
pub open spec fn index_in_list(p: PlaylistView) -> bool {
    p.current_index < p.video_ids.len() || (p.video_ids.len() == 0 && p.current_index == 0)
}

/// The index stays within the list through every command, unless the phone itself sets a playlist
/// with an index beyond it; and as long as it does, every command can be taken.
pub proof fn law_index_stays_in_list(p: PlayerView, cmd: CommandView)
    requires
        index_in_list(p.playlist),
        p.playlist.video_ids.len() <= usize::MAX,
        cmd matches CommandView::SetPlaylist { video_ids, index, .. } ==> index < video_ids.len(),
        cmd matches CommandView::UpdatePlaylist { video_ids, .. } ==> video_ids.len() <= usize::MAX,
    ensures
        command_fits(p.playlist, cmd),
        index_in_list(commanded(p, cmd).playlist),
{
    if let CommandView::UpdatePlaylist { video_ids, current_index, .. } = cmd {
        video_ids.index_of_first_ensures(p.playlist.current_video());
    }
}

/// It stays there through every operation too.
pub proof fn law_index_stays_in_list_when_performed(p: PlayerView, answer: Answer)
    requires
        index_in_list(p.playlist),
        p.playlist.video_ids.len() <= usize::MAX,
    ensures
        index_in_list(performed(p, answer).playlist),
{
    lemma_settled_index(p);
}

/// Settling keeps the index within the list.
proof fn lemma_settled_index(p: PlayerView)
    requires
        index_in_list(p.playlist),
        p.playlist.video_ids.len() <= usize::MAX,
    ensures
        index_in_list(settled(p).playlist),
        settled(p).playlist.video_ids.len() <= usize::MAX,
    decreases p.pending.len(),
{
    if p.pending.len() > 0 {
        if p.pending[0] is MarkStarted {
            lemma_settled_index(
                PlayerView { play_started: true, pending: p.pending.skip(1), ..p },
            );
        } else if p.pending[0] is Forget {
            lemma_settled_index(
                PlayerView {
                    playlist: p.playlist.forgotten(),
                    pending: p.pending.skip(1),
                    ..p
                },
            );
        }
    }
}

/// Going to the track behind and then back leads to the same track.
pub proof fn law_previous_undoes_next(p: PlayerView)
    requires
        p.playlist.has_next(),
        p.playlist.video_ids.len() <= usize::MAX,
    ensures
        commanded(commanded(p, CommandView::Next), CommandView::Previous).playlist == p.playlist,
{
}

/// Going to the track before and then forward leads to the same track.
pub proof fn law_next_undoes_previous(p: PlayerView)
    requires
        p.playlist.has_previous(),
        index_in_list(p.playlist),
        p.playlist.video_ids.len() <= usize::MAX,
    ensures
        commanded(commanded(p, CommandView::Previous), CommandView::Next).playlist == p.playlist,
{
}

/// A change of the playlist keeps the current track where the new list holds it and the phone
/// names no index.
pub proof fn law_update_keeps_the_track(
    p: PlayerView,
    video_ids: Seq<Seq<char>>,
    list_id: Seq<char>,
)
    requires
        video_ids.contains(p.playlist.current_video()),
        video_ids.len() <= usize::MAX,
    ensures
        commanded(
            p,
            CommandView::UpdatePlaylist { video_ids, list_id, current_index: None },
        ).playlist.current_video() == p.playlist.current_video(),
{
    video_ids.index_of_first_ensures(p.playlist.current_video());
}

/// A change of the playlist neither starts nor ends playback, and asks nothing of the daemon.
pub proof fn law_update_leaves_playback(
    p: PlayerView,
    video_ids: Seq<Seq<char>>,
    list_id: Seq<char>,
    current_index: Option<usize>,
)
    ensures
        ({
            let q = commanded(
                p,
                CommandView::UpdatePlaylist { video_ids, list_id, current_index },
            );
            &&& q.play_started == p.play_started
            &&& forall|i: int| 0 <= i < q.pending.len() ==> (#[trigger] q.pending[i]) is Send
        }),
{
}

/// A pause leaves the next track to follow once playback goes on.
pub proof fn law_pause_keeps_playback_started(p: PlayerView)
    ensures
        commanded(p, CommandView::Pause).play_started == p.play_started,
        commanded(p, CommandView::Pause).playlist == p.playlist,
{
}

/// A new playlist brings its token to the store first, and then to the lookup of its first track.
pub proof fn law_token_of_playlist(
    p: PlayerView,
    video_id: Seq<char>,
    video_ids: Seq<Seq<char>>,
    list_id: Seq<char>,
    index: usize,
    ctt: Option<Seq<char>>,
    current_time: Seconds,
)
    ensures
        ({
            let q = commanded(
                p,
                CommandView::SetPlaylist { video_id, video_ids, list_id, index, ctt, current_time },
            );
            &&& q.pending.len() == 2
            &&& q.pending[0] == OpView::StoreToken(ctt)
            &&& q.pending[1] matches OpView::Resolve { video_id: v, ctt: c, start, .. } && v
                == video_id && c == ctt && start == current_time
            &&& !q.play_started
        }),
{
}

/// A single track brings its token to the store first, and then to its lookup.
pub proof fn law_token_of_video(
    p: PlayerView,
    video_id: Seq<char>,
    ctt: Option<Seq<char>>,
    current_time: Seconds,
)
    ensures
        ({
            let q = commanded(p, CommandView::SetVideo { video_id, ctt, current_time });
            &&& q.pending.len() == 2
            &&& q.pending[0] == OpView::StoreToken(ctt)
            &&& q.pending[1] matches OpView::Resolve { video_id: v, ctt: c, list_id, start } && v
                == video_id && c == ctt && list_id is None && start == current_time
            &&& !q.play_started
        }),
{
}

/// Every report of a state is three messages: the state, what is playing, and where one can go.
pub proof fn law_state_report_is_complete(
    p: PlayerView,
    state: PlayerState,
    status: MpdStatus,
)
    ensures
        ({
            let q = told(p, Query::Report(state), status);
            &&& q.pending.len() == p.pending.len() + 3
            &&& q.pending[0] matches OpView::Send(m) && m.name == "onStateChange"@
            &&& q.pending[1] matches OpView::Send(m) && m.name == "nowPlaying"@
            &&& q.pending[2] matches OpView::Send(m) && m.name == "onHasPreviousNextChanged"@
            &&& q.pending.skip(3) == p.pending
        }),
{
    let q = told(p, Query::Report(state), status);
    assert(q.pending.skip(3) =~= p.pending);
}

/// When a track has ended, the phone is told so before the next track is looked up, and the next
/// track is the one behind it.
pub proof fn law_end_is_told_before_advancing(p: PlayerView, status: MpdStatus)
    requires
        p.play_started,
        p.pending.len() == 0,
        status.state@ == "stop"@,
        p.playlist.video_ids.len() <= usize::MAX,
    ensures
        ({
            let q = told(p, Query::Ended, status);
            &&& !q.play_started
            &&& q.pending.take(2) == end_report(p.playlist)
            &&& p.playlist.has_next() ==> {
                &&& q.pending.len() == 3
                &&& q.pending[2] == resolve_op(
                    q.playlist,
                    p.playlist.video_ids[p.playlist.current_index + 1],
                    zero_seconds(),
                )
                &&& q.playlist.current_index == p.playlist.current_index + 1
            }
            &&& !p.playlist.has_next() ==> q.pending.len() == 2 && q.playlist == p.playlist
        }),
{
    let q = told(p, Query::Ended, status);
    assert(q.pending.take(2) =~= end_report(p.playlist));
}

/// Unless playback had started and the daemon has stopped, no track counts as ended.
pub proof fn law_nothing_ends_otherwise(p: PlayerView, status: MpdStatus)
    requires
        !p.play_started || status.state@ != "stop"@,
    ensures
        told(p, Query::Ended, status) == p,
{
}

/// Without a stream the player goes to no other track: it stays where it is and reports that it has
/// stopped.
pub proof fn law_no_stream_no_skip(p: PlayerView, start: Seconds, status: MpdStatus)
    requires
        p.pending.len() == 0,
    ensures
        ({
            let q = resolved(p, start, None);
            &&& q.playlist == p.playlist
            &&& q.play_started == p.play_started
            &&& next_of(q) == Some(OpView::Ask(Query::Report(PlayerState::Stopped)))
            &&& performed(q, Answer::Status(status)) == (PlayerView {
                pending: state_report(p.playlist, PlayerState::Stopped, elapsed_of(status)),
                ..p
            })
        }),
{
    let q = resolved(p, start, None);
    assert(q.pending =~= no_ops().push(OpView::Ask(Query::Report(PlayerState::Stopped))));
    assert(settled(q) == q);
    assert(taken(q).pending =~= no_ops());
    let report = state_report(p.playlist, PlayerState::Stopped, elapsed_of(status));
    assert(report + taken(q).pending =~= report);
    assert(p.pending =~= no_ops());
}

/// Playback counts as started only once the daemon plays the stream and the phone has been told.
pub proof fn law_started_after_all_is_done(p: PlayerView, info: StreamInfoView, start: Seconds)
    requires
        !p.play_started,
        p.pending.len() == 0,
    ensures
        ({
            let q = resolved(p, start, Some(info));
            &&& !q.play_started
            &&& q.pending == stream_ops(info, start)
            &&& q.pending.last() is MarkStarted
            &&& forall|i: int|
                0 <= i < q.pending.len() - 1 ==> !((#[trigger] q.pending[i]) is MarkStarted)
        }),
{
    let q = resolved(p, start, Some(info));
    assert(q.pending =~= stream_ops(info, start));
}

/// Stopping forgets the playlist, once the daemon has stopped and its queue has been cleared, and
/// then reports it.
pub proof fn law_stop_forgets(p: PlayerView, status: MpdStatus)
    ensures
        ({
            let a = commanded(p, CommandView::Stop);
            let b = performed(a, Answer::Done);
            let c = performed(b, Answer::Done);
            let d = performed(c, Answer::Status(status));
            &&& next_of(a) == Some(OpView::Stop)
            &&& next_of(b) == Some(OpView::Clear)
            &&& next_of(c) == Some(OpView::Ask(Query::Report(PlayerState::Stopped)))
            &&& b.playlist == p.playlist && c.playlist == p.playlist
            &&& d == (PlayerView {
                playlist: p.playlist.forgotten(),
                play_started: false,
                pending: state_report(
                    p.playlist.forgotten(),
                    PlayerState::Stopped,
                    elapsed_of(status),
                ),
            })
        }),
{
    let report = OpView::Ask(Query::Report(PlayerState::Stopped));
    let a = commanded(p, CommandView::Stop);
    assert(settled(a) == a);
    let b = performed(a, Answer::Done);
    assert(b.pending =~= no_ops().push(OpView::Clear).push(OpView::Forget).push(report));
    assert(settled(b) == b);
    let c = performed(b, Answer::Done);
    assert(c.pending =~= no_ops().push(OpView::Forget).push(report));
    let settling = PlayerView {
        playlist: p.playlist.forgotten(),
        pending: c.pending.skip(1),
        ..c
    };
    assert(settling.pending =~= no_ops().push(report));
    assert(settled(settling) == settling);
    assert(settled(c) == settling);
    assert(taken(c).pending =~= no_ops());
    let sends = state_report(p.playlist.forgotten(), PlayerState::Stopped, elapsed_of(status));
    assert(sends + taken(c).pending =~= sends);
}

/// When the phone has gone, playback stops, and nobody is told.
pub proof fn law_disconnect_is_silent(p: PlayerView)
    ensures
        ({
            let a = commanded(p, CommandView::RemoteDisconnected);
            let b = performed(a, Answer::Done);
            let c = performed(b, Answer::Done);
            &&& next_of(a) == Some(OpView::Stop)
            &&& next_of(b) == Some(OpView::Clear)
            &&& next_of(c) is None
            &&& taken(c) == (PlayerView {
                playlist: p.playlist.forgotten(),
                play_started: false,
                pending: no_ops(),
            })
        }),
{
    let a = commanded(p, CommandView::RemoteDisconnected);
    assert(settled(a) == a);
    let b = performed(a, Answer::Done);
    assert(b.pending =~= no_ops().push(OpView::Clear).push(OpView::Forget));
    assert(settled(b) == b);
    let c = performed(b, Answer::Done);
    assert(c.pending =~= no_ops().push(OpView::Forget));
    let settling = PlayerView {
        playlist: p.playlist.forgotten(),
        pending: c.pending.skip(1),
        ..c
    };
    assert(settling.pending =~= no_ops());
    assert(settled(settling) == settling);
}

/// The position is reported only while a started track plays, and reporting it changes nothing.
pub proof fn law_position_report_changes_nothing(p: PlayerView, status: MpdStatus)
    requires
        p.pending.len() == 0,
    ensures
        ({
            let q = told(p, Query::Position, status);
            &&& q.playlist == p.playlist
            &&& q.play_started == p.play_started
            &&& q.pending.len() > 0 <==> p.play_started && p.playlist.video_ids.len() > 0
                && status.state@ == "play"@
            &&& forall|i: int|
                0 <= i < q.pending.len() ==> {
                    &&& (#[trigger] q.pending[i]) is Send
                    &&& q.pending[i]->Send_0.args.contains(
                        ("currentTime"@, ArgView::Time(elapsed_of(status))),
                    )
                }
        }),
{
    let q = told(p, Query::Position, status);
    if q.pending.len() > 0 {
        let time = ("currentTime"@, ArgView::Time(elapsed_of(status)));
        assert(q.pending[0]->Send_0.args[1] == time);
        assert(q.pending[1]->Send_0.args[1] == time);
    }
}

} // verus!
