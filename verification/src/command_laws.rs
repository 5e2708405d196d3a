//! What each command, each status and each lookup makes the player do, for every playlist.
use vstd::prelude::*;
use crate::innertube::StreamInfoView;
use crate::messages::{
    message, navigation, now_playing, playlist_info, state_change, volume_info, ArgView,
    MessageView, PlayerState, Seconds,
};
use crate::player::{
    command_fits, commanded, elapsed_of, idled, player_state_of, resolved, settled, ticked, told,
    CommandView, MpdStatus, OpView, PlayerView, Query,
};
use crate::playlist::{empty_playlist, place_of, PlaylistView};
use crate::text::{decimal, joined};

verus! {

/// The track at a place of the playlist; none where the place is beyond it.
pub open spec fn track_at(p: PlaylistView, i: int) -> Seq<char> {
    if 0 <= i < p.video_ids.len() {
        p.video_ids[i]
    } else {
        Seq::empty()
    }
}

/// The lookup of a track with what the playlist knows: its token, and its own id unless it has none.
pub open spec fn lookup_of(p: PlaylistView, video_id: Seq<char>, start: Seconds) -> OpView {
    OpView::Resolve {
        video_id,
        ctt: p.ctt,
        list_id: if p.list_id.len() > 0 {
            Some(p.list_id)
        } else {
            None
        },
        start,
    }
}

/// The beginning of a track.
pub open spec fn beginning() -> Seconds {
    Seconds { bits: 0 }
}

/// A word for yes and one for no.
pub open spec fn yes_or_no(b: bool) -> ArgView {
    ArgView::Text(
        if b {
            "true"@
        } else {
            "false"@
        },
    )
}

/// The message that tells the state, the position and the length.
pub open spec fn tells_state(state: ArgView, time: ArgView, length: u64) -> OpView {
    OpView::Send(
        MessageView {
            name: "onStateChange"@,
            args: seq![
                ("state"@, state),
                ("currentTime"@, time),
                ("duration"@, ArgView::WholeSeconds(length)),
            ],
        },
    )
}

/// The message that tells which track is on, with its place in the list.
pub open spec fn tells_track(p: PlaylistView, state: ArgView, time: ArgView) -> OpView {
    OpView::Send(
        MessageView {
            name: "nowPlaying"@,
            args: seq![
                ("videoId"@, ArgView::Text(track_at(p, p.current_index as int))),
                ("currentTime"@, time),
                ("duration"@, ArgView::WholeSeconds(p.current_duration)),
                ("state"@, state),
                ("listId"@, ArgView::Text(p.list_id)),
                ("currentIndex"@, ArgView::Text(decimal(p.current_index as nat))),
                ("cpn"@, ArgView::Nonce),
            ],
        },
    )
}

/// The message that tells which track is on, without its place in the list.
pub open spec fn tells_track_only(p: PlaylistView, state: ArgView, time: ArgView) -> OpView {
    OpView::Send(
        MessageView {
            name: "nowPlaying"@,
            args: seq![
                ("videoId"@, ArgView::Text(track_at(p, p.current_index as int))),
                ("currentTime"@, time),
                ("duration"@, ArgView::WholeSeconds(p.current_duration)),
                ("state"@, state),
                ("listId"@, ArgView::Text(p.list_id)),
                ("cpn"@, ArgView::Nonce),
            ],
        },
    )
}

/// The message that tells whether there is a track before the current one and one behind it.
pub open spec fn tells_neighbours(p: PlaylistView) -> OpView {
    OpView::Send(
        MessageView {
            name: "onHasPreviousNextChanged"@,
            args: seq![
                ("hasPrevious"@, yes_or_no(p.current_index >= 1)),
                ("hasNext"@, yes_or_no(p.current_index + 2 <= p.video_ids.len())),
            ],
        },
    )
}

/// The message that tells the whole list.
pub open spec fn tells_list(p: PlaylistView) -> OpView {
    OpView::Send(
        MessageView {
            name: "nowPlayingPlaylist"@,
            args: seq![
                ("videoIds"@, ArgView::Text(joined(p.video_ids, ","@))),
                ("currentIndex"@, ArgView::Text(decimal(p.current_index as nat))),
                ("listId"@, ArgView::Text(p.list_id)),
            ],
        },
    )
}

/// The message that tells the volume.
pub open spec fn tells_volume(volume: u32) -> OpView {
    OpView::Send(
        MessageView {
            name: "onVolumeChanged"@,
            args: seq![
                ("volume"@, ArgView::Text(decimal(volume as nat))),
                ("muted"@, yes_or_no(volume == 0)),
            ],
        },
    )
}

/// The messages as they are composed.
proof fn lemma_messages(
    p: PlaylistView,
    state: ArgView,
    time: ArgView,
    length: u64,
    volume: u32,
)
    ensures
        OpView::Send(state_change(state, time, length)) == tells_state(state, time, length),
        OpView::Send(now_playing(p, state, time, true)) == tells_track(p, state, time),
        OpView::Send(now_playing(p, state, time, false)) == tells_track_only(p, state, time),
        OpView::Send(navigation(p)) == tells_neighbours(p),
        OpView::Send(playlist_info(p)) == tells_list(p),
        OpView::Send(volume_info(volume)) == tells_volume(volume),
{
    assert(state_change(state, time, length).args =~= tells_state(state, time, length)->Send_0.args);
    assert(p.current_video() =~= track_at(p, p.current_index as int));
    assert(now_playing(p, state, time, true).args =~= tells_track(p, state, time)->Send_0.args);
    assert(now_playing(p, state, time, false).args =~= tells_track_only(
        p,
        state,
        time,
    )->Send_0.args);
    assert(navigation(p).args =~= tells_neighbours(p)->Send_0.args);
    assert(playlist_info(p).args =~= tells_list(p)->Send_0.args);
    assert(volume_info(volume).args =~= tells_volume(volume)->Send_0.args);
}

/// Going forward leads to the track behind the current one and to nothing else: it becomes the
/// current one, and its lookup, from the beginning, is all that is to be done. Playback has not
/// started.
pub proof fn law_next_plays_the_track_behind(p: PlayerView)
    requires
        p.playlist.current_index + 1 < p.playlist.video_ids.len(),
        p.playlist.video_ids.len() <= usize::MAX,
    ensures
        ({
            let q = commanded(p, CommandView::Next);
            let i = p.playlist.current_index + 1;
            &&& q.playlist.current_index == i
            &&& q.playlist.current_video() == p.playlist.video_ids[i]
            &&& q.pending == seq![lookup_of(p.playlist, p.playlist.video_ids[i], beginning())]
            &&& !q.play_started
            &&& q.playlist == (PlaylistView { current_index: i as usize, ..p.playlist })
        }),
{
    let q = commanded(p, CommandView::Next);
    let i = p.playlist.current_index + 1;
    assert(q.pending =~= seq![lookup_of(p.playlist, p.playlist.video_ids[i], beginning())]);
}

/// Going back leads likewise to the track before the current one.
pub proof fn law_previous_plays_the_track_before(p: PlayerView)
    requires
        p.playlist.current_index > 0,
        p.playlist.current_index <= p.playlist.video_ids.len(),
    ensures
        command_fits(p.playlist, CommandView::Previous),
        ({
            let q = commanded(p, CommandView::Previous);
            let i = p.playlist.current_index - 1;
            &&& q.playlist.current_index == i
            &&& q.playlist.current_video() == p.playlist.video_ids[i]
            &&& q.pending == seq![lookup_of(p.playlist, p.playlist.video_ids[i], beginning())]
            &&& !q.play_started
            &&& q.playlist == (PlaylistView { current_index: i as usize, ..p.playlist })
        }),
{
    let q = commanded(p, CommandView::Previous);
    let i = p.playlist.current_index - 1;
    assert(q.pending =~= seq![lookup_of(p.playlist, p.playlist.video_ids[i], beginning())]);
}

/// At the end of the list going forward stops the daemon, clears its queue and reports that; at its
/// beginning going back does nothing. Neither changes the list.
pub proof fn law_list_has_two_ends(p: PlayerView)
    ensures
        p.playlist.current_index + 1 >= p.playlist.video_ids.len() ==> commanded(
            p,
            CommandView::Next,
        ) == (PlayerView {
            playlist: p.playlist,
            play_started: false,
            pending: seq![
                OpView::Stop,
                OpView::Clear,
                OpView::Ask(Query::Report(PlayerState::Stopped)),
            ],
        }),
        p.playlist.current_index == 0 ==> {
            &&& command_fits(p.playlist, CommandView::Previous)
            &&& commanded(p, CommandView::Previous) == (PlayerView { pending: seq![], ..p })
        },
{
    if p.playlist.current_index + 1 >= p.playlist.video_ids.len() {
        assert(commanded(p, CommandView::Next).pending =~= seq![
            OpView::Stop,
            OpView::Clear,
            OpView::Ask(Query::Report(PlayerState::Stopped)),
        ]);
    }
    if p.playlist.current_index == 0 {
        assert(commanded(p, CommandView::Previous).pending =~= seq![]);
    }
}

/// Only going back beyond the list cannot be taken.
pub proof fn law_commands_that_can_be_taken(p: PlaylistView, cmd: CommandView)
    ensures
        !(cmd is Previous) ==> command_fits(p, cmd),
        cmd is Previous ==> (command_fits(p, cmd) <==> p.current_index == 0 || p.current_index
            <= p.video_ids.len()),
{
}

/// A new playlist takes the place of the old one, and the track that the phone names is looked up
/// from the position that it names; only what is known of the old track stays until then.
pub proof fn law_playlist_is_set(
    p: PlayerView,
    video_id: Seq<char>,
    video_ids: Seq<Seq<char>>,
    list_id: Seq<char>,
    index: usize,
    ctt: Option<Seq<char>>,
    current_time: Seconds,
)
    ensures
        ({
            let q = commanded(
                p,
                CommandView::SetPlaylist { video_id, video_ids, list_id, index, ctt, current_time },
            );
            &&& q.playlist == (PlaylistView {
                video_ids,
                current_index: index,
                list_id,
                ctt,
                current_title: p.playlist.current_title,
                current_duration: p.playlist.current_duration,
            })
            &&& !q.play_started
            &&& q.pending == seq![
                OpView::StoreToken(ctt),
                lookup_of(q.playlist, video_id, current_time),
            ]
        }),
{
    let q = commanded(
        p,
        CommandView::SetPlaylist { video_id, video_ids, list_id, index, ctt, current_time },
    );
    assert(q.pending =~= seq![
        OpView::StoreToken(ctt),
        lookup_of(q.playlist, video_id, current_time),
    ]);
}

/// A single track becomes a list of one, without an id of its own.
pub proof fn law_video_is_set(
    p: PlayerView,
    video_id: Seq<char>,
    ctt: Option<Seq<char>>,
    current_time: Seconds,
)
    ensures
        ({
            let q = commanded(p, CommandView::SetVideo { video_id, ctt, current_time });
            &&& q.playlist.video_ids == seq![video_id]
            &&& q.playlist.current_index == 0
            &&& q.playlist.list_id.len() == 0
            &&& q.playlist.ctt == ctt
            &&& q.playlist.current_title == p.playlist.current_title
            &&& q.playlist.current_duration == p.playlist.current_duration
            &&& !q.play_started
            &&& q.pending == seq![
                OpView::StoreToken(ctt),
                OpView::Resolve { video_id, ctt, list_id: None, start: current_time },
            ]
        }),
{
    let q = commanded(p, CommandView::SetVideo { video_id, ctt, current_time });
    assert(q.pending =~= seq![
        OpView::StoreToken(ctt),
        OpView::Resolve { video_id, ctt, list_id: None, start: current_time },
    ]);
}

/// Resuming, pausing and seeking do that, and then report what the player does; resuming notes
/// before the report that playback has started. None of them changes the list, and none ends
/// playback.
pub proof fn law_transport_commands(p: PlayerView, position: Seconds)
    ensures
        commanded(p, CommandView::Play) == (PlayerView {
            pending: seq![
                OpView::Resume,
                OpView::MarkStarted,
                OpView::Ask(Query::Report(PlayerState::Playing)),
            ],
            ..p
        }),
        commanded(p, CommandView::Pause) == (PlayerView {
            pending: seq![OpView::Pause, OpView::Ask(Query::Report(PlayerState::Paused))],
            ..p
        }),
        commanded(p, CommandView::SeekTo { position }) == (PlayerView {
            pending: seq![
                OpView::Seek(position),
                OpView::Ask(Query::Report(PlayerState::Playing)),
            ],
            ..p
        }),
{
    assert(commanded(p, CommandView::Play).pending =~= seq![
        OpView::Resume,
        OpView::MarkStarted,
        OpView::Ask(Query::Report(PlayerState::Playing)),
    ]);
    assert(commanded(p, CommandView::Pause).pending =~= seq![
        OpView::Pause,
        OpView::Ask(Query::Report(PlayerState::Paused)),
    ]);
    assert(commanded(p, CommandView::SeekTo { position }).pending =~= seq![
        OpView::Seek(position),
        OpView::Ask(Query::Report(PlayerState::Playing)),
    ]);
}

/// The volume is set and told as it was given; questions are answered from the daemon's status or
/// from the list. None of these changes the player.
pub proof fn law_volume_and_questions(p: PlayerView, volume: u32)
    ensures
        commanded(p, CommandView::SetVolume { volume }) == (PlayerView {
            pending: seq![OpView::SetVolume(volume), tells_volume(volume)],
            ..p
        }),
        commanded(p, CommandView::GetVolume) == (PlayerView {
            pending: seq![OpView::Ask(Query::Volume)],
            ..p
        }),
        commanded(p, CommandView::GetNowPlaying) == (PlayerView {
            pending: seq![OpView::Ask(Query::NowPlaying)],
            ..p
        }),
        commanded(p, CommandView::GetPlaylist) == (PlayerView {
            pending: seq![tells_list(p.playlist)],
            ..p
        }),
{
    lemma_messages(p.playlist, ArgView::Nonce, ArgView::Nonce, 0, volume);
    assert(commanded(p, CommandView::SetVolume { volume }).pending =~= seq![
        OpView::SetVolume(volume),
        tells_volume(volume),
    ]);
    assert(commanded(p, CommandView::GetVolume).pending =~= seq![OpView::Ask(Query::Volume)]);
    assert(commanded(p, CommandView::GetNowPlaying).pending =~= seq![
        OpView::Ask(Query::NowPlaying),
    ]);
    assert(commanded(p, CommandView::GetPlaylist).pending =~= seq![tells_list(p.playlist)]);
}

/// Stopping and the phone's leaving stop the daemon, clear its queue and then forget the list;
/// stopping is reported. Until the daemon has obeyed the list stays.
pub proof fn law_stopping_commands(p: PlayerView)
    ensures
        commanded(p, CommandView::Stop) == (PlayerView {
            playlist: p.playlist,
            play_started: false,
            pending: seq![
                OpView::Stop,
                OpView::Clear,
                OpView::Forget,
                OpView::Ask(Query::Report(PlayerState::Stopped)),
            ],
        }),
        commanded(p, CommandView::RemoteDisconnected) == (PlayerView {
            playlist: p.playlist,
            play_started: false,
            pending: seq![OpView::Stop, OpView::Clear, OpView::Forget],
        }),
{
    assert(commanded(p, CommandView::Stop).pending =~= seq![
        OpView::Stop,
        OpView::Clear,
        OpView::Forget,
        OpView::Ask(Query::Report(PlayerState::Stopped)),
    ]);
    assert(commanded(p, CommandView::RemoteDisconnected).pending =~= seq![
        OpView::Stop,
        OpView::Clear,
        OpView::Forget,
    ]);
}

/// A changed list takes the place of the old one. The index is the one that the phone gives, or the
/// last where that is beyond the list; where it gives none, the first place of the current track, or
/// the beginning. An empty id leaves the list's own. The new neighbours and the new list are told.
pub proof fn law_playlist_is_updated(
    p: PlayerView,
    video_ids: Seq<Seq<char>>,
    list_id: Seq<char>,
    current_index: Option<usize>,
    k: int,
)
    requires
        video_ids.len() <= usize::MAX,
    ensures
        ({
            let q = commanded(
                p,
                CommandView::UpdatePlaylist { video_ids, list_id, current_index },
            );
            let i = q.playlist.current_index;
            let was = track_at(p.playlist, p.playlist.current_index as int);
            &&& q.playlist.video_ids == video_ids
            &&& q.playlist.list_id == (if list_id.len() > 0 {
                list_id
            } else {
                p.playlist.list_id
            })
            &&& q.playlist == (PlaylistView {
                video_ids: q.playlist.video_ids,
                list_id: q.playlist.list_id,
                current_index: i,
                ..p.playlist
            })
            &&& q.play_started == p.play_started
            &&& current_index is Some && current_index->0 < video_ids.len() ==> i
                == current_index->0
            &&& current_index is Some && current_index->0 >= video_ids.len() && video_ids.len() > 0
                ==> i == video_ids.len() - 1
            &&& video_ids.len() == 0 ==> i == 0
            &&& current_index is None && video_ids.contains(was) ==> i < video_ids.len()
                && video_ids[i as int] == was && (0 <= k < i ==> video_ids[k] != was)
            &&& current_index is None && !video_ids.contains(was) ==> i == 0
            &&& q.pending == seq![tells_neighbours(q.playlist), tells_list(q.playlist)]
        }),
{
    let q = commanded(p, CommandView::UpdatePlaylist { video_ids, list_id, current_index });
    let was = track_at(p.playlist, p.playlist.current_index as int);
    assert(p.playlist.current_video() =~= was);
    video_ids.index_of_first_ensures(was);
    lemma_messages(q.playlist, ArgView::Nonce, ArgView::Nonce, 0, 0);
    assert(q.pending =~= seq![tells_neighbours(q.playlist), tells_list(q.playlist)]);
}

/// A report carries the state that it is about and the position that the daemon gave, with the
/// track, its place and its length, and what stands on either side of it. It changes nothing.
pub proof fn law_report_carries_the_state(p: PlayerView, state: PlayerState, status: MpdStatus)
    ensures
        ({
            let q = told(p, Query::Report(state), status);
            let time = ArgView::Time(
                match status.elapsed {
                    Some(t) => t,
                    None => beginning(),
                },
            );
            &&& q.pending == seq![
                tells_state(ArgView::State(state), time, p.playlist.current_duration),
                tells_track(p.playlist, ArgView::State(state), time),
                tells_neighbours(p.playlist),
            ] + p.pending
            &&& q.playlist == p.playlist
            &&& q.play_started == p.play_started
        }),
{
    let q = told(p, Query::Report(state), status);
    let time = ArgView::Time(elapsed_of(status));
    lemma_messages(p.playlist, ArgView::State(state), time, p.playlist.current_duration, 0);
    assert(q.pending =~= seq![
        tells_state(ArgView::State(state), time, p.playlist.current_duration),
        tells_track(p.playlist, ArgView::State(state), time),
        tells_neighbours(p.playlist),
    ] + p.pending);
}

/// The phone's questions are answered with the daemon's volume, and with its state and position and
/// the current track. The answers change nothing.
pub proof fn law_questions_are_answered(p: PlayerView, status: MpdStatus)
    ensures
        told(p, Query::Volume, status) == (PlayerView {
            pending: seq![tells_volume(status.volume)] + p.pending,
            ..p
        }),
        ({
            let state = if status.state@ == "play"@ {
                PlayerState::Playing
            } else if status.state@ == "pause"@ {
                PlayerState::Paused
            } else {
                PlayerState::Stopped
            };
            let time = match status.elapsed {
                Some(t) => t,
                None => beginning(),
            };
            told(p, Query::NowPlaying, status) == (PlayerView {
                pending: seq![
                    tells_track_only(p.playlist, ArgView::State(state), ArgView::Time(time)),
                ] + p.pending,
                ..p
            })
        }),
{
    let state = player_state_of(status.state@);
    let time = ArgView::Time(elapsed_of(status));
    lemma_messages(p.playlist, ArgView::State(state), time, 0, status.volume);
    assert(told(p, Query::Volume, status).pending =~= seq![tells_volume(status.volume)]
        + p.pending);
    assert(told(p, Query::NowPlaying, status).pending =~= seq![
        tells_track_only(p.playlist, ArgView::State(state), time),
    ] + p.pending);
}

/// The end of a started track is told at its full length, as ended; the track behind it becomes the
/// current one and is looked up from the beginning, where there is one. Playback has not started.
pub proof fn law_track_ends(p: PlayerView, status: MpdStatus)
    requires
        p.play_started,
        status.state@ == "stop"@,
        p.playlist.video_ids.len() <= usize::MAX,
    ensures
        ({
            let q = told(p, Query::Ended, status);
            let i = p.playlist.current_index + 1;
            let length = p.playlist.current_duration;
            let end = ArgView::WholeSeconds(length);
            let report = seq![
                tells_state(ArgView::Text("0"@), end, length),
                tells_track(p.playlist, ArgView::Text("0"@), end),
            ];
            &&& !q.play_started
            &&& i < p.playlist.video_ids.len() ==> {
                &&& q.playlist == (PlaylistView { current_index: i as usize, ..p.playlist })
                &&& q.playlist.current_index == i
                &&& q.pending == report + seq![
                    lookup_of(p.playlist, p.playlist.video_ids[i], beginning()),
                ] + p.pending
            }
            &&& i >= p.playlist.video_ids.len() ==> q.playlist == p.playlist && q.pending == report
                + p.pending
        }),
{
    let q = told(p, Query::Ended, status);
    let i = p.playlist.current_index + 1;
    let length = p.playlist.current_duration;
    let end = ArgView::WholeSeconds(length);
    lemma_messages(p.playlist, ArgView::Text("0"@), end, length, 0);
    let report = seq![
        tells_state(ArgView::Text("0"@), end, length),
        tells_track(p.playlist, ArgView::Text("0"@), end),
    ];
    if i < p.playlist.video_ids.len() {
        assert(q.pending =~= report + seq![
            lookup_of(p.playlist, p.playlist.video_ids[i], beginning()),
        ] + p.pending);
    } else {
        assert(q.pending =~= report + p.pending);
    }
}

/// While a started track plays, its position is told as the daemon gave it; else nothing is. Nothing
/// changes.
pub proof fn law_position_is_told(p: PlayerView, status: MpdStatus)
    ensures
        ({
            let time = ArgView::Time(
                match status.elapsed {
                    Some(t) => t,
                    None => beginning(),
                },
            );
            let q = told(p, Query::Position, status);
            &&& p.play_started && p.playlist.video_ids.len() > 0 && status.state@ == "play"@ ==> q
                == (PlayerView {
                pending: seq![
                    tells_state(ArgView::Text("1"@), time, p.playlist.current_duration),
                    tells_track_only(p.playlist, ArgView::Text("1"@), time),
                ] + p.pending,
                ..p
            })
            &&& !p.play_started || p.playlist.video_ids.len() == 0 || status.state@ != "play"@ ==> q
                == p
        }),
{
    let time = ArgView::Time(elapsed_of(status));
    lemma_messages(
        p.playlist,
        ArgView::Text("1"@),
        time,
        p.playlist.current_duration,
        0,
    );
    if p.play_started && p.playlist.video_ids.len() > 0 && status.state@ == "play"@ {
        assert(told(p, Query::Position, status).pending =~= seq![
            tells_state(ArgView::Text("1"@), time, p.playlist.current_duration),
            tells_track_only(p.playlist, ArgView::Text("1"@), time),
        ] + p.pending);
    }
}

/// A stream that was found is played: the queue is cleared, the stream added and played, and sought
/// in where the start lies behind the beginning; then it is reported, and only then playback has
/// started. Its title and length are those of the current track from now on.
pub proof fn law_found_stream_is_played(p: PlayerView, start: Seconds, info: StreamInfoView)
    ensures
        ({
            let q = resolved(p, start, Some(info));
            let report = seq![
                OpView::Ask(Query::Report(PlayerState::Playing)),
                OpView::MarkStarted,
            ];
            let play = seq![OpView::Clear, OpView::Add(info.stream_url), OpView::Play];
            let late = 0 < start.bits <= 0x7ff0_0000_0000_0000;
            &&& late ==> q.pending == play + seq![OpView::Seek(start)] + report + p.pending
            &&& !late ==> q.pending == play + report + p.pending
            &&& q.play_started == p.play_started
            &&& q.playlist == (PlaylistView {
                current_title: info.title,
                current_duration: info.duration,
                ..p.playlist
            })
        }),
{
    let q = resolved(p, start, Some(info));
    let report = seq![OpView::Ask(Query::Report(PlayerState::Playing)), OpView::MarkStarted];
    let play = seq![OpView::Clear, OpView::Add(info.stream_url), OpView::Play];
    if 0 < start.bits <= 0x7ff0_0000_0000_0000 {
        assert(q.pending =~= play + seq![OpView::Seek(start)] + report + p.pending);
    } else {
        assert(q.pending =~= play + report + p.pending);
    }
}

/// Without a stream it is reported that the player has stopped, and nothing changes.
pub proof fn law_missing_stream_is_reported(p: PlayerView, start: Seconds)
    ensures
        resolved(p, start, None) == (PlayerView {
            pending: seq![OpView::Ask(Query::Report(PlayerState::Stopped))] + p.pending,
            ..p
        }),
{
    assert(resolved(p, start, None).pending =~= seq![
        OpView::Ask(Query::Report(PlayerState::Stopped)),
    ] + p.pending);
}

/// What the player does itself it does as soon as it comes first: it notes that playback has started,
/// or forgets all of the playlist but the token. It stops at the first operation for others.
pub proof fn law_player_does_its_own(p: PlayerView, rest: Seq<OpView>)
    ensures
        p.pending == seq![OpView::MarkStarted] + rest ==> settled(p) == settled(
            PlayerView { play_started: true, pending: rest, ..p },
        ),
        p.pending == seq![OpView::Forget] + rest ==> settled(p) == settled(
            PlayerView {
                playlist: PlaylistView {
                    video_ids: Seq::empty(),
                    current_index: 0,
                    list_id: Seq::empty(),
                    ctt: p.playlist.ctt,
                    current_title: Seq::empty(),
                    current_duration: 0,
                },
                pending: rest,
                ..p
            },
        ),
        p.pending.len() == 0 ==> settled(p) == p,
        p.pending.len() > 0 && !(p.pending[0] is MarkStarted) && !(p.pending[0] is Forget)
            ==> settled(p) == p,
{
    if p.pending == seq![OpView::MarkStarted] + rest {
        assert(p.pending.skip(1) =~= rest);
        assert(p.pending[0] is MarkStarted);
    }
    if p.pending == seq![OpView::Forget] + rest {
        assert(p.pending.skip(1) =~= rest);
        assert(p.pending[0] is Forget);
    }
}

/// When the daemon's state has changed, it is asked whether a started track has ended, and only
/// then; each tick asks for the position. Neither changes anything else.
pub proof fn law_news_lead_to_questions(p: PlayerView)
    ensures
        p.play_started ==> idled(p) == (PlayerView {
            pending: seq![OpView::Ask(Query::Ended)],
            ..p
        }),
        !p.play_started ==> idled(p) == (PlayerView { pending: seq![], ..p }),
        ticked(p) == (PlayerView { pending: seq![OpView::Ask(Query::Position)], ..p }),
{
    if p.play_started {
        assert(idled(p).pending =~= seq![OpView::Ask(Query::Ended)]);
    } else {
        assert(idled(p).pending =~= seq![]);
    }
    assert(ticked(p).pending =~= seq![OpView::Ask(Query::Position)]);
}

/// Nothing is in a playlist at first; the current track is the one at the index; there is one before
/// it unless the index is zero, and one behind it unless the index is the last.
pub proof fn law_playlist_and_its_index(p: PlaylistView)
    ensures
        empty_playlist().video_ids.len() == 0,
        empty_playlist().current_index == 0,
        empty_playlist().list_id.len() == 0,
        empty_playlist().ctt is None,
        empty_playlist().current_title.len() == 0,
        empty_playlist().current_duration == 0,
        p.current_index < p.video_ids.len() ==> p.current_video()
            == p.video_ids[p.current_index as int],
        p.current_index >= p.video_ids.len() ==> p.current_video().len() == 0,
        p.has_previous() <==> p.current_index >= 1,
        p.has_next() <==> p.current_index + 2 <= p.video_ids.len(),
{
}

/// The first place of a text in a list is one at which it stands, with none before; a text that is
/// not in the list has the place zero.
pub proof fn law_first_place(ids: Seq<Seq<char>>, id: Seq<char>, k: int)
    ensures
        ids.contains(id) ==> 0 <= place_of(ids, id) < ids.len() && ids[place_of(ids, id)] == id && (0
            <= k < place_of(ids, id) ==> ids[k] != id),
        !ids.contains(id) ==> place_of(ids, id) == 0,
{
    ids.index_of_first_ensures(id);
}

/// The daemon's words for its state: `play` and `pause` mean what they say, any other that it has
/// stopped. A number of seconds is greater than zero unless it is zero, negative or no number.
pub proof fn law_words_and_numbers(word: Seq<char>, t: Seconds)
    ensures
        player_state_of("play"@) == PlayerState::Playing,
        player_state_of("pause"@) == PlayerState::Paused,
        word != "play"@ && word != "pause"@ ==> player_state_of(word) == PlayerState::Stopped,
        t.positive() <==> t.bits != 0 && t.bits <= 0x7ff0_0000_0000_0000,
        message(word).name == word && message(word).args.len() == 0,
{
    reveal_strlit("play");
    reveal_strlit("pause");
    assert("play"@.len() == 4 && "pause"@.len() == 5);
}

} // verus!
