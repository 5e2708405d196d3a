use ytcast::innertube::StreamInfo;
use ytcast::messages::{Arg, OutgoingMessage, PlayerState, Seconds};
use ytcast::player::{
    handle_command, handle_idle, handle_status, handle_tick, mpd_state_to_player_state, play_video,
    MpdStatus, Op, Player, PlayerCommand, Query,
};
use ytcast::playlist::{current_video_id, PlaylistState};

fn secs(t: f64) -> Seconds {
    Seconds { bits: t.to_bits() }
}

fn ids(list: &[&str]) -> Vec<String> {
    list.iter().map(|s| s.to_string()).collect()
}

fn command(p: &mut Player, cmd: PlayerCommand) {
    assert!(p.pending.is_empty());
    assert!(p.can_take(&cmd));
    handle_command(p, cmd);
}

fn set_playlist(p: &mut Player, list: &[&str], index: usize) {
    command(
        p,
        PlayerCommand::SetPlaylist {
            video_id: list[index].to_string(),
            video_ids: ids(list),
            list_id: "PL".to_string(),
            index,
            ctt: Some("tok".to_string()),
            current_time: secs(0.0),
        },
    );
}

fn status(state: &str, elapsed: Option<f64>, volume: u32) -> MpdStatus {
    MpdStatus { state: state.to_string(), elapsed: elapsed.map(secs), volume }
}

fn stream(title: &str, duration: u64, url: &str) -> StreamInfo {
    StreamInfo { title: title.to_string(), duration, stream_url: url.to_string() }
}

fn render_arg(a: &Arg) -> String {
    match a {
        Arg::Text(s) => s.clone(),
        Arg::State(s) => format!("{:?}", s),
        Arg::WholeSeconds(n) => format!("{:.3}", *n as f64),
        Arg::Time(t) => format!("{:.3}", f64::from_bits(t.bits)),
        Arg::Nonce => "*".to_string(),
    }
}

fn render(m: &OutgoingMessage) -> String {
    let args: Vec<String> =
        m.args.iter().map(|(k, a)| format!("{}={}", k, render_arg(a))).collect();
    format!("{}({})", m.name, args.join(" "))
}

fn render_op(op: &Op) -> String {
    match op {
        Op::Send(m) => render(m),
        Op::StoreToken(t) => format!("store {:?}", t),
        Op::Resolve { video_id, ctt, list_id, start } => {
            format!("resolve {} {:?} {:?} {}", video_id, ctt, list_id, f64::from_bits(start.bits))
        }
        Op::Seek(t) => format!("seek {}", f64::from_bits(t.bits)),
        Op::Add(url) => format!("add {}", url),
        Op::SetVolume(v) => format!("setvol {}", v),
        Op::Ask(q) => format!("ask {:?}", q),
        other => format!("{:?}", other).to_lowercase(),
    }
}

fn next(p: &mut Player) -> String {
    match p.next_op() {
        Some(op) => render_op(&op),
        None => "nothing".to_string(),
    }
}

fn drain(p: &mut Player) -> Vec<String> {
    let mut ops = Vec::new();
    while let Some(op) = p.next_op() {
        ops.push(render_op(&op));
    }
    ops
}

fn playing() -> Player {
    let mut p = Player::new();
    set_playlist(&mut p, &["a", "b", "c"], 1);
    assert_eq!(next(&mut p), "store Some(\"tok\")");
    assert_eq!(next(&mut p), "resolve b Some(\"tok\") Some(\"PL\") 0");
    play_video(&mut p, secs(0.0), Some(stream("B", 200, "u")));
    assert_eq!(next(&mut p), "clear");
    assert_eq!(next(&mut p), "add u");
    assert_eq!(next(&mut p), "play");
    assert_eq!(next(&mut p), "ask Report(Playing)");
    handle_status(&mut p, Query::Report(PlayerState::Playing), status("play", Some(0.5), 70));
    assert!(!p.play_started);
    assert_eq!(drain(&mut p).len(), 3);
    assert!(p.play_started);
    p
}

#[test]
fn default_playlist_is_empty() {
    let p = PlaylistState::default();
    assert!(p.video_ids.is_empty());
    assert_eq!(p.current_index, 0);
    assert_eq!(p.list_id, "");
    assert_eq!(p.ctt, None);
    assert_eq!(p.current_title, "");
    assert_eq!(p.current_duration, 0);
    assert_eq!(current_video_id(&p), "");
}

#[test]
fn current_video_is_the_one_at_the_index() {
    let mut p = PlaylistState::default();
    p.video_ids = ids(&["a", "b"]);
    assert_eq!(current_video_id(&p), "a");
    p.current_index = 1;
    assert_eq!(current_video_id(&p), "b");
    p.current_index = 2;
    assert_eq!(current_video_id(&p), "");
}

#[test]
fn daemon_states_are_told_apart() {
    assert_eq!(mpd_state_to_player_state("play"), PlayerState::Playing);
    assert_eq!(mpd_state_to_player_state("pause"), PlayerState::Paused);
    assert_eq!(mpd_state_to_player_state("stop"), PlayerState::Stopped);
    assert_eq!(mpd_state_to_player_state(""), PlayerState::Stopped);
    assert_eq!(mpd_state_to_player_state("Play"), PlayerState::Stopped);
}

#[test]
fn positive_seconds_are_those_above_zero() {
    for t in [
        0.0,
        -0.0,
        1.5,
        -1.5,
        f64::MIN_POSITIVE,
        5e-324,
        -5e-324,
        f64::MAX,
        f64::INFINITY,
        f64::NEG_INFINITY,
        f64::NAN,
        -f64::NAN,
    ] {
        assert_eq!(secs(t).is_positive(), t > 0.0, "{}", t);
    }
    assert_eq!(Seconds::zero().bits, 0.0f64.to_bits());
}

#[test]
fn tracks_are_played_and_reported() {
    let mut p = Player::new();
    command(
        &mut p,
        PlayerCommand::SetVideo {
            video_id: "v".to_string(),
            ctt: None,
            current_time: secs(12.5),
        },
    );
    assert_eq!(p.playlist.video_ids, ids(&["v"]));
    assert_eq!(next(&mut p), "store None");
    assert_eq!(next(&mut p), "resolve v None None 12.5");
    play_video(&mut p, secs(12.5), Some(stream("T", 213, "http://localhost:8008/stream/v")));
    assert_eq!(p.playlist.current_title, "T");
    assert_eq!(next(&mut p), "clear");
    assert_eq!(next(&mut p), "add http://localhost:8008/stream/v");
    assert_eq!(next(&mut p), "play");
    assert_eq!(next(&mut p), "seek 12.5");
    assert_eq!(next(&mut p), "ask Report(Playing)");
    handle_status(&mut p, Query::Report(PlayerState::Playing), status("play", Some(12.5), 70));
    assert_eq!(
        drain(&mut p),
        vec![
            "onStateChange(state=Playing currentTime=12.500 duration=213.000)",
            "nowPlaying(videoId=v currentTime=12.500 duration=213.000 state=Playing listId= currentIndex=0 cpn=*)",
            "onHasPreviousNextChanged(hasPrevious=false hasNext=false)",
        ]
    );
    assert!(p.play_started);
}

#[test]
fn without_a_stream_nothing_is_skipped() {
    let mut p = playing();
    command(&mut p, PlayerCommand::Next);
    assert_eq!(p.playlist.current_index, 2);
    assert_eq!(next(&mut p), "resolve c Some(\"tok\") Some(\"PL\") 0");
    play_video(&mut p, secs(0.0), None);
    assert_eq!(next(&mut p), "ask Report(Stopped)");
    handle_status(&mut p, Query::Report(PlayerState::Stopped), status("stop", None, 70));
    let ops = drain(&mut p);
    assert_eq!(ops.len(), 3);
    assert_eq!(ops[0], "onStateChange(state=Stopped currentTime=0.000 duration=200.000)");
    assert_eq!(p.playlist.current_index, 2);
    assert!(!p.play_started);
}

#[test]
fn failures_drop_the_rest() {
    let mut p = Player::new();
    set_playlist(&mut p, &["a"], 0);
    next(&mut p);
    next(&mut p);
    p.drop_pending();
    assert_eq!(next(&mut p), "nothing");
    assert!(!p.play_started);

    let mut p = playing();
    command(&mut p, PlayerCommand::Stop);
    assert_eq!(next(&mut p), "stop");
    p.drop_pending();
    assert_eq!(p.playlist.video_ids.len(), 3);
    assert!(!p.play_started);
}

#[test]
fn resume_pause_and_seek_report_the_state() {
    let mut p = playing();
    command(&mut p, PlayerCommand::Pause);
    assert_eq!(next(&mut p), "pause");
    assert_eq!(next(&mut p), "ask Report(Paused)");
    assert!(p.play_started);
    p.play_started = false;
    command(&mut p, PlayerCommand::Play);
    assert_eq!(next(&mut p), "resume");
    assert!(!p.play_started);
    assert_eq!(next(&mut p), "ask Report(Playing)");
    assert!(p.play_started);
    command(&mut p, PlayerCommand::SeekTo { position: secs(33.0) });
    assert_eq!(next(&mut p), "seek 33");
    assert_eq!(next(&mut p), "ask Report(Playing)");
    assert_eq!(next(&mut p), "nothing");
}

#[test]
fn volume_is_set_and_told() {
    let mut p = Player::new();
    command(&mut p, PlayerCommand::SetVolume { volume: 0 });
    assert_eq!(drain(&mut p), vec!["setvol 0", "onVolumeChanged(volume=0 muted=true)"]);
    command(&mut p, PlayerCommand::GetVolume);
    assert_eq!(next(&mut p), "ask Volume");
    handle_status(&mut p, Query::Volume, status("stop", None, 55));
    assert_eq!(drain(&mut p), vec!["onVolumeChanged(volume=55 muted=false)"]);
}

#[test]
fn phone_can_ask_what_is_playing() {
    let mut p = playing();
    command(&mut p, PlayerCommand::GetNowPlaying);
    assert_eq!(next(&mut p), "ask NowPlaying");
    handle_status(&mut p, Query::NowPlaying, status("pause", Some(7.25), 55));
    assert_eq!(
        drain(&mut p),
        vec!["nowPlaying(videoId=b currentTime=7.250 duration=200.000 state=Paused listId=PL cpn=*)"]
    );
    command(&mut p, PlayerCommand::GetPlaylist);
    assert_eq!(
        drain(&mut p),
        vec!["nowPlayingPlaylist(videoIds=a,b,c currentIndex=1 listId=PL)"]
    );
}

#[test]
fn stop_forgets_the_playlist() {
    let mut p = playing();
    command(&mut p, PlayerCommand::Stop);
    assert!(!p.play_started);
    assert_eq!(next(&mut p), "stop");
    assert_eq!(next(&mut p), "clear");
    assert_eq!(p.playlist.video_ids.len(), 3);
    assert_eq!(next(&mut p), "ask Report(Stopped)");
    assert!(p.playlist.video_ids.is_empty());
    assert_eq!(p.playlist.list_id, "");
    assert_eq!(p.playlist.current_title, "");
    assert_eq!(p.playlist.current_duration, 0);
    assert_eq!(p.playlist.ctt.as_deref(), Some("tok"));
    handle_status(&mut p, Query::Report(PlayerState::Stopped), status("stop", None, 55));
    assert_eq!(drain(&mut p).len(), 3);
}

#[test]
fn disconnect_stops_in_silence() {
    let mut p = playing();
    command(&mut p, PlayerCommand::RemoteDisconnected);
    assert_eq!(drain(&mut p), vec!["stop", "clear"]);
    assert!(p.playlist.video_ids.is_empty());
    assert!(!p.play_started);
}

#[test]
fn updates_keep_the_current_track() {
    let mut p = playing();
    command(
        &mut p,
        PlayerCommand::UpdatePlaylist {
            video_ids: ids(&["x", "y", "b", "b"]),
            list_id: String::new(),
            current_index: None,
        },
    );
    assert_eq!(p.playlist.current_index, 2);
    assert_eq!(current_video_id(&p.playlist), "b");
    assert!(p.play_started);
    assert_eq!(
        drain(&mut p),
        vec![
            "onHasPreviousNextChanged(hasPrevious=true hasNext=true)",
            "nowPlayingPlaylist(videoIds=x,y,b,b currentIndex=2 listId=PL)",
        ]
    );
}

#[test]
fn updates_hold_the_index_within_the_list() {
    let update = |list: &[&str], index: Option<usize>| {
        let mut p = playing();
        command(
            &mut p,
            PlayerCommand::UpdatePlaylist {
                video_ids: ids(list),
                list_id: "PL2".to_string(),
                current_index: index,
            },
        );
        assert_eq!(p.playlist.list_id, "PL2");
        p.playlist.current_index
    };
    assert_eq!(update(&["x", "y"], Some(1)), 1);
    assert_eq!(update(&["x", "y"], Some(9)), 1);
    assert_eq!(update(&[], Some(9)), 0);
    assert_eq!(update(&["x", "y"], None), 0);
}

#[test]
fn next_and_previous_undo_each_other() {
    let mut p = playing();
    command(&mut p, PlayerCommand::Next);
    assert_eq!(next(&mut p), "resolve c Some(\"tok\") Some(\"PL\") 0");
    assert!(!p.play_started);
    command(&mut p, PlayerCommand::Previous);
    assert_eq!(next(&mut p), "resolve b Some(\"tok\") Some(\"PL\") 0");
    assert_eq!(p.playlist.current_index, 1);
    command(&mut p, PlayerCommand::Previous);
    assert_eq!(next(&mut p), "resolve a Some(\"tok\") Some(\"PL\") 0");
    p.play_started = true;
    command(&mut p, PlayerCommand::Previous);
    assert_eq!(next(&mut p), "nothing");
    assert!(p.play_started);
    assert_eq!(p.playlist.current_index, 0);
}

#[test]
fn next_at_the_end_stops() {
    let mut p = Player::new();
    set_playlist(&mut p, &["a"], 0);
    p.drop_pending();
    p.play_started = true;
    command(&mut p, PlayerCommand::Next);
    assert_eq!(drain(&mut p), vec!["stop", "clear", "ask Report(Stopped)"]);
    assert!(!p.play_started);
    assert_eq!(p.playlist.video_ids, ids(&["a"]));
}

#[test]
fn going_back_from_far_beyond_the_list_cannot_be_taken() {
    let mut p = Player::new();
    p.playlist.video_ids = ids(&["a", "b"]);
    p.playlist.current_index = 2;
    assert!(p.can_take(&PlayerCommand::Previous));
    p.playlist.current_index = 3;
    assert!(!p.can_take(&PlayerCommand::Previous));
    assert!(p.can_take(&PlayerCommand::Next));
    p.playlist.current_index = usize::MAX;
    command(&mut p, PlayerCommand::Next);
    assert_eq!(drain(&mut p)[0], "stop");
}

#[test]
fn end_of_a_track_is_told_before_the_next_is_looked_up() {
    let mut p = playing();
    handle_idle(&mut p);
    assert_eq!(next(&mut p), "ask Ended");
    handle_status(&mut p, Query::Ended, status("stop", None, 55));
    assert!(!p.play_started);
    assert_eq!(
        drain(&mut p),
        vec![
            "onStateChange(state=0 currentTime=200.000 duration=200.000)",
            "nowPlaying(videoId=b currentTime=200.000 duration=200.000 state=0 listId=PL currentIndex=1 cpn=*)",
            "resolve c Some(\"tok\") Some(\"PL\") 0",
        ]
    );
    assert_eq!(p.playlist.current_index, 2);
    p.play_started = true;
    handle_idle(&mut p);
    next(&mut p);
    handle_status(&mut p, Query::Ended, status("stop", None, 55));
    assert_eq!(drain(&mut p).len(), 2);
    assert_eq!(p.playlist.current_index, 2);
    handle_idle(&mut p);
    assert_eq!(next(&mut p), "nothing");
}

#[test]
fn daemon_that_goes_on_ends_no_track() {
    let mut p = playing();
    handle_idle(&mut p);
    next(&mut p);
    handle_status(&mut p, Query::Ended, status("play", Some(1.0), 55));
    assert!(p.play_started);
    assert_eq!(next(&mut p), "nothing");
}

#[test]
fn position_is_reported_while_playing() {
    let mut p = playing();
    handle_tick(&mut p);
    assert_eq!(next(&mut p), "ask Position");
    handle_status(&mut p, Query::Position, status("play", Some(9.0), 55));
    assert_eq!(
        drain(&mut p),
        vec![
            "onStateChange(state=1 currentTime=9.000 duration=200.000)",
            "nowPlaying(videoId=b currentTime=9.000 duration=200.000 state=1 listId=PL cpn=*)",
        ]
    );
    handle_tick(&mut p);
    next(&mut p);
    handle_status(&mut p, Query::Position, status("pause", Some(9.0), 55));
    assert_eq!(next(&mut p), "nothing");
    p.play_started = false;
    handle_tick(&mut p);
    assert_eq!(next(&mut p), "ask Position");
    handle_status(&mut p, Query::Position, status("play", Some(9.0), 55));
    assert_eq!(next(&mut p), "nothing");
}
