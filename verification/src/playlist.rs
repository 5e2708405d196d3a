//! What is to be played, and where the receiver is in it.
use vstd::prelude::*;
use crate::text::{opt_text, texts};

verus! {

/// The playlist.
#[derive(Debug)]
pub struct PlaylistState {
    /// The tracks.
    pub video_ids: Vec<String>,
    /// Which of them is the current one.
    pub current_index: usize,
    /// The playlist's own id; empty where it has none.
    pub list_id: String,
    /// Credential transfer token from the cast session.
    pub ctt: Option<String>,
    /// The current track's title.
    pub current_title: String,
    /// The current track's length in seconds.
    pub current_duration: u64,
}

/// What a [`PlaylistState`] says.
#[verifier::ext_equal]
pub struct PlaylistView {
    /// The tracks.
    pub video_ids: Seq<Seq<char>>,
    /// Which of them is the current one.
    pub current_index: usize,
    /// The playlist's own id; empty where it has none.
    pub list_id: Seq<char>,
    /// Credential transfer token from the cast session.
    pub ctt: Option<Seq<char>>,
    /// The current track's title.
    pub current_title: Seq<char>,
    /// The current track's length in seconds.
    pub current_duration: u64,
}

impl View for PlaylistState {
    type V = PlaylistView;

    open spec fn view(&self) -> PlaylistView {
        PlaylistView {
            video_ids: texts(self.video_ids@),
            current_index: self.current_index,
            list_id: self.list_id@,
            ctt: opt_text(self.ctt),
            current_title: self.current_title@,
            current_duration: self.current_duration,
        }
    }
}

/// Nothing to play.
pub open spec fn empty_playlist() -> PlaylistView {
    PlaylistView {
        video_ids: Seq::empty(),
        current_index: 0,
        list_id: Seq::empty(),
        ctt: None,
        current_title: Seq::empty(),
        current_duration: 0,
    }
}

impl PlaylistView {
    /// The current track; empty where the index points at none.
    pub open spec fn current_video(self) -> Seq<char> {
        if self.current_index < self.video_ids.len() {
            self.video_ids[self.current_index as int]
        } else {
            Seq::empty()
        }
    }

    /// Whether there is a track before the current one.
    pub open spec fn has_previous(self) -> bool {
        self.current_index > 0
    }

    /// Whether there is a track behind the current one.
    pub open spec fn has_next(self) -> bool {
        self.current_index + 1 < self.video_ids.len()
    }

    /// The playlist with all but the token forgotten.
    pub open spec fn forgotten(self) -> PlaylistView {
        PlaylistView { ctt: self.ctt, ..empty_playlist() }
    }
}

impl Default for PlaylistState {
    fn default() -> (p: Self)
        ensures
            p@ == empty_playlist(),
    {
        let p = PlaylistState {
            video_ids: Vec::new(),
            current_index: 0,
            list_id: String::new(),
            ctt: None,
            current_title: String::new(),
            current_duration: 0,
        };
        assert(p@ =~= empty_playlist());
        p
    }
}

impl PlaylistState {
    /// Whether there is a track before the current one.
    pub fn has_previous(&self) -> (res: bool)
        ensures
            res == self@.has_previous(),
    {
        self.current_index > 0
    }

    /// Whether there is a track behind the current one.
    pub fn has_next(&self) -> (res: bool)
        ensures
            res == self@.has_next(),
            res ==> self.current_index < usize::MAX,
    {
        self.video_ids.len() > 0 && self.current_index < self.video_ids.len() - 1
    }

    /// Forgets all but the token.
    pub fn forget(&mut self)
        ensures
            final(self)@ == old(self)@.forgotten(),
    {
        self.video_ids = Vec::new();
        self.current_index = 0;
        self.list_id = String::new();
        self.current_title = String::new();
        self.current_duration = 0;
        assert(self@ =~= old(self)@.forgotten());
    }
}

/// The current track; empty where the index points at none.
pub fn current_video_id(playlist: &PlaylistState) -> (id: String)
    ensures
        id@ == playlist@.current_video(),
{
    if playlist.current_index < playlist.video_ids.len() {
        playlist.video_ids[playlist.current_index].clone()
    } else {
        String::new()
    }
}

/// The first place at which `id` stands in `ids`, or zero.
pub open spec fn place_of(ids: Seq<Seq<char>>, id: Seq<char>) -> int {
    match ids.index_of_first(id) {
        Some(i) => i,
        None => 0,
    }
}

/// Finds the first place at which `id` stands in `ids`; zero where it does not.
pub fn find_place(ids: &Vec<String>, id: &String) -> (place: usize)
    ensures
        place == place_of(texts(ids@), id@),
{
    let ghost all = texts(ids@);
    proof {
        all.index_of_first_ensures(id@);
    }
    let mut i: usize = 0;
    while i < ids.len()
        invariant
            i <= ids@.len(),
            all == texts(ids@),
            forall|j: int| 0 <= j < i ==> #[trigger] all[j] != id@,
            all.contains(id@) ==> {
                &&& 0 <= place_of(all, id@) < all.len()
                &&& all[place_of(all, id@)] == id@
                &&& forall|j: int| 0 <= j < place_of(all, id@) ==> #[trigger] all[j] != id@
            },
            !all.contains(id@) ==> place_of(all, id@) == 0,
        decreases ids@.len() - i,
    {
        assert(all[i as int] == ids@[i as int]@);
        if ids[i] == *id {
            assert(all.contains(id@));
            assert(place_of(all, id@) == i);
            return i;
        }
        i += 1;
    }
    0
}

} // verus!
