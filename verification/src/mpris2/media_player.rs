//! The root surface of one media player instance.
//!
//! A [`MediaPlayer`] names a bound service instance and hands out the
//! per-interface surfaces of the same instance.  The track-list and
//! playlist surfaces depend on what the remote instance advertises, so
//! their constructors take the advertised flag and yield `None` when the
//! instance lacks the interface.

use vstd::prelude::*;

use crate::mpris2::player::Player;
use crate::mpris2::playlists::Playlists;
use crate::mpris2::track_list::TrackList;

verus! {

/// A bound root media-player surface: the bus name of one service
/// instance.
pub struct MediaPlayer {
    name: String,
}

impl View for MediaPlayer {
    type V = Seq<char>;

    closed spec fn view(&self) -> Seq<char> {
        self.name@
    }
}

impl MediaPlayer {
    /// Binds the root surface of the named service instance.
    pub fn new(name: String) -> (r: MediaPlayer)
        ensures
            r@ == name@,
    {
        MediaPlayer { name }
    }

    /// The bus name this surface is bound to.
    pub fn bus_name(&self) -> (r: &str)
        ensures
            r@ == self@,
    {
        self.name.as_str()
    }

    /// The playback-control surface of the same instance.
    pub fn player(&self) -> (r: Player)
        ensures
            r@ == self@,
    {
        Player::new(self.name.clone())
    }

    /// The track-list surface of the same instance, if the instance
    /// advertises one.
    pub fn track_list(&self, has_track_list: bool) -> (r: Option<TrackList>)
        ensures
            match r {
                Some(t) => has_track_list && t@ == self@,
                None => !has_track_list,
            },
    {
        if has_track_list {
            Some(TrackList::new(self.name.clone()))
        } else {
            None
        }
    }

    /// The playlist surface of the same instance, if a probe found the
    /// playlist interface itself present on the instance.
    pub fn playlists(&self, has_playlists: bool) -> (r: Option<Playlists>)
        ensures
            match r {
                Some(p) => has_playlists && p@ == self@,
                None => !has_playlists,
            },
    {
        if has_playlists {
            Some(Playlists::new(self.name.clone()))
        } else {
            None
        }
    }
}

} // verus!
