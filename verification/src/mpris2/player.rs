//! The playback-control surface of one media player instance.
//!
//! A [`Player`] names a bound service instance.  Each method takes the raw
//! outcome of the corresponding remote read or call and decides what the
//! caller sees: capability-optional properties surface as `Ok(None)` when
//! the remote lacks them, guarded operations degrade to no-ops when the
//! instance cannot perform them, and transport faults stay errors.

use vstd::prelude::*;

use crate::duration::Duration;
use crate::fault::BusFault;
use crate::mpris2::error::{error_from_bus, Error};
use crate::mpris2::handle_optional;
use crate::mpris2::handle_optional_spec;
use crate::mpris2::metadata::{decoded, Metadata};
use crate::text::{folded, matches_keyword};
use crate::wire::{wire_view, WireValue};

verus! {

broadcast use vstd::std_specs::vec::group_vec_axioms, vstd::seq::group_seq_axioms;

/// The transport state of a player.
#[derive(Debug, Clone, Copy, PartialEq, Eq, Structural)]
pub enum PlaybackStatus {
    /// A track is currently playing.
    Playing,
    /// A track is currently paused.
    Paused,
    /// There is no track currently playing.
    Stopped,
}

/// The status named by a piece of protocol text, compared case-folded and
/// with surrounding blanks stripped.
pub open spec fn playback_status_of(s: Seq<char>) -> Option<PlaybackStatus> {
    if folded(s) == "playing"@ {
        Some(PlaybackStatus::Playing)
    } else if folded(s) == "paused"@ {
        Some(PlaybackStatus::Paused)
    } else if folded(s) == "stopped"@ {
        Some(PlaybackStatus::Stopped)
    } else {
        None
    }
}

/// The wire text of a status.
pub open spec fn playback_status_text(v: PlaybackStatus) -> Seq<char> {
    match v {
        PlaybackStatus::Playing => "Playing"@,
        PlaybackStatus::Paused => "Paused"@,
        PlaybackStatus::Stopped => "Stopped"@,
    }
}

impl PlaybackStatus {
    /// Reads a status from protocol text, tolerating case and surrounding
    /// blanks; anything else is an invalid-keyword error naming the
    /// accepted vocabulary.
    pub fn from_str(s: &str) -> (r: Result<PlaybackStatus, Error>)
        ensures
            match playback_status_of(s@) {
                Some(v) => r == Ok::<PlaybackStatus, Error>(v),
                None => r matches Err(e) && e matches Error::InvalidEnum { got, expected }
                    && got@ == s@ && expected.deep_view() =~= seq![
                    "Playing"@,
                    "Paused"@,
                    "Stopped"@,
                ],
            },
    {
        if matches_keyword(s, "playing") {
            Ok(PlaybackStatus::Playing)
        } else if matches_keyword(s, "paused") {
            Ok(PlaybackStatus::Paused)
        } else if matches_keyword(s, "stopped") {
            Ok(PlaybackStatus::Stopped)
        } else {
            let expected = vec!["Playing", "Paused", "Stopped"];
            proof {
                assert(expected.deep_view() =~= seq!["Playing"@, "Paused"@, "Stopped"@]);
            }
            Err(Error::InvalidEnum { got: s.to_owned(), expected })
        }
    }

    /// The wire text of the status.
    pub fn as_str(&self) -> (r: &'static str)
        ensures
            r@ == playback_status_text(*self),
    {
        match self {
            PlaybackStatus::Playing => "Playing",
            PlaybackStatus::Paused => "Paused",
            PlaybackStatus::Stopped => "Stopped",
        }
    }
}

/// The repeat mode of a player.
#[derive(Debug, Clone, Copy, PartialEq, Eq, Structural)]
pub enum LoopStatus {
    /// Playback stops when there are no more tracks to play.
    NoLoop,
    /// The current track starts again once it has finished.
    Track,
    /// Playback loops through the whole list of tracks.
    Playlist,
}

/// The repeat mode named by a piece of protocol text.
pub open spec fn loop_status_of(s: Seq<char>) -> Option<LoopStatus> {
    if folded(s) == "none"@ {
        Some(LoopStatus::NoLoop)
    } else if folded(s) == "track"@ {
        Some(LoopStatus::Track)
    } else if folded(s) == "playlist"@ {
        Some(LoopStatus::Playlist)
    } else {
        None
    }
}

/// The wire text of a repeat mode.
pub open spec fn loop_status_text(v: LoopStatus) -> Seq<char> {
    match v {
        LoopStatus::NoLoop => "None"@,
        LoopStatus::Track => "Track"@,
        LoopStatus::Playlist => "Playlist"@,
    }
}

impl LoopStatus {
    /// Reads a repeat mode from protocol text, tolerating case and
    /// surrounding blanks.
    pub fn from_str(s: &str) -> (r: Result<LoopStatus, Error>)
        ensures
            match loop_status_of(s@) {
                Some(v) => r == Ok::<LoopStatus, Error>(v),
                None => r matches Err(e) && e matches Error::InvalidEnum { got, expected }
                    && got@ == s@ && expected.deep_view() =~= seq![
                    "None"@,
                    "Track"@,
                    "Playlist"@,
                ],
            },
    {
        if matches_keyword(s, "none") {
            Ok(LoopStatus::NoLoop)
        } else if matches_keyword(s, "track") {
            Ok(LoopStatus::Track)
        } else if matches_keyword(s, "playlist") {
            Ok(LoopStatus::Playlist)
        } else {
            let expected = vec!["None", "Track", "Playlist"];
            proof {
                assert(expected.deep_view() =~= seq!["None"@, "Track"@, "Playlist"@]);
            }
            Err(Error::InvalidEnum { got: s.to_owned(), expected })
        }
    }

    /// The wire text of the repeat mode.
    pub fn as_str(&self) -> (r: &'static str)
        ensures
            r@ == loop_status_text(*self),
    {
        match self {
            LoopStatus::NoLoop => "None",
            LoopStatus::Track => "Track",
            LoopStatus::Playlist => "Playlist",
        }
    }
}

/// A bound playback-control surface: the bus name of one service
/// instance.
pub struct Player {
    name: String,
}

impl View for Player {
    type V = Seq<char>;

    closed spec fn view(&self) -> Seq<char> {
        self.name@
    }
}

impl Player {
    /// Binds the playback surface of the named service instance.
    pub fn new(name: String) -> (r: Player)
        ensures
            r@ == name@,
    {
        Player { name }
    }

    /// The bus name this surface is bound to.
    pub fn bus_name(&self) -> (r: &str)
        ensures
            r@ == self@,
    {
        self.name.as_str()
    }

    /// The root media-player surface of the same instance.
    pub fn media_player(&self) -> (r: crate::mpris2::media_player::MediaPlayer)
        ensures
            r@ == self@,
    {
        crate::mpris2::media_player::MediaPlayer::new(self.name.clone())
    }

    /// Decides a guarded seek: against an instance that cannot seek the
    /// call is skipped and reports `Ok(false)`; otherwise the forwarded
    /// call outcome reports `Ok(true)` or its fault.
    pub fn seek(&self, can_seek: bool, outcome: Result<(), BusFault>) -> (r: Result<bool, Error>)
        ensures
            !can_seek ==> r == Ok::<bool, Error>(false),
            can_seek ==> match outcome {
                Ok(_) => r == Ok::<bool, Error>(true),
                Err(e) => r == Err::<bool, Error>(error_from_bus(e)),
            },
    {
        if can_seek {
            match outcome {
                Ok(_) => Ok(true),
                Err(e) => Err(Error::from(e)),
            }
        } else {
            Ok(false)
        }
    }

    /// Forwards the outcome of a position change.
    pub fn set_position(&self, outcome: Result<(), BusFault>) -> (r: Result<(), Error>)
        ensures
            match outcome {
                Ok(_) => r == Ok::<(), Error>(()),
                Err(e) => r == Err::<(), Error>(error_from_bus(e)),
            },
    {
        match outcome {
            Ok(_) => Ok(()),
            Err(e) => Err(Error::from(e)),
        }
    }

    /// Reads the capability-optional playback position, in microseconds.
    pub fn position(&self, outcome: Result<i64, BusFault>) -> (r: Result<Option<Duration>, Error>)
        ensures
            match handle_optional_spec(outcome) {
                Ok(o) => r == Ok::<Option<Duration>, Error>(
                    match o {
                        Some(m) => Some(Duration { microseconds: m }),
                        None => None,
                    },
                ),
                Err(e) => r == Err::<Option<Duration>, Error>(e),
            },
    {
        let with_duration: Result<Duration, BusFault> = match outcome {
            Ok(m) => Ok(Duration::microseconds(m)),
            Err(e) => Err(e),
        };
        handle_optional(with_duration)
    }

    /// Reads the playback status from the raw property text.
    pub fn playback_status(&self, outcome: Result<String, BusFault>) -> (r: Result<
        PlaybackStatus,
        Error,
    >)
        ensures
            match outcome {
                Ok(s) => match playback_status_of(s@) {
                    Some(v) => r == Ok::<PlaybackStatus, Error>(v),
                    None => r matches Err(e) && e matches Error::InvalidEnum { got, .. } && got@
                        == s@,
                },
                Err(e) => r == Err::<PlaybackStatus, Error>(error_from_bus(e)),
            },
    {
        match outcome {
            Ok(s) => PlaybackStatus::from_str(s.as_str()),
            Err(e) => Err(Error::from(e)),
        }
    }

    /// Reads the capability-optional playback rate, as an IEEE 754 bit
    /// pattern.
    pub fn rate(&self, outcome: Result<u64, BusFault>) -> (r: Result<Option<u64>, Error>)
        ensures
            r == handle_optional_spec(outcome),
    {
        handle_optional(outcome)
    }

    /// Forwards a rate change, treating "not supported" as success.
    pub fn set_rate(&self, outcome: Result<(), BusFault>) -> (r: Result<(), Error>)
        ensures
            match handle_optional_spec(outcome) {
                Ok(_) => r == Ok::<(), Error>(()),
                Err(e) => r == Err::<(), Error>(e),
            },
    {
        match handle_optional(outcome) {
            Ok(_) => Ok(()),
            Err(e) => Err(e),
        }
    }

    /// Reads the capability-optional minimum playback rate.
    pub fn minimum_rate(&self, outcome: Result<u64, BusFault>) -> (r: Result<Option<u64>, Error>)
        ensures
            r == handle_optional_spec(outcome),
    {
        handle_optional(outcome)
    }

    /// Reads the capability-optional maximum playback rate.
    pub fn maximum_rate(&self, outcome: Result<u64, BusFault>) -> (r: Result<Option<u64>, Error>)
        ensures
            r == handle_optional_spec(outcome),
    {
        handle_optional(outcome)
    }

    /// Combines the minimum and maximum rate readings into the available
    /// range: absent as soon as either bound is unsupported.
    pub fn available_rates(
        &self,
        minimum: Result<u64, BusFault>,
        maximum: Result<u64, BusFault>,
    ) -> (r: Result<Option<(u64, u64)>, Error>)
        ensures
            match handle_optional_spec(minimum) {
                Err(e) => r == Err::<Option<(u64, u64)>, Error>(e),
                Ok(None) => r == Ok::<Option<(u64, u64)>, Error>(None),
                Ok(Some(mn)) => match handle_optional_spec(maximum) {
                    Err(e) => r == Err::<Option<(u64, u64)>, Error>(e),
                    Ok(None) => r == Ok::<Option<(u64, u64)>, Error>(None),
                    Ok(Some(mx)) => r == Ok::<Option<(u64, u64)>, Error>(Some((mn, mx))),
                },
            },
    {
        let mn = match handle_optional(minimum) {
            Ok(Some(mn)) => mn,
            Ok(None) => {
                return Ok(None);
            }
            Err(e) => {
                return Err(e);
            }
        };
        match handle_optional(maximum) {
            Ok(Some(mx)) => Ok(Some((mn, mx))),
            Ok(None) => Ok(None),
            Err(e) => Err(e),
        }
    }

    /// Decodes the raw metadata dictionary of the playing track.
    pub fn metadata(&self, outcome: Result<Vec<(String, WireValue)>, BusFault>) -> (r: Result<
        Metadata,
        Error,
    >)
        ensures
            match outcome {
                Ok(entries) => r matches Ok(md) && md@.len() == entries@.len() && forall|i: int|
                    0 <= i < entries@.len() ==> md@[i] == ((#[trigger] entries@[i]).0@,
                    decoded(wire_view(entries@[i].1))),
                Err(e) => r == Err::<Metadata, Error>(error_from_bus(e)),
            },
    {
        match outcome {
            Ok(entries) => Ok(Metadata::from(entries)),
            Err(e) => Err(Error::from(e)),
        }
    }

    /// Reads the capability-optional shuffle flag; an instance that
    /// cannot be controlled reads as absent.
    pub fn shuffle(&self, can_control: bool, outcome: Result<bool, BusFault>) -> (r: Result<
        Option<bool>,
        Error,
    >)
        ensures
            !can_control ==> r == Ok::<Option<bool>, Error>(None),
            can_control ==> r == handle_optional_spec(outcome),
    {
        if can_control {
            handle_optional(outcome)
        } else {
            Ok(None)
        }
    }

    /// Forwards a shuffle change; against an instance that cannot be
    /// controlled the call is skipped and succeeds.
    pub fn set_shuffle(&self, can_control: bool, outcome: Result<(), BusFault>) -> (r: Result<
        (),
        Error,
    >)
        ensures
            !can_control ==> r == Ok::<(), Error>(()),
            can_control ==> match outcome {
                Ok(_) => r == Ok::<(), Error>(()),
                Err(e) => r == Err::<(), Error>(error_from_bus(e)),
            },
    {
        if can_control {
            match outcome {
                Ok(_) => Ok(()),
                Err(e) => Err(Error::from(e)),
            }
        } else {
            Ok(())
        }
    }

    /// Reads the capability-optional repeat mode from the raw property
    /// text; text naming no known mode reads as absent.
    pub fn loop_status(&self, can_control: bool, outcome: Result<String, BusFault>) -> (r: Result<
        Option<LoopStatus>,
        Error,
    >)
        ensures
            !can_control ==> r == Ok::<Option<LoopStatus>, Error>(None),
            can_control ==> match handle_optional_spec(outcome) {
                Err(e) => r == Err::<Option<LoopStatus>, Error>(e),
                Ok(None) => r == Ok::<Option<LoopStatus>, Error>(None),
                Ok(Some(s)) => r == Ok::<Option<LoopStatus>, Error>(loop_status_of(s@)),
            },
    {
        if can_control {
            match handle_optional(outcome) {
                Err(e) => Err(e),
                Ok(None) => Ok(None),
                Ok(Some(s)) => match LoopStatus::from_str(s.as_str()) {
                    Ok(v) => Ok(Some(v)),
                    Err(_) => Ok(None),
                },
            }
        } else {
            Ok(None)
        }
    }

    /// Forwards a repeat-mode change, treating "not supported" as
    /// success; against an instance that cannot be controlled the call is
    /// skipped and succeeds.
    pub fn set_loop_status(&self, can_control: bool, outcome: Result<(), BusFault>) -> (r: Result<
        (),
        Error,
    >)
        ensures
            !can_control ==> r == Ok::<(), Error>(()),
            can_control ==> match handle_optional_spec(outcome) {
                Ok(_) => r == Ok::<(), Error>(()),
                Err(e) => r == Err::<(), Error>(e),
            },
    {
        if can_control {
            match handle_optional(outcome) {
                Ok(_) => Ok(()),
                Err(e) => Err(e),
            }
        } else {
            Ok(())
        }
    }
}

} // verus!
