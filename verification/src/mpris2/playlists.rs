//! The playlist surface of one media player instance.
//!
//! Playlists are identified by validated object paths, carry a display
//! name and an icon location, and can be listed under a handful of
//! orderings named by fixed protocol keywords.

use vstd::prelude::*;

use crate::mpris2::error::{Error, ValueKind};
use crate::mpris2::track::{check_object_path, is_object_path};
use crate::text::{folded, matches_keyword};
use crate::wire::WireValue;

verus! {

broadcast use vstd::std_specs::vec::group_vec_axioms, vstd::seq::group_seq_axioms;

/// A reference to a playlist: a validated object path.
#[derive(Debug)]
pub struct PlaylistId {
    path: String,
}

impl PlaylistId {
    #[verifier::type_invariant]
    spec fn wf(&self) -> bool {
        is_object_path(self.path@)
    }
}

impl View for PlaylistId {
    type V = Seq<char>;

    closed spec fn view(&self) -> Seq<char> {
        self.path@
    }
}

impl Clone for PlaylistId {
    fn clone(&self) -> (r: PlaylistId)
        ensures
            r@ == self@,
    {
        proof {
            use_type_invariant(self);
        }
        PlaylistId { path: self.path.clone() }
    }
}

impl PlaylistId {
    /// Builds a playlist reference from path text; `None` if the text is
    /// not a well-formed object path.
    pub fn new(path: String) -> (r: Option<PlaylistId>)
        ensures
            match r {
                Some(id) => is_object_path(path@) && id@ == path@,
                None => !is_object_path(path@),
            },
    {
        if check_object_path(path.as_str()) {
            Some(PlaylistId { path })
        } else {
            None
        }
    }

    /// The path text of the reference, always a well-formed object path.
    pub fn as_str(&self) -> (r: &str)
        ensures
            r@ == self@,
            is_object_path(self@),
    {
        proof {
            use_type_invariant(self);
        }
        self.path.as_str()
    }

    /// Consumes the reference and yields its path text, always a
    /// well-formed object path.
    pub fn into_inner(self) -> (r: String)
        ensures
            r@ == self@,
            is_object_path(self@),
    {
        proof {
            use_type_invariant(&self);
        }
        self.path
    }
}

impl PartialEq for PlaylistId {
    fn eq(&self, other: &PlaylistId) -> (r: bool) {
        self.path == other.path
    }
}

impl Eq for PlaylistId {}

impl vstd::std_specs::cmp::PartialEqSpecImpl for PlaylistId {
    open spec fn obeys_eq_spec() -> bool {
        true
    }

    open spec fn eq_spec(&self, other: &PlaylistId) -> bool {
        self@ == other@
    }
}

/// One playlist: its reference, display name, and icon location.
#[derive(Debug)]
pub struct Playlist {
    id: PlaylistId,
    name: String,
    icon: String,
}

impl View for Playlist {
    type V = (Seq<char>, Seq<char>, Seq<char>);

    closed spec fn view(&self) -> (Seq<char>, Seq<char>, Seq<char>) {
        (self.id@, self.name@, self.icon@)
    }
}

impl Playlist {
    /// Couples a playlist reference with its display name and icon
    /// location.
    pub fn new(id: PlaylistId, name: String, icon: String) -> (r: Playlist)
        ensures
            r@ == (id@, name@, icon@),
    {
        Playlist { id, name, icon }
    }

    /// The playlist's reference.
    pub fn id(&self) -> (r: &PlaylistId)
        ensures
            r@ == self@.0,
    {
        &self.id
    }

    /// The playlist's display name.
    pub fn name(&self) -> (r: &str)
        ensures
            r@ == self@.1,
    {
        self.name.as_str()
    }

    /// The location of the playlist's icon.
    pub fn icon(&self) -> (r: &str)
        ensures
            r@ == self@.2,
    {
        self.icon.as_str()
    }
}

/// An ordering under which playlists can be listed.
#[derive(Debug, Clone, Copy, PartialEq, Eq, Structural)]
pub enum PlaylistOrdering {
    /// Alphabetical ordering by name, ascending.
    Alphabetical,
    /// Ordering by creation date, oldest first.
    CreationDate,
    /// Ordering by last modified date, oldest first.
    ModifiedDate,
    /// Ordering by date of last playback, oldest first.
    LastPlayDate,
    /// A user-defined ordering.
    UserDefined,
}

/// The ordering named by a piece of protocol text.
pub open spec fn playlist_ordering_of(s: Seq<char>) -> Option<PlaylistOrdering> {
    if folded(s) == "alphabetical"@ {
        Some(PlaylistOrdering::Alphabetical)
    } else if folded(s) == "created"@ {
        Some(PlaylistOrdering::CreationDate)
    } else if folded(s) == "modified"@ {
        Some(PlaylistOrdering::ModifiedDate)
    } else if folded(s) == "played"@ {
        Some(PlaylistOrdering::LastPlayDate)
    } else if folded(s) == "user"@ {
        Some(PlaylistOrdering::UserDefined)
    } else {
        None
    }
}

/// The wire text of an ordering.
pub open spec fn playlist_ordering_text(v: PlaylistOrdering) -> Seq<char> {
    match v {
        PlaylistOrdering::Alphabetical => "Alphabetical"@,
        PlaylistOrdering::CreationDate => "Created"@,
        PlaylistOrdering::ModifiedDate => "Modified"@,
        PlaylistOrdering::LastPlayDate => "Played"@,
        PlaylistOrdering::UserDefined => "User"@,
    }
}

impl PlaylistOrdering {
    /// Reads an ordering from protocol text, tolerating case and
    /// surrounding blanks.
    pub fn from_str(s: &str) -> (r: Result<PlaylistOrdering, Error>)
        ensures
            match playlist_ordering_of(s@) {
                Some(v) => r == Ok::<PlaylistOrdering, Error>(v),
                None => r matches Err(e) && e matches Error::InvalidEnum { got, expected }
                    && got@ == s@ && expected.deep_view() =~= seq![
                    "Alphabetical"@,
                    "Created"@,
                    "Modified"@,
                    "Played"@,
                    "User"@,
                ],
            },
    {
        if matches_keyword(s, "alphabetical") {
            Ok(PlaylistOrdering::Alphabetical)
        } else if matches_keyword(s, "created") {
            Ok(PlaylistOrdering::CreationDate)
        } else if matches_keyword(s, "modified") {
            Ok(PlaylistOrdering::ModifiedDate)
        } else if matches_keyword(s, "played") {
            Ok(PlaylistOrdering::LastPlayDate)
        } else if matches_keyword(s, "user") {
            Ok(PlaylistOrdering::UserDefined)
        } else {
            let expected = vec!["Alphabetical", "Created", "Modified", "Played", "User"];
            proof {
                assert(expected.deep_view() =~= seq![
                    "Alphabetical"@,
                    "Created"@,
                    "Modified"@,
                    "Played"@,
                    "User"@,
                ]);
            }
            Err(Error::InvalidEnum { got: s.to_owned(), expected })
        }
    }

    /// Reads an ordering from a wire value, which must be a string; any
    /// other shape is a shape error carrying the value.
    pub fn try_from(value: WireValue) -> (r: Result<PlaylistOrdering, Error>)
        ensures
            match value {
                WireValue::Str(s) => match playlist_ordering_of(s@) {
                    Some(v) => r == Ok::<PlaylistOrdering, Error>(v),
                    None => r matches Err(e) && e matches Error::InvalidEnum { got, .. }
                        && got@ == s@,
                },
                _ => r matches Err(e) && e matches Error::IncorrectValue { wanted, actual }
                    && wanted == ValueKind::Str && actual == value,
            },
    {
        match value {
            WireValue::Str(s) => PlaylistOrdering::from_str(s.as_str()),
            other => Err(Error::IncorrectValue { wanted: ValueKind::Str, actual: other }),
        }
    }

    /// The wire text of the ordering.
    pub fn as_str(&self) -> (r: &'static str)
        ensures
            r@ == playlist_ordering_text(*self),
    {
        match self {
            PlaylistOrdering::Alphabetical => "Alphabetical",
            PlaylistOrdering::CreationDate => "Created",
            PlaylistOrdering::ModifiedDate => "Modified",
            PlaylistOrdering::LastPlayDate => "Played",
            PlaylistOrdering::UserDefined => "User",
        }
    }
}

/// A bound playlist surface: the bus name of one service instance.
pub struct Playlists {
    name: String,
}

impl View for Playlists {
    type V = Seq<char>;

    closed spec fn view(&self) -> Seq<char> {
        self.name@
    }
}

impl Playlists {
    /// Binds the playlist surface of the named service instance.
    pub fn new(name: String) -> (r: Playlists)
        ensures
            r@ == name@,
    {
        Playlists { name }
    }

    /// The bus name this surface is bound to.
    pub fn bus_name(&self) -> (r: &str)
        ensures
            r@ == self@,
    {
        self.name.as_str()
    }
}

} // verus!
