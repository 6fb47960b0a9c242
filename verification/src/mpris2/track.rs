//! A reference to a track within a media player's track list.
//!
//! Track identifiers are object paths: `/`, or `/`-separated non-empty
//! segments of ASCII letters, digits and underscores.  The constructor
//! validates that grammar, so a held identifier is always well-formed.

use vstd::prelude::*;

verus! {

broadcast use vstd::std_specs::vec::group_vec_axioms, vstd::seq::group_seq_axioms;

/// Whether `c` may appear inside an object-path segment.
pub open spec fn is_path_char(c: char) -> bool {
    ('A' <= c && c <= 'Z') || ('a' <= c && c <= 'z') || ('0' <= c && c <= '9') || c == '_'
}

/// The object-path grammar: a single `/`, or `/`-separated non-empty
/// segments of path characters with no trailing separator.
pub open spec fn is_object_path(s: Seq<char>) -> bool {
    &&& s.len() >= 1
    &&& s[0] == '/'
    &&& (s.len() == 1 || s[s.len() - 1] != '/')
    &&& forall|i: int|
        1 <= i < s.len() ==> (is_path_char(#[trigger] s[i]) || (s[i] == '/' && s[i - 1] != '/'))
}

/// Exec counterpart of [`is_path_char`].
pub fn is_path_char_exec(c: char) -> (r: bool)
    ensures
        r == is_path_char(c),
{
    ('A' <= c && c <= 'Z') || ('a' <= c && c <= 'z') || ('0' <= c && c <= '9') || c == '_'
}

/// Whether `s` is a well-formed object path.
pub fn check_object_path(s: &str) -> (r: bool)
    ensures
        r == is_object_path(s@),
{
    let n = s.unicode_len();
    if n == 0 {
        return false;
    }
    if s.get_char(0) != '/' {
        return false;
    }
    if n > 1 && s.get_char(n - 1) == '/' {
        return false;
    }
    let mut i: usize = 1;
    while i < n
        invariant
            1 <= i <= n,
            n == s@.len(),
            s@[0] == '/',
            forall|j: int|
                1 <= j < i ==> (is_path_char(#[trigger] s@[j]) || (s@[j] == '/' && s@[j - 1]
                    != '/')),
        decreases n - i,
    {
        let c = s.get_char(i);
        if is_path_char_exec(c) {
        } else if c == '/' {
            if s.get_char(i - 1) == '/' {
                return false;
            }
        } else {
            return false;
        }
        i = i + 1;
    }
    true
}

/// A reference to a media-player track: a validated object path.
#[derive(Debug)]
pub struct TrackId {
    path: String,
}

impl Clone for TrackId {
    fn clone(&self) -> (r: TrackId)
        ensures
            r@ == self@,
    {
        proof {
            use_type_invariant(self);
        }
        TrackId { path: self.path.clone() }
    }
}

impl TrackId {
    #[verifier::type_invariant]
    spec fn wf(&self) -> bool {
        is_object_path(self.path@)
    }
}

impl View for TrackId {
    type V = Seq<char>;

    closed spec fn view(&self) -> Seq<char> {
        self.path@
    }
}

impl TrackId {
    /// Builds a track reference from path text; `None` if the text is not
    /// a well-formed object path.
    pub fn new(path: String) -> (r: Option<TrackId>)
        ensures
            match r {
                Some(id) => is_object_path(path@) && id@ == path@,
                None => !is_object_path(path@),
            },
    {
        if check_object_path(path.as_str()) {
            Some(TrackId { path })
        } else {
            None
        }
    }

    /// The path text of the reference, always a well-formed object path.
    pub fn as_str(&self) -> (r: &str)
        ensures
            r@ == self@,
            is_object_path(self@),
    {
        proof {
            use_type_invariant(self);
        }
        self.path.as_str()
    }

    /// Consumes the reference and yields its path text, always a
    /// well-formed object path.
    pub fn into_inner(self) -> (r: String)
        ensures
            r@ == self@,
            is_object_path(self@),
    {
        proof {
            use_type_invariant(&self);
        }
        self.path
    }
}

impl PartialEq for TrackId {
    fn eq(&self, other: &TrackId) -> (r: bool) {
        self.path == other.path
    }
}

impl Eq for TrackId {}

impl vstd::std_specs::cmp::PartialEqSpecImpl for TrackId {
    open spec fn obeys_eq_spec() -> bool {
        true
    }

    open spec fn eq_spec(&self, other: &TrackId) -> bool {
        self@ == other@
    }
}

} // verus!
