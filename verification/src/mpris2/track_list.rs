//! The track-list surface of one media player instance.
//!
//! Besides forwarding edit-call outcomes, the surface assembles the
//! detailed listing: the remote hands back an ordered list of track
//! references and a metadata batch fetched for exactly those references,
//! and [`TrackList::detailed_tracks`] pairs them positionally, truncating
//! to the shorter of the two.

use vstd::prelude::*;

use crate::fault::BusFault;
use crate::mpris2::error::{error_from_bus, Error};
use crate::mpris2::metadata::{decoded, MetaV, Metadata};
use crate::mpris2::track::TrackId;
use crate::wire::{wire_view, WireValue};

verus! {

broadcast use vstd::std_specs::vec::group_vec_axioms, vstd::seq::group_seq_axioms;

/// Whether `md` is the decoded form of the raw wire entries `b`.
pub open spec fn batch_decoded(b: Seq<(String, WireValue)>, md: Seq<(Seq<char>, MetaV)>) -> bool {
    &&& md.len() == b.len()
    &&& forall|j: int| 0 <= j < b.len() ==> md[j] == ((#[trigger] b[j]).0@,
        decoded(wire_view(b[j].1)))
}

/// A bound track-list surface: the bus name of one service instance.
pub struct TrackList {
    name: String,
}

impl View for TrackList {
    type V = Seq<char>;

    closed spec fn view(&self) -> Seq<char> {
        self.name@
    }
}

impl TrackList {
    /// Binds the track-list surface of the named service instance.
    pub fn new(name: String) -> (r: TrackList)
        ensures
            r@ == name@,
    {
        TrackList { name }
    }

    /// The bus name this surface is bound to.
    pub fn bus_name(&self) -> (r: &str)
        ensures
            r@ == self@,
    {
        self.name.as_str()
    }

    /// Forwards the outcome of adding a track.
    pub fn add_track(&self, outcome: Result<(), BusFault>) -> (r: Result<(), Error>)
        ensures
            match outcome {
                Ok(_) => r == Ok::<(), Error>(()),
                Err(e) => r == Err::<(), Error>(error_from_bus(e)),
            },
    {
        match outcome {
            Ok(_) => Ok(()),
            Err(e) => Err(Error::from(e)),
        }
    }

    /// Forwards the outcome of jumping to a track.
    pub fn go_to(&self, outcome: Result<(), BusFault>) -> (r: Result<(), Error>)
        ensures
            match outcome {
                Ok(_) => r == Ok::<(), Error>(()),
                Err(e) => r == Err::<(), Error>(error_from_bus(e)),
            },
    {
        match outcome {
            Ok(_) => Ok(()),
            Err(e) => Err(Error::from(e)),
        }
    }

    /// Forwards the outcome of removing a track.
    pub fn remove(&self, outcome: Result<(), BusFault>) -> (r: Result<(), Error>)
        ensures
            match outcome {
                Ok(_) => r == Ok::<(), Error>(()),
                Err(e) => r == Err::<(), Error>(error_from_bus(e)),
            },
    {
        match outcome {
            Ok(_) => Ok(()),
            Err(e) => Err(Error::from(e)),
        }
    }

    /// The ordered track references the remote reported, or the fault.
    pub fn tracks(&self, outcome: Result<Vec<TrackId>, BusFault>) -> (r: Result<
        Vec<TrackId>,
        Error,
    >)
        ensures
            match outcome {
                Ok(ids) => r == Ok::<Vec<TrackId>, Error>(ids),
                Err(e) => r == Err::<Vec<TrackId>, Error>(error_from_bus(e)),
            },
    {
        match outcome {
            Ok(ids) => Ok(ids),
            Err(e) => Err(Error::from(e)),
        }
    }

    /// Decodes a metadata batch, one map per requested track, in the
    /// order the remote returned them.
    pub fn get_tracks_metadata(
        &self,
        outcome: Result<Vec<Vec<(String, WireValue)>>, BusFault>,
    ) -> (r: Result<Vec<Metadata>, Error>)
        ensures
            match outcome {
                Ok(batches) => r matches Ok(v) && v@.len() == batches@.len() && forall|i: int|
                    0 <= i < batches@.len() ==> batch_decoded(
                        (#[trigger] batches@[i])@,
                        v@[i]@,
                    ),
                Err(e) => r == Err::<Vec<Metadata>, Error>(error_from_bus(e)),
            },
    {
        match outcome {
            Ok(mut batches) => {
                let ghost b0 = batches@;
                let n = batches.len();
                let mut rev: Vec<Metadata> = Vec::new();
                while batches.len() > 0
                    invariant
                        batches@.len() + rev@.len() == n,
                        n == b0.len(),
                        batches@ =~= b0.take(batches@.len() as int),
                        forall|j: int| 0 <= j < rev@.len() ==> batch_decoded(
                            (#[trigger] b0[n - 1 - j])@,
                            rev@[j]@,
                        ),
                    decreases batches@.len(),
                {
                    let entries = match batches.pop() {
                        Some(entries) => entries,
                        None => vstd::pervasive::unreached(),
                    };
                    proof {
                        assert(b0.take(batches@.len() as int + 1)[batches@.len() as int]
                            == b0[batches@.len() as int]);
                        assert(b0.take(batches@.len() as int + 1).drop_last() =~= b0.take(
                            batches@.len() as int,
                        ));
                    }
                    let md = Metadata::from(entries);
                    rev.push(md);
                }
                let mut out: Vec<Metadata> = Vec::new();
                while rev.len() > 0
                    invariant
                        rev@.len() + out@.len() == n,
                        n == b0.len(),
                        forall|j: int| 0 <= j < rev@.len() ==> batch_decoded(
                            (#[trigger] b0[n - 1 - j])@,
                            rev@[j]@,
                        ),
                        forall|j: int| 0 <= j < out@.len() ==> batch_decoded(
                            (#[trigger] b0[j])@,
                            out@[j]@,
                        ),
                    decreases rev@.len(),
                {
                    let md = match rev.pop() {
                        Some(md) => md,
                        None => vstd::pervasive::unreached(),
                    };
                    proof {
                        let k = rev@.len() as int;
                        assert(batch_decoded(b0[n - 1 - k]@, md@));
                        assert(n - 1 - k == out@.len() as int);
                    }
                    out.push(md);
                }
                Ok(out)
            }
            Err(e) => Err(Error::from(e)),
        }
    }

    /// Pairs an ordered track listing with its metadata batch
    /// positionally: entry `i` couples reference `i` with metadata map
    /// `i`, truncating to the shorter input.
    pub fn detailed_tracks(&self, tracks: Vec<TrackId>, metadata: Vec<Metadata>) -> (r: Vec<
        (TrackId, Metadata),
    >)
        ensures
            r@.len() == if tracks@.len() <= metadata@.len() {
                tracks@.len()
            } else {
                metadata@.len()
            },
            forall|i: int| 0 <= i < r@.len() ==> (#[trigger] r@[i]).0@ == tracks@[i]@,
            forall|i: int| 0 <= i < r@.len() ==> (#[trigger] r@[i]).1@ == metadata@[i]@,
    {
        let k = if tracks.len() <= metadata.len() {
            tracks.len()
        } else {
            metadata.len()
        };
        let mut out: Vec<(TrackId, Metadata)> = Vec::new();
        let mut i: usize = 0;
        while i < k
            invariant
                0 <= i <= k,
                k <= tracks@.len(),
                k <= metadata@.len(),
                out@.len() == i,
                forall|j: int| 0 <= j < i ==> (#[trigger] out@[j]).0@ == tracks@[j]@,
                forall|j: int| 0 <= j < i ==> (#[trigger] out@[j]).1@ == metadata@[j]@,
            decreases k - i,
        {
            let id = tracks[i].clone();
            let md = metadata[i].clone();
            out.push((id, md));
            i = i + 1;
        }
        out
    }
}

} // verus!
