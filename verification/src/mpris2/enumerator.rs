//! Discovery of media-player instances on the bus.
//!
//! Player instances claim bus names under a fixed namespace.  The
//! enumerator filters a bus-name listing down to that namespace and turns
//! each ownership-change notification into the removal and addition events
//! it implies, removal first.

use vstd::prelude::*;

use crate::fault::BusFault;
use crate::mpris2::error::{error_from_bus, Error};
use crate::text::{contains, contains_seq, starts_with};

verus! {

broadcast use vstd::std_specs::vec::group_vec_axioms, vstd::seq::group_seq_axioms;

/// The bus-name namespace under which player instances register.
pub open spec fn player_prefix() -> Seq<char> {
    "org.mpris.MediaPlayer2."@
}

/// A change in which player instances are present on the bus.
#[derive(Debug, Clone)]
pub enum Event {
    /// The named instance left the bus.
    Remove(String),
    /// The named instance appeared on the bus.
    Add(String),
}

impl View for Event {
    type V = EventV;

    open spec fn view(&self) -> EventV {
        match self {
            Event::Remove(n) => EventV::Remove(n@),
            Event::Add(n) => EventV::Add(n@),
        }
    }
}

/// Mathematical model of an [`Event`].
pub enum EventV {
    Remove(Seq<char>),
    Add(Seq<char>),
}

impl DeepView for Event {
    type V = EventV;

    open spec fn deep_view(&self) -> EventV {
        self@
    }
}

/// The events a single ownership-change notification implies: nothing
/// for a name outside the player namespace; otherwise a removal when the
/// old owner was present, then an addition when a new owner is present.
pub open spec fn events_of_change(
    name: Seq<char>,
    old_owner: Option<Seq<char>>,
    new_owner: Option<Seq<char>>,
) -> Seq<EventV> {
    if !contains_seq(name, player_prefix()) {
        Seq::empty()
    } else {
        (if old_owner is Some {
            seq![EventV::Remove(name)]
        } else {
            Seq::empty()
        }) + (if new_owner is Some {
            seq![EventV::Add(name)]
        } else {
            Seq::empty()
        })
    }
}

/// Ownership transfer: one notification that both clears the old owner
/// and sets a new one for a player name yields exactly the removal and
/// then the addition, in that order.
pub proof fn lemma_transfer_order(name: Seq<char>, old_owner: Seq<char>, new_owner: Seq<char>)
    requires
        contains_seq(name, player_prefix()),
    ensures
        events_of_change(name, Some(old_owner), Some(new_owner)) =~= seq![
            EventV::Remove(name),
            EventV::Add(name),
        ],
{
}

/// Discovers the player instances on a bus and the changes among them.
pub struct Enumerator {}

impl Enumerator {
    /// A fresh enumerator.
    pub fn new() -> (r: Enumerator) {
        Enumerator {}
    }

    /// Filters a raw bus-name listing down to the player namespace,
    /// keeping order.
    pub fn players(&self, names: Vec<String>) -> (r: Vec<String>)
        ensures
            r.deep_view() == names.deep_view().filter(
                |n: Seq<char>| player_prefix().is_prefix_of(n),
            ),
    {
        let mut out: Vec<String> = Vec::new();
        let n = names.len();
        let mut i: usize = 0;
        proof {
            reveal(Seq::filter);
            assert(names.deep_view().take(0) =~= Seq::<Seq<char>>::empty());
            assert(names.deep_view().take(0).filter(
                |n: Seq<char>| player_prefix().is_prefix_of(n),
            ) =~= Seq::<Seq<char>>::empty());
        }
        while i < n
            invariant
                0 <= i <= n,
                n == names@.len(),
                names.deep_view().len() == n,
                forall|j: int| 0 <= j < n ==> #[trigger] names.deep_view()[j] == names@[j]@,
                out.deep_view() =~= names.deep_view().take(i as int).filter(
                    |n: Seq<char>| player_prefix().is_prefix_of(n),
                ),
            decreases n - i,
        {
            let ghost pred = |n: Seq<char>| player_prefix().is_prefix_of(n);
            let ghost pre = names.deep_view().take(i as int);
            let ghost post = names.deep_view().take(i as int + 1);
            proof {
                reveal(Seq::filter);
                assert(post =~= pre.push(names@[i as int]@));
                assert(post.drop_last() =~= pre);
                assert(post.last() == names@[i as int]@);
                assert(post.filter(pred) == if pred(names@[i as int]@) {
                    pre.filter(pred).push(names@[i as int]@)
                } else {
                    pre.filter(pred)
                });
            }
            if starts_with(names[i].as_str(), "org.mpris.MediaPlayer2.") {
                let ghost before = out.deep_view();
                out.push(names[i].clone());
                proof {
                    assert(out.deep_view() =~= before.push(names@[i as int]@));
                }
            }
            i = i + 1;
        }
        proof {
            assert(names.deep_view().take(n as int) =~= names.deep_view());
        }
        out
    }

    /// Turns one decoded ownership-change notification into the events
    /// it implies: for a name in the player namespace, a removal when the
    /// old owner was present, then an addition when a new owner is
    /// present; nothing for any other name.
    pub fn changes(
        &self,
        name: &String,
        old_owner: Option<String>,
        new_owner: Option<String>,
    ) -> (r: Vec<Event>)
        ensures
            r.deep_view() == events_of_change(
                name@,
                match old_owner {
                    Some(o) => Some(o@),
                    None => None,
                },
                match new_owner {
                    Some(o) => Some(o@),
                    None => None,
                },
            ),
    {
        let mut out: Vec<Event> = Vec::new();
        if contains(name.as_str(), "org.mpris.MediaPlayer2.") {
            if old_owner.is_some() {
                out.push(Event::Remove(name.clone()));
            }
            if new_owner.is_some() {
                out.push(Event::Add(name.clone()));
            }
        }
        proof {
            assert(out.deep_view() =~= events_of_change(
                name@,
                match old_owner {
                    Some(o) => Some(o@),
                    None => None,
                },
                match new_owner {
                    Some(o) => Some(o@),
                    None => None,
                },
            ));
        }
        out
    }

    /// Turns one raw notification into feed items: a notification whose
    /// arguments failed to decode contributes its fault as a single item
    /// and the feed goes on; a decoded one contributes its events.
    pub fn changes_for_notification(
        &self,
        notification: Result<(String, Option<String>, Option<String>), BusFault>,
    ) -> (r: Vec<Result<Event, Error>>)
        ensures
            match notification {
                Ok((name, old_owner, new_owner)) => {
                    &&& r@.len() == events_of_change(
                        name@,
                        match old_owner {
                            Some(o) => Some(o@),
                            None => None,
                        },
                        match new_owner {
                            Some(o) => Some(o@),
                            None => None,
                        },
                    ).len()
                    &&& forall|i: int| 0 <= i < r@.len() ==> ((#[trigger] r@[i]) matches Ok(ev)
                        && ev@ == events_of_change(
                        name@,
                        match old_owner {
                            Some(o) => Some(o@),
                            None => None,
                        },
                        match new_owner {
                            Some(o) => Some(o@),
                            None => None,
                        },
                    )[i])
                },
                Err(e) => r@.len() == 1 && r@[0] == Err::<Event, Error>(error_from_bus(e)),
            },
    {
        match notification {
            Ok((name, old_owner, new_owner)) => {
                let events = self.changes(&name, old_owner, new_owner);
                let ghost evs = events.deep_view();
                let mut out: Vec<Result<Event, Error>> = Vec::new();
                let mut events = events;
                let n = events.len();
                proof {
                    assert(evs.len() == n);
                }
                let mut rev: Vec<Event> = Vec::new();
                while events.len() > 0
                    invariant
                        events@.len() + rev@.len() == n,
                        forall|j: int| 0 <= j < events@.len() ==> (#[trigger] events@[j])@
                            == evs[j],
                        forall|j: int| 0 <= j < rev@.len() ==> (#[trigger] rev@[j])@
                            == evs[n - 1 - j],
                    decreases events@.len(),
                {
                    let ev = match events.pop() {
                        Some(ev) => ev,
                        None => vstd::pervasive::unreached(),
                    };
                    rev.push(ev);
                }
                while rev.len() > 0
                    invariant
                        rev@.len() + out@.len() == n,
                        forall|j: int| 0 <= j < rev@.len() ==> (#[trigger] rev@[j])@
                            == evs[n - 1 - j],
                        forall|j: int| 0 <= j < out@.len() ==> ((#[trigger] out@[j]) matches Ok(
                            ev,
                        ) && ev@ == evs[j]),
                    decreases rev@.len(),
                {
                    let ev = match rev.pop() {
                        Some(ev) => ev,
                        None => vstd::pervasive::unreached(),
                    };
                    out.push(Ok(ev));
                }
                out
            }
            Err(e) => {
                let mut out: Vec<Result<Event, Error>> = Vec::new();
                out.push(Err(Error::from(e)));
                out
            }
        }
    }
}

} // verus!
