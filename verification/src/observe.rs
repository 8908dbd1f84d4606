//! The leadership observer: a resilient, reconnecting consumer of
//! leadership changes.
//!
//! An [`Observer`] turns the raw change feed of the store into an ordered
//! sequence of leadership-value snapshots: one event each time the
//! identity or value of the current leader changes.  It tracks the
//! current leader's key and the revision of the last event it delivered,
//! so that
//! - irrelevant changes (a losing candidacy appearing) are filtered out,
//! - after a stream interruption it re-resolves the current leader before
//!   resuming, and
//! - nothing already delivered is ever delivered again: every delivered
//!   event carries a revision strictly greater than the one before.

use vstd::prelude::*;

use crate::header::ResponseHeader;
use crate::model::has_leader;
use crate::model::leader_idx;
use crate::bytes::bytes_eq;
use crate::bytes::clone_bytes;
use crate::store::ElectionStore;

verus! {

/// A leadership-value snapshot: the current leader's announced value and
/// the revision of the write that produced it (in the header).
#[derive(Clone, Debug)]
pub struct LeadershipEvent {
    pub header: ResponseHeader,
    pub value: Vec<u8>,
}

/// One raw change event from a watch on a key prefix: which key changed,
/// at which revision, whether it was deleted, and the new value.
#[derive(Clone, Debug)]
pub struct WatchEvent {
    pub key: Vec<u8>,
    pub value: Vec<u8>,
    pub revision: i64,
    pub is_delete: bool,
}

/// The observer state, at the model level.
#[verifier::ext_equal]
pub ghost struct ObserverModel {
    /// The election being observed.
    pub name: Seq<u8>,
    /// The revision of the last delivered event; zero before the first.
    pub last_rev: int,
    /// The key of the leader currently watched, or nothing when the
    /// observer must re-resolve the leader before resuming.
    pub watch: Option<Seq<u8>>,
}

/// A leadership observer for one election.
#[derive(Debug)]
pub struct Observer {
    pub name: Vec<u8>,
    pub last_rev: i64,
    pub watch: Option<Vec<u8>>,
}

impl View for Observer {
    type V = ObserverModel;

    open spec fn view(&self) -> ObserverModel {
        ObserverModel {
            name: self.name@,
            last_rev: self.last_rev as int,
            watch: match self.watch {
                Some(k) => Some(k@),
                None => None,
            },
        }
    }
}

impl Observer {
    /// The delivery counter never goes negative.
    pub open spec fn wf(&self) -> bool {
        0 <= self.last_rev
    }

    /// A fresh observer for the election `name`.  A new observer starts a
    /// fresh sequence from the current state; it does not resume a prior
    /// consumer's position.
    pub fn new(name: Vec<u8>) -> (r: Self)
        ensures
            r@ == (ObserverModel { name: name@, last_rev: 0, watch: None }),
            r.wf(),
    {
        Observer { name, last_rev: 0, watch: None }
    }

    /// The election this observer watches.
    pub fn name(&self) -> (r: &[u8])
        ensures
            r@ == self@.name,
    {
        self.name.as_slice()
    }

    /// The revision of the last delivered event, or zero.
    pub fn last_revision(&self) -> (r: i64)
        ensures
            r == self.last_rev,
    {
        self.last_rev
    }

    /// Re-resolves the current leader, as done at the start of
    /// observation and after every stream interruption: reads the
    /// smallest-revision candidacy and delivers its state as an event —
    /// unless that state (or a later one) was already delivered, in which
    /// case nothing is re-delivered.  Afterwards the leader's key is
    /// watched.
    pub fn resync(&mut self, store: &ElectionStore) -> (r: Option<LeadershipEvent>)
        requires
            old(self).wf(),
            store@.wf(),
        ensures
            final(self).wf(),
            final(self)@.name == old(self)@.name,
            final(self)@.last_rev >= old(self)@.last_rev,
            r is Some ==> final(self)@.last_rev > old(self)@.last_rev,
            !has_leader(store@, old(self)@.name) ==> {
                &&& r is None
                &&& final(self)@ == (ObserverModel { watch: None, ..old(self)@ })
            },
            has_leader(store@, old(self)@.name) ==> ({
                let e = store@.entries[leader_idx(store@, old(self)@.name)];
                &&& final(self)@.watch == Some(e.key)
                &&& (e.mod_rev > old(self)@.last_rev ==> {
                    &&& r matches Some(ev)
                    &&& ev.value@ == e.value
                    &&& ev.header.revision as int == e.mod_rev
                    &&& final(self)@.last_rev == e.mod_rev
                })
                &&& (e.mod_rev <= old(self)@.last_rev ==> {
                    &&& r is None
                    &&& final(self)@.last_rev == old(self)@.last_rev
                })
            }),
    {
        match store.get_smallest(&self.name) {
            None => {
                self.watch = None;
                proof {
                    assert(self@ =~= (ObserverModel { watch: None, ..old(self)@ }));
                }
                None
            },
            Some(e) => {
                self.watch = Some(clone_bytes(&e.key));
                if e.mod_rev > self.last_rev {
                    self.last_rev = e.mod_rev;
                    Some(
                        LeadershipEvent {
                            header: ResponseHeader::new(0, 0, e.mod_rev, 0),
                            value: clone_bytes(&e.value),
                        },
                    )
                } else {
                    None
                }
            },
        }
    }

    /// Consumes one raw watch event while a leader key is watched.
    ///
    /// Changes to other keys are irrelevant and ignored.  A deletion of
    /// the watched key ends the watch: the observer must re-resolve the
    /// leader (`resync`) before it can deliver again.  An update of the
    /// watched key is delivered exactly when its revision is strictly
    /// greater than everything delivered so far; stale or duplicated
    /// events are suppressed.
    pub fn on_event(&mut self, ev: &WatchEvent) -> (r: Option<LeadershipEvent>)
        requires
            old(self).wf(),
            old(self)@.watch is Some,
        ensures
            final(self).wf(),
            final(self)@.name == old(self)@.name,
            final(self)@.last_rev >= old(self)@.last_rev,
            r is Some ==> final(self)@.last_rev > old(self)@.last_rev,
            ({
                let k = old(self)@.watch.unwrap();
                &&& (ev.key@ != k ==> r is None && final(self)@ == old(self)@)
                &&& (ev.key@ == k && ev.is_delete ==> {
                    &&& r is None
                    &&& final(self)@ == (ObserverModel { watch: None, ..old(self)@ })
                })
                &&& (ev.key@ == k && !ev.is_delete && ev.revision <= old(self).last_rev ==> {
                    &&& r is None
                    &&& final(self)@ == old(self)@
                })
                &&& (ev.key@ == k && !ev.is_delete && ev.revision > old(self).last_rev ==> {
                    &&& r matches Some(evt)
                    &&& evt.value@ == ev.value@
                    &&& evt.header.revision == ev.revision
                    &&& final(self)@ == (ObserverModel {
                        last_rev: ev.revision as int,
                        ..old(self)@
                    })
                })
            }),
    {
        let watched = match &self.watch {
            Some(k) => clone_bytes(k),
            None => Vec::new(),
        };
        if !bytes_eq(&ev.key, &watched) {
            proof {
                assert(self@ =~= old(self)@);
            }
            return None;
        }
        if ev.is_delete {
            self.watch = None;
            proof {
                assert(self@ =~= (ObserverModel { watch: None, ..old(self)@ }));
            }
            return None;
        }
        if ev.revision > self.last_rev {
            self.last_rev = ev.revision;
            proof {
                assert(self@ =~= (ObserverModel { last_rev: ev.revision as int, ..old(self)@ }));
            }
            Some(
                LeadershipEvent {
                    header: ResponseHeader::new(0, 0, ev.revision, 0),
                    value: clone_bytes(&ev.value),
                },
            )
        } else {
            proof {
                assert(self@ =~= old(self)@);
            }
            None
        }
    }

    /// Records a transport interruption of the underlying watch stream:
    /// the watch is gone, and the observer must re-resolve the leader
    /// before resuming.  What was already delivered stays delivered, so
    /// the resumed sequence starts strictly after it.
    pub fn on_interrupt(&mut self)
        ensures
            final(self)@ == (ObserverModel { watch: None, ..old(self)@ }),
            old(self).wf() ==> final(self).wf(),
    {
        self.watch = None;
        proof {
            assert(self@ =~= (ObserverModel { watch: None, ..old(self)@ }));
        }
    }
}

} // verus!
