//! The election session: the per-candidate state machine
//! `Idle -> Campaigning -> Leading -> Idle`.
//!
//! A session bundles the election name, the candidate's lease, and —
//! while held — the fencing token of its candidacy.  A campaign first
//! registers the candidacy ([`ElectionSession::campaign_start`]) and then
//! suspends until its key is the smallest live one; the driving loop
//! polls that condition ([`ElectionSession::campaign_poll`]) each time
//! the store changes.  While leading, the session can announce new
//! values and resign; losing the fencing check at any point sends the
//! session back to idle.

use vstd::prelude::*;

use crate::bytes::clone_bytes;
use crate::election::CampaignResponse;
use crate::election::LeaderKey;
use crate::election::ProclaimResponse;
use crate::election::ResignResponse;
use crate::errors::Error;
use crate::header::ResponseHeader;
use crate::model::campaign_model;
use crate::model::candidate_key;
use crate::model::holds_leadership;
use crate::model::leads;
use crate::model::proclaim_model;
use crate::model::resign_model;
use crate::model::LeaderKeyModel;
use crate::store::ElectionStore;

verus! {

/// Where a session stands in its lifecycle.
#[derive(Clone, Copy, Debug, PartialEq, Eq, Structural)]
pub enum SessionState {
    /// Not participating: no live candidacy.
    Idle,
    /// The candidacy key is written; waiting to become the smallest.
    Campaigning,
    /// This session's key is the smallest: it leads the election.
    Leading,
}

/// A process-local handle on one candidacy in one election.
#[derive(Debug)]
pub struct ElectionSession {
    pub name: Vec<u8>,
    pub lease: i64,
    pub state: SessionState,
    pub token: Option<LeaderKey>,
}

impl ElectionSession {
    /// While campaigning or leading, the session holds the fencing token
    /// of its own candidacy key.
    pub open spec fn wf(&self) -> bool {
        &&& self.name@.len() > 0
        &&& (self.state is Campaigning || self.state is Leading) ==> (self.token matches Some(lk)
            && lk@.name == self.name@ && lk@.lease == self.lease && lk@.key == candidate_key(
            self.name@,
            self.lease,
        ))
        &&& self.state is Idle ==> self.token is None
    }

    /// A new, idle session for the election `name`, bound to `lease`.
    /// The caller owns the lease and must keep it renewed for as long as
    /// it wants to hold leadership; the session does not manage renewal.
    pub fn new(name: Vec<u8>, lease: i64) -> (r: Self)
        requires
            name@.len() > 0,
        ensures
            r.wf(),
            r.state is Idle,
            r.token is None,
            r.name@ == name@,
            r.lease == lease,
    {
        ElectionSession { name, lease, state: SessionState::Idle, token: None }
    }

    /// The election this session participates in.
    pub fn name(&self) -> (r: &[u8])
        ensures
            r@ == self.name@,
    {
        self.name.as_slice()
    }

    /// The lease this session's candidacy is bound to.
    pub fn lease(&self) -> (r: i64)
        ensures
            r == self.lease,
    {
        self.lease
    }

    /// Where the session stands in its lifecycle.
    pub fn state(&self) -> (r: SessionState)
        ensures
            r == self.state,
    {
        self.state
    }

    /// The fencing token of the current candidacy, while one is held.
    pub fn leader_key(&self) -> (r: Option<&LeaderKey>)
        ensures
            r matches Some(lk) ==> (self.token matches Some(lk2) && lk == lk2),
            r is None <==> self.token is None,
    {
        self.token.as_ref()
    }

    /// Enters the election: writes this candidate's uniquely ordered key
    /// under the election name, bound to the session's lease and carrying
    /// `value`.  On success the session is campaigning; it leads only
    /// once [`Self::campaign_poll`] observes its key as the smallest.
    ///
    /// Fails with `InvalidArgument` on a malformed election name and
    /// `LeaseNotFound` when the lease is not live; the session then stays
    /// idle and the store is unchanged.
    pub fn campaign_start(&mut self, store: &mut ElectionStore, value: &Vec<u8>) -> (r: Result<
        (),
        Error,
    >)
        requires
            old(self).wf(),
            old(self).state is Idle,
            old(store)@.wf(),
            old(store)@.revision < i64::MAX,
        ensures
            final(self).wf(),
            final(store)@.wf(),
            final(self).name@ == old(self).name@,
            final(self).lease == old(self).lease,
            final(store)@ == campaign_model(
                old(store)@,
                old(self).name@,
                value@,
                old(self).lease,
            ).0,
            match r {
                Ok(()) => {
                    &&& final(self).state is Campaigning
                    &&& final(self).token matches Some(lk) && campaign_model(
                        old(store)@,
                        old(self).name@,
                        value@,
                        old(self).lease,
                    ).1 == Ok::<LeaderKeyModel, Error>(lk@)
                },
                Err(e) => {
                    &&& campaign_model(old(store)@, old(self).name@, value@, old(self).lease).1
                        == Err::<LeaderKeyModel, Error>(e)
                    &&& final(self).state is Idle
                    &&& final(self).token is None
                },
            },
    {
        let name = clone_bytes(&self.name);
        match store.create_candidate(&name, value, self.lease) {
            Ok(lk) => {
                self.token = Some(lk);
                self.state = SessionState::Campaigning;
                Ok(())
            },
            Err(e) => Err(e),
        }
    }

    /// One step of the suspended campaign: resolves as soon as this
    /// session's key is the smallest live candidacy.
    ///
    /// - The candidacy key is gone (the lease expired or was revoked):
    ///   the campaign fails with `LeaseExpired` and the session is idle.
    /// - The key is live but not the smallest: `Ok(None)` — the campaign
    ///   stays suspended behind the current leader.
    /// - The key is the smallest: the session is leading, and the
    ///   response carries the fencing token.
    pub fn campaign_poll(&mut self, store: &ElectionStore) -> (r: Result<
        Option<CampaignResponse>,
        Error,
    >)
        requires
            old(self).wf(),
            old(self).state is Campaigning,
            store@.wf(),
        ensures
            final(self).wf(),
            final(self).name@ == old(self).name@,
            final(self).lease == old(self).lease,
            ({
                let lk = old(self).token.unwrap();
                &&& (!holds_leadership(store@, lk@) ==> {
                    &&& r == Err::<Option<CampaignResponse>, Error>(Error::LeaseExpired)
                    &&& final(self).state is Idle
                    &&& final(self).token is None
                })
                &&& (holds_leadership(store@, lk@) && !leads(store@, lk@) ==> {
                    &&& r matches Ok(o) && o is None
                    &&& final(self).state is Campaigning
                    &&& final(self).token == old(self).token
                })
                &&& (leads(store@, lk@) ==> {
                    &&& final(self).state is Leading
                    &&& final(self).token == old(self).token
                    &&& r matches Ok(o)
                    &&& o matches Some(resp)
                    &&& resp.leader matches Some(l2)
                    &&& l2@ == lk@
                    &&& resp.header matches Some(h)
                    &&& h == (ResponseHeader {
                        cluster_id: 0,
                        member_id: 0,
                        revision: store.revision,
                        raft_term: 0,
                    })
                })
            }),
    {
        let (is_held, is_lead) = match &self.token {
            Some(l) => (store.holds(l), store.is_leading(l)),
            None => (false, false),
        };
        if !is_held {
            proof {
                if leads(store@, old(self).token.unwrap()@) {
                    let w = choose|i: int|
                        #[trigger] crate::model::fences(store@, i, old(self).token.unwrap()@)
                            && crate::model::is_leader_at(store@, i, store@.entries[i].name);
                    assert(holds_leadership(store@, old(self).token.unwrap()@));
                }
            }
            self.state = SessionState::Idle;
            self.token = None;
            Err(Error::LeaseExpired)
        } else if is_lead {
            self.state = SessionState::Leading;
            let resp = match &self.token {
                Some(l) => CampaignResponse::new(
                    Some(ResponseHeader::new(0, 0, store.revision(), 0)),
                    Some(l.duplicate()),
                ),
                None => CampaignResponse::new(None, None),
            };
            proof {
                assert(self.token == old(self).token);
            }
            Ok(Some(resp))
        } else {
            Ok(None)
        }
    }

    /// Announces a new value for the leadership this session holds,
    /// without re-running the election.  The write is fenced: if the
    /// candidacy key no longer exists with its original creation
    /// revision, nothing is written, the call fails with
    /// `LeadershipLost`, and the session stops acting as leader.
    pub fn proclaim(&mut self, store: &mut ElectionStore, value: &Vec<u8>) -> (r: Result<
        ProclaimResponse,
        Error,
    >)
        requires
            old(self).wf(),
            old(self).state is Leading,
            old(store)@.wf(),
            old(store)@.revision < i64::MAX,
        ensures
            final(self).wf(),
            final(store)@.wf(),
            final(self).name@ == old(self).name@,
            final(self).lease == old(self).lease,
            final(store)@ == proclaim_model(old(store)@, old(self).token.unwrap()@, value@).0,
            r is Ok <==> holds_leadership(old(store)@, old(self).token.unwrap()@),
            match r {
                Ok(resp) => {
                    &&& final(self).state is Leading
                    &&& final(self).token == old(self).token
                    &&& resp.header matches Some(h) && h == (ResponseHeader {
                        cluster_id: 0,
                        member_id: 0,
                        revision: final(store).revision,
                        raft_term: 0,
                    })
                },
                Err(e) => {
                    &&& e == Error::LeadershipLost
                    &&& final(self).state is Idle
                    &&& final(self).token is None
                },
            },
    {
        let resp = match &self.token {
            Some(l) => store.proclaim(l, value),
            None => Err(Error::LeadershipLost),
        };
        match resp {
            Ok(p) => Ok(p),
            Err(e) => {
                self.state = SessionState::Idle;
                self.token = None;
                Err(e)
            },
        }
    }

    /// Relinquishes the candidacy: deletes its key under the fencing
    /// check, making the election immediately winnable by the next
    /// candidate.  Resigning when the key is already gone is a no-op
    /// success.  Either way the session is idle afterwards and may be
    /// reused for a later campaign.
    pub fn resign(&mut self, store: &mut ElectionStore) -> (r: Result<ResignResponse, Error>)
        requires
            old(self).wf(),
            old(self).state is Leading || old(self).state is Campaigning,
            old(store)@.wf(),
            old(store)@.revision < i64::MAX,
        ensures
            final(self).wf(),
            final(store)@.wf(),
            final(self).state is Idle,
            final(self).token is None,
            final(self).name@ == old(self).name@,
            final(self).lease == old(self).lease,
            final(store)@ == resign_model(old(store)@, old(self).token.unwrap()@).0,
            r matches Ok(resp) && resp.header matches Some(h) && h == (ResponseHeader {
                cluster_id: 0,
                member_id: 0,
                revision: final(store).revision,
                raft_term: 0,
            }),
    {
        let resp = match &self.token {
            Some(l) => store.resign(l),
            None => Err(Error::LeadershipLost),
        };
        self.state = SessionState::Idle;
        self.token = None;
        match resp {
            Ok(p) => Ok(p),
            Err(e) => Err(e),
        }
    }
}

} // verus!
