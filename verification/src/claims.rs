//! The claim manager: the bookkeeping for outstanding permission requests.
//!
//! A claim is one outstanding request for permission to exercise a gated tool
//! capability, tracked by a correlation id.  Ids are issued sequentially from
//! one; at most one claim is pending at a time; resolution is exactly-once.

use vstd::prelude::*;
use crate::errors::PermissionError;

verus! {

/// A capability a tool declares.  The core only needs to know whether a
/// capability requires a claim before the tool may be invoked.
#[derive(Clone, Copy, Debug, PartialEq, Eq, Structural)]
pub enum Capability {
    Read,
    Write,
    Execute,
    Network,
}

impl Capability {
    /// Reading is ungated; anything that mutates or reaches out requires an
    /// approved claim first.
    pub open spec fn spec_requires_claim(&self) -> bool {
        !(self is Read)
    }

    /// Whether a tool with this capability must raise a claim before running.
    #[verifier::when_used_as_spec(spec_requires_claim)]
    pub fn requires_claim(&self) -> (r: bool)
        ensures
            r == self.spec_requires_claim(),
    {
        !matches!(self, Capability::Read)
    }
}

/// A host's verdict on a pending claim.
#[derive(Clone, Copy, Debug, PartialEq, Eq, Structural)]
pub enum ClaimDecision {
    Approved,
    Denied,
}

/// The resolution state of a claim.
#[derive(Clone, Copy, Debug, PartialEq, Eq, Structural)]
pub enum ClaimStatus {
    Pending,
    Approved,
    Denied,
    Expired,
}

/// One permission request: its correlation id, the capability requested, a
/// description of the requesting action, and its resolution state.
#[derive(Clone, Debug, PartialEq)]
pub struct Claim {
    pub id: u64,
    pub capability: Capability,
    pub description: String,
    pub status: ClaimStatus,
}

/// Owns the mapping from correlation id to claim.  Claim `id` is stored at
/// index `id - 1`; ids are never reused, so a resolved claim stays behind as
/// the record that makes a second resolution detectably stale.
pub struct ClaimManager {
    claims: Vec<Claim>,
    pending: Option<u64>,
}

impl ClaimManager {
    /// Ids are positions plus one; the pending id, when present, names the
    /// unique claim whose status is `Pending`.
    pub closed spec fn wf(self) -> bool {
        &&& forall|i: int|
            0 <= i < self.claims@.len() ==> (#[trigger] self.claims@[i]).id == i + 1
        &&& forall|i: int|
            0 <= i < self.claims@.len() ==> ((#[trigger] self.claims@[i]).status is Pending
                <==> self.pending == Some((i + 1) as u64))
        &&& match self.pending {
            Some(id) => 1 <= id <= self.claims@.len(),
            None => true,
        }
    }

    /// The claims issued so far, in order of issue.
    pub closed spec fn view(self) -> Seq<Claim> {
        self.claims@
    }

    /// The id of the pending claim, if one is outstanding.
    pub closed spec fn spec_pending_id(&self) -> Option<u64> {
        self.pending
    }

    pub fn new() -> (r: ClaimManager)
        ensures
            r.wf(),
            r@ == Seq::<Claim>::empty(),
            r.spec_pending_id() is None,
    {
        ClaimManager { claims: Vec::new(), pending: None }
    }

    /// How many claims have been issued over the task run.
    pub fn issued(&self) -> (r: usize)
        ensures
            r == self@.len(),
    {
        self.claims.len()
    }

    #[verifier::when_used_as_spec(spec_pending_id)]
    pub fn pending_id(&self) -> (r: Option<u64>)
        ensures
            r == self.spec_pending_id(),
    {
        self.pending
    }

    /// The pending claim itself, if one is outstanding.
    pub fn pending(&self) -> (r: Option<&Claim>)
        requires
            self.wf(),
        ensures
            match r {
                Some(c) => self.spec_pending_id() == Some(c.id) && *c == self@[c.id - 1],
                None => self.spec_pending_id() is None,
            },
    {
        // Reading the length puts "the ledger fits in memory" in scope for
        // the index cast below.
        let _issued = self.claims.len();
        match self.pending {
            Some(id) => {
                proof {
                    assert(self.claims@[id - 1].id == id);
                }
                Some(&self.claims[(id - 1) as usize])
            },
            None => None,
        }
    }

    /// Look a claim up by its correlation id.
    pub fn get(&self, id: u64) -> (r: Option<&Claim>)
        requires
            self.wf(),
        ensures
            match r {
                Some(c) => 1 <= id <= self@.len() && *c == self@[id - 1],
                None => id == 0 || id > self@.len(),
            },
    {
        if id >= 1 && id <= self.claims.len() as u64 {
            Some(&self.claims[(id - 1) as usize])
        } else {
            None
        }
    }

    /// Open a claim for a gated action.  Fails with `AlreadyPending` while
    /// another claim is outstanding; otherwise issues the next id (sequential
    /// from one) and records the claim as pending.
    pub fn request(&mut self, capability: Capability, description: String) -> (r: Result<
        u64,
        PermissionError,
    >)
        requires
            old(self).wf(),
            old(self)@.len() + 1 < u64::MAX,
        ensures
            final(self).wf(),
            match r {
                Ok(id) => {
                    &&& old(self).spec_pending_id() is None
                    &&& id == old(self)@.len() + 1
                    &&& final(self)@ == old(self)@.push(
                        Claim { id, capability, description, status: ClaimStatus::Pending },
                    )
                    &&& final(self).spec_pending_id() == Some(id)
                },
                Err(e) => {
                    &&& e == PermissionError::AlreadyPending
                    &&& old(self).spec_pending_id() is Some
                    &&& *final(self) == *old(self)
                },
            },
    {
        if self.pending.is_some() {
            return Err(PermissionError::AlreadyPending);
        }
        let id = self.claims.len() as u64 + 1;
        self.claims.push(Claim { id, capability, description, status: ClaimStatus::Pending });
        self.pending = Some(id);
        Ok(id)
    }

    /// Apply a host's verdict to the pending claim.  Exactly-once: an id that
    /// was never issued fails with `UnknownClaim`, an id that is no longer
    /// pending fails with `AlreadyResolved`, and in both failure cases
    /// nothing changes.
    pub fn resolve(&mut self, id: u64, decision: ClaimDecision) -> (r: Result<
        (),
        PermissionError,
    >)
        requires
            old(self).wf(),
        ensures
            final(self).wf(),
            r is Ok <==> old(self).spec_pending_id() == Some(id),
            match r {
                Ok(()) => {
                    &&& 1 <= id <= old(self)@.len()
                    &&& old(self)@[id - 1].status is Pending
                    &&& final(self)@ == old(self)@.update(
                        id - 1,
                        Claim {
                            status: match decision {
                                ClaimDecision::Approved => ClaimStatus::Approved,
                                ClaimDecision::Denied => ClaimStatus::Denied,
                            },
                            ..old(self)@[id - 1]
                        },
                    )
                    &&& final(self).spec_pending_id() is None
                },
                Err(e) => {
                    &&& *final(self) == *old(self)
                    &&& if id == 0 || id > old(self)@.len() {
                        e == PermissionError::UnknownClaim
                    } else {
                        e == PermissionError::AlreadyResolved && !(old(self)@[id
                            - 1].status is Pending)
                    }
                },
            },
    {
        if id == 0 || id > self.claims.len() as u64 {
            return Err(PermissionError::UnknownClaim);
        }
        let idx = (id - 1) as usize;
        if !matches!(self.claims[idx].status, ClaimStatus::Pending) {
            return Err(PermissionError::AlreadyResolved);
        }
        let status = match decision {
            ClaimDecision::Approved => ClaimStatus::Approved,
            ClaimDecision::Denied => ClaimStatus::Denied,
        };
        let old_claim = &self.claims[idx];
        let updated = Claim {
            id: old_claim.id,
            capability: old_claim.capability,
            description: old_claim.description.clone(),
            status,
        };
        self.claims[idx] = updated;
        self.pending = None;
        Ok(())
    }

    /// Expire or discard the pending claim (permission timeout, or task
    /// cancellation while paused).  Returns the id it closed, if any.
    pub fn expire_pending(&mut self) -> (r: Option<u64>)
        requires
            old(self).wf(),
        ensures
            final(self).wf(),
            final(self).spec_pending_id() is None,
            match r {
                Some(id) => {
                    &&& old(self).spec_pending_id() == Some(id)
                    &&& final(self)@ == old(self)@.update(
                        id - 1,
                        Claim { status: ClaimStatus::Expired, ..old(self)@[id - 1] },
                    )
                },
                None => old(self).spec_pending_id() is None && *final(self) == *old(self),
            },
    {
        // Reading the length puts "the ledger fits in memory" in scope for
        // the index cast below.
        let _issued = self.claims.len();
        match self.pending {
            None => None,
            Some(id) => {
                let idx = (id - 1) as usize;
                let old_claim = &self.claims[idx];
                let updated = Claim {
                    id: old_claim.id,
                    capability: old_claim.capability,
                    description: old_claim.description.clone(),
                    status: ClaimStatus::Expired,
                };
                self.claims[idx] = updated;
                self.pending = None;
                proof {
                    assert(self.claims@ =~= old(self)@.update(
                        id - 1,
                        Claim { status: ClaimStatus::Expired, ..old(self)@[id - 1] },
                    ));
                }
                Some(id)
            },
        }
    }
}

} // verus!
