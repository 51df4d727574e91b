//! Admission control for the MarketMaker: two sets of peer identities
//! (suppliers and consumers) behind an `enabled` flag. While the flag
//! is off every peer is admitted; membership is kept either way, so
//! re-enabling restores the old sets. The check gates attachment only:
//! removing a peer never evicts an already-connected session.

use vstd::prelude::*;
use crate::strlist::{find_string, is_member};

verus! {

/// Which side of the market a peer attaches as.
#[derive(Clone, Copy, PartialEq, Eq, Structural)]
pub enum WhitelistRole {
    Supplier,
    Consumer,
}

/// Access-control sets for supplier and consumer peers.
pub struct Whitelist {
    pub enabled: bool,
    pub suppliers: Vec<String>,
    pub consumers: Vec<String>,
}

impl Whitelist {
    /// The underlying list for a role.
    pub open spec fn role_list(self, role: WhitelistRole) -> Seq<String> {
        match role {
            WhitelistRole::Supplier => self.suppliers@,
            WhitelistRole::Consumer => self.consumers@,
        }
    }

    /// Whether `peer` is on the given role's list.
    pub open spec fn spec_member(self, role: WhitelistRole, peer: Seq<char>) -> bool {
        is_member(self.role_list(role), peer)
    }

    pub open spec fn spec_enabled(self) -> bool {
        self.enabled
    }

    /// The admission rule: everything is admitted while checks are
    /// disabled; otherwise exactly the listed peers are.
    pub open spec fn spec_is_admitted(self, role: WhitelistRole, peer: Seq<char>) -> bool {
        !self.enabled || self.spec_member(role, peer)
    }

    /// Each list holds a peer at most once, so removal is exact.
    pub open spec fn wf(self) -> bool {
        &&& (forall|i: int, j: int|
            0 <= i < j < self.suppliers@.len() ==> self.suppliers@[i]@ != self.suppliers@[j]@)
        &&& (forall|i: int, j: int|
            0 <= i < j < self.consumers@.len() ==> self.consumers@[i]@ != self.consumers@[j]@)
    }

    /// A fresh whitelist: admission checks disabled, both sets empty.
    pub fn new() -> (w: Whitelist)
        ensures
            w.wf(),
            !w.spec_enabled(),
            forall|q: Seq<char>, role: WhitelistRole| !w.spec_member(role, q),
    {
        Whitelist { enabled: false, suppliers: Vec::new(), consumers: Vec::new() }
    }

    /// Turn admission checks on. Membership is untouched, so doing
    /// this twice is the same as doing it once.
    pub fn enable(&mut self)
        ensures
            final(self).enabled == true,
            final(self).suppliers == old(self).suppliers,
            final(self).consumers == old(self).consumers,
    {
        self.enabled = true;
    }

    /// Turn admission checks off. Membership is kept, not cleared.
    pub fn disable(&mut self)
        ensures
            final(self).enabled == false,
            final(self).suppliers == old(self).suppliers,
            final(self).consumers == old(self).consumers,
    {
        self.enabled = false;
    }

    pub fn is_enabled(&self) -> (r: bool)
        ensures
            r == self.spec_enabled(),
    {
        self.enabled
    }

    /// Add `peer` to a role's set; adding a present peer changes nothing.
    pub fn add(&mut self, role: WhitelistRole, peer: String)
        requires
            old(self).wf(),
        ensures
            final(self).wf(),
            final(self).enabled == old(self).enabled,
            forall|q: Seq<char>|
                final(self).spec_member(role, q) <==> (old(self).spec_member(role, q) || q
                    == peer@),
            forall|r2: WhitelistRole, q: Seq<char>|
                r2 != role ==> (final(self).spec_member(r2, q) == old(self).spec_member(r2, q)),
    {
        let list = match role {
            WhitelistRole::Supplier => &mut self.suppliers,
            WhitelistRole::Consumer => &mut self.consumers,
        };
        if find_string(list, &peer).is_none() {
            let ghost pre = list@;
            let ghost p = peer@;
            list.push(peer);
            proof {
                assert forall|q: Seq<char>|
                    is_member(list@, q) <==> (is_member(pre, q) || q == p) by {
                    if q == p {
                        assert(list@[pre.len() as int]@ == q);
                    }
                    if is_member(list@, q) && q != p {
                        let k = choose|k: int| 0 <= k < list@.len() && list@[k]@ == q;
                        assert(pre[k]@ == q);
                    }
                    if is_member(pre, q) {
                        let k = choose|k: int| 0 <= k < pre.len() && pre[k]@ == q;
                        assert(list@[k]@ == q);
                    }
                }
            }
        }
    }

    /// Remove `peer` from a role's set; removing an absent peer
    /// changes nothing. An already-connected peer is not evicted by
    /// this: the whitelist is consulted at attachment time only.
    pub fn remove(&mut self, role: WhitelistRole, peer: &String)
        requires
            old(self).wf(),
        ensures
            final(self).wf(),
            final(self).enabled == old(self).enabled,
            forall|q: Seq<char>|
                final(self).spec_member(role, q) <==> (old(self).spec_member(role, q) && q
                    != peer@),
            forall|r2: WhitelistRole, q: Seq<char>|
                r2 != role ==> (final(self).spec_member(r2, q) == old(self).spec_member(r2, q)),
    {
        let list = match role {
            WhitelistRole::Supplier => &mut self.suppliers,
            WhitelistRole::Consumer => &mut self.consumers,
        };
        if let Some(i) = find_string(list, peer) {
            let ghost pre = list@;
            list.remove(i);
            proof {
                assert forall|q: Seq<char>|
                    is_member(list@, q) <==> (is_member(pre, q) && q != peer@) by {
                    if is_member(list@, q) {
                        let k = choose|k: int| 0 <= k < list@.len() && list@[k]@ == q;
                        if k < i {
                            assert(pre[k]@ == q);
                        } else {
                            assert(pre[k + 1]@ == q);
                        }
                    }
                    if is_member(pre, q) && q != peer@ {
                        let k = choose|k: int| 0 <= k < pre.len() && pre[k]@ == q;
                        if k < i {
                            assert(list@[k]@ == q);
                        } else {
                            assert(k > i);
                            assert(list@[k - 1]@ == q);
                        }
                    }
                }
            }
        }
    }

    /// Decide admission for `peer` in `role`.
    pub fn is_admitted(&self, role: WhitelistRole, peer: &String) -> (r: bool)
        ensures
            r == self.spec_is_admitted(role, peer@),
    {
        if !self.enabled {
            return true;
        }
        let list = match role {
            WhitelistRole::Supplier => &self.suppliers,
            WhitelistRole::Consumer => &self.consumers,
        };
        find_string(list, peer).is_some()
    }
}

/// Enabling the whitelist is idempotent: a second `enable` leaves the
/// flag set and both membership sets exactly as the first left them;
/// and disabling clears only the flag, never the membership.
pub proof fn lemma_enable_idempotent_disable_keeps_members(w1: Whitelist, w2: Whitelist, w3: Whitelist)
    requires
        w2 == (Whitelist { enabled: true, ..w1 }),
        w3 == (Whitelist { enabled: true, ..w2 }),
    ensures
        w3 == w2,
        forall|role: WhitelistRole, q: Seq<char>|
            (Whitelist { enabled: false, ..w2 }).spec_member(role, q) == w2.spec_member(role, q),
{
}

} // verus!
