//! The supplier agent's local state: where it attached, whether its
//! session asked for encrypted tunnels, and which device ids it has
//! announced — so that stopping can withdraw exactly those, forced.
//! An absent `SupplierState` is the `Stopped` state; the transient
//! `Connecting` state lives in the host process, which performs the
//! handshake before this record exists.

use vstd::prelude::*;
use crate::device::announced_id;
use crate::strlist::{find_string, is_member};

verus! {

/// One attached supplier session.
pub struct SupplierState {
    /// The MarketMaker this session attached to.
    pub mm_host: String,
    pub mm_port: u16,
    /// This supplier's display name on the market.
    pub name: String,
    /// Whether tunnels onto this supplier's devices are encrypted.
    pub secure: bool,
    /// The device ids this supplier has announced, each once.
    pub supplied: Vec<String>,
}

impl SupplierState {
    /// Each announced id is tracked once.
    pub open spec fn wf(self) -> bool {
        forall|i: int, j: int|
            0 <= i < j < self.supplied@.len() ==> self.supplied@[i]@ != self.supplied@[j]@
    }

    /// A freshly attached session: nothing announced yet.
    pub fn new(mm_host: String, mm_port: u16, name: String, secure: bool) -> (s: SupplierState)
        ensures
            s.wf(),
            s.mm_host@ == mm_host@,
            s.mm_port == mm_port,
            s.name@ == name@,
            s.secure == secure,
            forall|q: Seq<char>| !is_member(s.supplied@, q),
    {
        SupplierState { mm_host, mm_port, name, secure, supplied: Vec::new() }
    }

    /// Note one announced device id; announcing it again is idempotent.
    pub fn note_supplied(&mut self, device_id: &String)
        requires
            old(self).wf(),
        ensures
            final(self).wf(),
            final(self).mm_host == old(self).mm_host,
            final(self).mm_port == old(self).mm_port,
            final(self).name == old(self).name,
            final(self).secure == old(self).secure,
            forall|q: Seq<char>|
                is_member(final(self).supplied@, q) <==> (is_member(old(self).supplied@, q) || q
                    == device_id@),
    {
        if find_string(&self.supplied, device_id).is_none() {
            let ghost pre = self.supplied@;
            let ghost p = device_id@;
            self.supplied.push(device_id.clone());
            proof {
                assert forall|q: Seq<char>|
                    is_member(self.supplied@, q) <==> (is_member(pre, q) || q == p) by {
                    if q == p {
                        assert(self.supplied@[pre.len() as int]@ == q);
                    }
                    if is_member(self.supplied@, q) && q != p {
                        let k = choose|k: int|
                            0 <= k < self.supplied@.len() && self.supplied@[k]@ == q;
                        assert(pre[k]@ == q);
                    }
                    if is_member(pre, q) {
                        let k = choose|k: int| 0 <= k < pre.len() && pre[k]@ == q;
                        assert(self.supplied@[k]@ == q);
                    }
                }
            }
        }
    }

    /// Note a whole announcement of devices, each id once.
    pub fn note_supplied_all(&mut self, devices: &Vec<crate::device::Device>)
        requires
            old(self).wf(),
        ensures
            final(self).wf(),
            final(self).mm_host == old(self).mm_host,
            final(self).mm_port == old(self).mm_port,
            final(self).name == old(self).name,
            final(self).secure == old(self).secure,
            forall|q: Seq<char>|
                is_member(final(self).supplied@, q) <==> (is_member(old(self).supplied@, q)
                    || announced_id(
                    crate::registry::device_views(devices@),
                    devices@.len() as int,
                    q,
                )),
    {
        let ghost vs = crate::registry::device_views(devices@);
        let ghost sup0 = self.supplied@;
        let mut i: usize = 0;
        while i < devices.len()
            invariant
                i <= devices@.len(),
                vs == crate::registry::device_views(devices@),
                vs.len() == devices@.len(),
                self.wf(),
                self.mm_host == old(self).mm_host,
                self.mm_port == old(self).mm_port,
                self.name == old(self).name,
                self.secure == old(self).secure,
                forall|q: Seq<char>|
                    #[trigger] is_member(self.supplied@, q) ==> (is_member(sup0, q)
                        || announced_id(vs, i as int, q)),
                forall|q: Seq<char>|
                    #[trigger] is_member(sup0, q) ==> is_member(self.supplied@, q),
                forall|k: int|
                    0 <= k < i ==> is_member(self.supplied@, (#[trigger] vs[k]).device_id),
            decreases devices@.len() - i,
        {
            let ghost before = self.supplied@;
            self.note_supplied(&devices[i].device_id);
            proof {
                let id = vs[i as int].device_id;
                assert(devices@[i as int].device_id@ == id);
                assert forall|q: Seq<char>|
                    #[trigger] is_member(self.supplied@, q) implies (is_member(sup0, q)
                        || announced_id(vs, i + 1, q)) by {
                    if q == id {
                        assert(0 <= (i as int) < i + 1 && vs[i as int].device_id == q);
                        assert(announced_id(vs, i + 1, q));
                    } else {
                        assert(is_member(before, q));
                        if !is_member(sup0, q) {
                            assert(announced_id(vs, i as int, q));
                            let k = choose|k: int| 0 <= k < i && (#[trigger] vs[k]).device_id == q;
                            assert(announced_id(vs, i + 1, q));
                        }
                    }
                }
                assert forall|q: Seq<char>|
                    #[trigger] is_member(sup0, q) implies is_member(self.supplied@, q) by {
                    assert(is_member(before, q));
                }
                assert forall|k: int|
                    0 <= k < i + 1 implies is_member(
                    self.supplied@,
                    (#[trigger] vs[k]).device_id,
                ) by {
                    if k < i {
                        assert(is_member(before, vs[k].device_id));
                    }
                }
            }
            i += 1;
        }
        proof {
            assert forall|q: Seq<char>|
                is_member(self.supplied@, q) <==> (is_member(sup0, q) || announced_id(
                    vs,
                    devices@.len() as int,
                    q,
                )) by {
                if !is_member(self.supplied@, q) && announced_id(vs, devices@.len() as int, q) {
                    let k = choose|k: int|
                        0 <= k < devices@.len() && (#[trigger] vs[k]).device_id == q;
                    assert(is_member(self.supplied@, vs[k].device_id));
                }
            }
        }
    }

    /// Forget a reclaimed device id.
    pub fn note_reclaimed(&mut self, device_id: &String)
        requires
            old(self).wf(),
        ensures
            final(self).wf(),
            final(self).mm_host == old(self).mm_host,
            final(self).mm_port == old(self).mm_port,
            final(self).name == old(self).name,
            final(self).secure == old(self).secure,
            forall|q: Seq<char>|
                is_member(final(self).supplied@, q) <==> (is_member(old(self).supplied@, q) && q
                    != device_id@),
    {
        if let Some(i) = find_string(&self.supplied, device_id) {
            let ghost pre = self.supplied@;
            self.supplied.remove(i);
            proof {
                assert forall|q: Seq<char>|
                    is_member(self.supplied@, q) <==> (is_member(pre, q) && q != device_id@) by {
                    if is_member(self.supplied@, q) {
                        let k = choose|k: int|
                            0 <= k < self.supplied@.len() && self.supplied@[k]@ == q;
                        if k < i {
                            assert(pre[k]@ == q);
                        } else {
                            assert(pre[k + 1]@ == q);
                        }
                    }
                    if is_member(pre, q) && q != device_id@ {
                        let k = choose|k: int| 0 <= k < pre.len() && pre[k]@ == q;
                        if k < i {
                            assert(self.supplied@[k]@ == q);
                        } else {
                            assert(k > i);
                            assert(self.supplied@[k - 1]@ == q);
                        }
                    }
                }
                assert forall|a: int, b: int|
                    0 <= a < b < self.supplied@.len() implies self.supplied@[a]@
                    != self.supplied@[b]@ by {
                    let a0 = if a < i as int {
                        a
                    } else {
                        a + 1
                    };
                    let b0 = if b < i as int {
                        b
                    } else {
                        b + 1
                    };
                    assert(self.supplied@[a]@ == pre[a0]@);
                    assert(self.supplied@[b]@ == pre[b0]@);
                }
            }
        }
    }

    /// The announced ids, as copies.
    pub fn supplied_ids(&self) -> (r: Vec<String>)
        ensures
            r@.len() == self.supplied@.len(),
            forall|k: int| 0 <= k < r@.len() ==> r@[k]@ == self.supplied@[k]@,
    {
        let mut out: Vec<String> = Vec::new();
        let mut i: usize = 0;
        while i < self.supplied.len()
            invariant
                i <= self.supplied@.len(),
                out@.len() == i,
                forall|k: int| 0 <= k < i ==> out@[k]@ == self.supplied@[k]@,
            decreases self.supplied@.len() - i,
        {
            out.push(self.supplied[i].clone());
            i += 1;
        }
        out
    }
}

} // verus!
