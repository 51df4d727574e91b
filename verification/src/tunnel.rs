//! The tunnel manager: one bridged channel per leased device, each on
//! a locally allocated port that was never handed out before. Ports
//! come from a monotone counter, so a freed port is never reissued and
//! a stale listener can never shadow a new lease.

use vstd::prelude::*;
use crate::errors::MarketError;
use crate::seqtools::{lemma_filter_contains_iff, lemma_filter_elems, lemma_filter_push};

verus! {

/// The first port the manager may hand out.
pub const TUNNEL_PORT_BASE: u16 = 7000;

/// Mathematical image of a [`Tunnel`].
pub ghost struct TunnelView {
    pub device_id: Seq<char>,
    pub consumer_id: Seq<char>,
    pub supplier_id: Seq<char>,
    pub port: u16,
    pub secure: bool,
}

/// One active bridge: the consumer reaches `device_id` of
/// `supplier_id` through the local `port`; `secure` says whether the
/// channel is wrapped in encryption (the supplier session's choice).
pub struct Tunnel {
    pub device_id: String,
    pub consumer_id: String,
    pub supplier_id: String,
    pub port: u16,
    pub secure: bool,
}

impl View for Tunnel {
    type V = TunnelView;

    open spec fn view(&self) -> TunnelView {
        TunnelView {
            device_id: self.device_id@,
            consumer_id: self.consumer_id@,
            supplier_id: self.supplier_id@,
            port: self.port,
            secure: self.secure,
        }
    }
}

/// The views of a list of tunnels.
pub open spec fn tunnel_views(s: Seq<Tunnel>) -> Seq<TunnelView> {
    s.map_values(|t: Tunnel| t@)
}

/// Some tunnel serves this device.
pub open spec fn has_tunnel(s: Seq<TunnelView>, id: Seq<char>) -> bool {
    exists|k: int| 0 <= k < s.len() && s[k].device_id == id
}

/// The index of the tunnel for this device (unique under `wf`).
pub open spec fn tunnel_index(s: Seq<TunnelView>, id: Seq<char>) -> int {
    choose|k: int| 0 <= k < s.len() && s[k].device_id == id
}

/// The tunnel for this device.
pub open spec fn tunnel_record(s: Seq<TunnelView>, id: Seq<char>) -> TunnelView {
    s[tunnel_index(s, id)]
}

/// No two tunnels share a device.
pub open spec fn unique_tunnel_ids(s: Seq<TunnelView>) -> bool {
    forall|i: int, j: int| 0 <= i < j < s.len() ==> s[i].device_id != s[j].device_id
}

/// With unique device ids, any index carrying `id` is `tunnel_index`.
pub proof fn lemma_tunnel_index_is(s: Seq<TunnelView>, id: Seq<char>, i: int)
    requires
        unique_tunnel_ids(s),
        0 <= i < s.len(),
        s[i].device_id == id,
    ensures
        tunnel_index(s, id) == i,
        tunnel_record(s, id) == s[i],
        has_tunnel(s, id),
{
    assert(has_tunnel(s, id));
    let j = tunnel_index(s, id);
    if j != i {
        assert(s[i].device_id == s[j].device_id);
    }
}

/// A successful allocation: the new tunnel got the counter's port and
/// the counter moved past it.
pub open spec fn open_ok(
    pre: TunnelManagerView,
    post: TunnelManagerView,
    t: TunnelView,
) -> bool {
    &&& pre.next_port < u16::MAX
    &&& t.port == pre.next_port
    &&& post.next_port == pre.next_port + 1
    &&& post.tunnels == pre.tunnels.push(t)
}

/// Mathematical image of a [`TunnelManager`].
pub ghost struct TunnelManagerView {
    pub next_port: u16,
    pub tunnels: Seq<TunnelView>,
}

/// Allocates ports and tracks the active bridges.
pub struct TunnelManager {
    pub next_port: u16,
    pub tunnels: Vec<Tunnel>,
}

impl View for TunnelManager {
    type V = TunnelManagerView;

    open spec fn view(&self) -> TunnelManagerView {
        TunnelManagerView { next_port: self.next_port, tunnels: tunnel_views(self.tunnels@) }
    }
}

impl TunnelManager {
    /// Every active port was drawn from the counter, each device has
    /// at most one tunnel, and the counter never ran backwards.
    pub open spec fn wf(self) -> bool {
        &&& TUNNEL_PORT_BASE <= self@.next_port
        &&& unique_tunnel_ids(self@.tunnels)
        &&& forall|k: int|
            0 <= k < self@.tunnels.len() ==> TUNNEL_PORT_BASE <= (
            #[trigger] self@.tunnels[k]).port < self@.next_port
    }

    /// A manager with no tunnels and the whole port range ahead.
    pub fn new() -> (r: TunnelManager)
        ensures
            r.wf(),
            r@.tunnels == Seq::<TunnelView>::empty(),
            r@.next_port == TUNNEL_PORT_BASE,
    {
        let r = TunnelManager { next_port: TUNNEL_PORT_BASE, tunnels: Vec::new() };
        proof {
            assert(r@.tunnels =~= Seq::<TunnelView>::empty());
        }
        r
    }

    /// The port the next successful allocation will hand out.
    pub fn peek_port(&self) -> (p: u16)
        ensures
            p == self@.next_port,
    {
        self.next_port
    }

    /// Open a bridge for a leased device on a fresh port. Fails only
    /// when the port range is exhausted; the returned port is active
    /// nowhere and was never returned before.
    pub fn open_tunnel(
        &mut self,
        device_id: &String,
        consumer_id: &String,
        supplier_id: &String,
        secure: bool,
    ) -> (r: Result<u16, MarketError>)
        requires
            old(self).wf(),
            !has_tunnel(old(self)@.tunnels, device_id@),
        ensures
            final(self).wf(),
            final(self)@.next_port >= old(self)@.next_port,
            match r {
                Ok(p) => open_ok(
                    old(self)@,
                    final(self)@,
                    (TunnelView {
                        device_id: device_id@,
                        consumer_id: consumer_id@,
                        supplier_id: supplier_id@,
                        port: p,
                        secure: secure,
                    }),
                ) && (forall|k: int|
                    0 <= k < old(self)@.tunnels.len() ==> (#[trigger] old(self)@.tunnels[k]).port != p),
                Err(e) => e == MarketError::TunnelSetupFailed && old(self)@.next_port == u16::MAX
                    && final(self)@ == old(self)@,
            },
    {
        if self.next_port == u16::MAX {
            return Err(MarketError::TunnelSetupFailed);
        }
        let port = self.next_port;
        let t = Tunnel {
            device_id: device_id.clone(),
            consumer_id: consumer_id.clone(),
            supplier_id: supplier_id.clone(),
            port,
            secure,
        };
        let ghost pre = self@;
        let ghost tv = t@;
        self.next_port = self.next_port + 1;
        self.tunnels.push(t);
        proof {
            assert(self@.tunnels =~= pre.tunnels.push(tv));
            assert forall|i: int, j: int| 0 <= i < j < self@.tunnels.len() implies self@.tunnels[i].device_id != self@.tunnels[j].device_id by {
                if j == self@.tunnels.len() - 1 {
                    assert(pre.tunnels[i].device_id != tv.device_id);
                }
            }
        }
        Ok(port)
    }

    /// Close the bridge for a device, handing back its port; `None`
    /// when no bridge was active.
    pub fn close_tunnel(&mut self, device_id: &String) -> (r: Option<u16>)
        requires
            old(self).wf(),
        ensures
            final(self).wf(),
            final(self)@.next_port == old(self)@.next_port,
            final(self)@.tunnels.len() == old(self)@.tunnels.len() || final(self)@.tunnels.len()
                + 1 == old(self)@.tunnels.len(),
            forall|q: TunnelView|
                #[trigger] final(self)@.tunnels.contains(q) <==> (old(self)@.tunnels.contains(q)
                    && q.device_id != device_id@),
            match r {
                Some(p) => has_tunnel(old(self)@.tunnels, device_id@) && p == tunnel_record(
                    old(self)@.tunnels,
                    device_id@,
                ).port,
                None => !has_tunnel(old(self)@.tunnels, device_id@) && final(self)@ == old(self)@,
            },
    {
        let found = self.find(device_id);
        match found {
            None => None,
            Some(i) => {
                proof {
                    lemma_tunnel_index_is(self@.tunnels, device_id@, i as int);
                }
                let t = self.tunnels.remove(i);
                proof {
                    let ghost post = self@.tunnels;
                    let ghost pre = old(self)@.tunnels;
                    assert(post =~= pre.remove(i as int));
                    assert forall|q: TunnelView| #[trigger] post.contains(q) <==> (pre.contains(q)
                        && q.device_id != device_id@) by {
                        if post.contains(q) {
                            let k = choose|k: int| 0 <= k < post.len() && post[k] == q;
                            let k0 = if k < i as int {
                                k
                            } else {
                                k + 1
                            };
                            assert(pre[k0] == q);
                        }
                        if pre.contains(q) && q.device_id != device_id@ {
                            let k = choose|k: int| 0 <= k < pre.len() && pre[k] == q;
                            if k < i as int {
                                assert(post[k] == q);
                            } else {
                                assert(k > i as int);
                                assert(post[k - 1] == q);
                            }
                        }
                    }
                    assert forall|a: int, b: int| 0 <= a < b < post.len() implies post[a].device_id
                        != post[b].device_id by {
                        let a0 = if a < i as int {
                            a
                        } else {
                            a + 1
                        };
                        let b0 = if b < i as int {
                            b
                        } else {
                            b + 1
                        };
                        assert(post[a] == pre[a0]);
                        assert(post[b] == pre[b0]);
                    }
                }
                Some(t.port)
            },
        }
    }

    /// Index of the tunnel for this device, if any.
    fn find(&self, device_id: &String) -> (r: Option<usize>)
        ensures
            match r {
                Some(i) => i < self@.tunnels.len() && self@.tunnels[i as int].device_id
                    == device_id@,
                None => !has_tunnel(self@.tunnels, device_id@),
            },
    {
        let mut i: usize = 0;
        while i < self.tunnels.len()
            invariant
                i <= self@.tunnels.len(),
                self@.tunnels.len() == self.tunnels@.len(),
                forall|k: int| 0 <= k < i ==> self@.tunnels[k].device_id != device_id@,
            decreases self@.tunnels.len() - i,
        {
            if self.tunnels[i].device_id == *device_id {
                return Some(i);
            }
            i += 1;
        }
        None
    }
}

/// Keep the tunnels not held by this consumer.
pub open spec fn keep_consumer_pred(c: Seq<char>) -> spec_fn(TunnelView) -> bool {
    |t: TunnelView| t.consumer_id != c
}

/// Keep the tunnels not serving this supplier's devices.
pub open spec fn keep_supplier_pred(s: Seq<char>) -> spec_fn(TunnelView) -> bool {
    |t: TunnelView| t.supplier_id != s
}

impl Tunnel {
    /// A field-for-field copy.
    pub fn duplicate(&self) -> (t: Tunnel)
        ensures
            t@ == self@,
    {
        Tunnel {
            device_id: self.device_id.clone(),
            consumer_id: self.consumer_id.clone(),
            supplier_id: self.supplier_id.clone(),
            port: self.port,
            secure: self.secure,
        }
    }
}

/// Filtering keeps device ids unique.
proof fn lemma_unique_tunnel_ids_filter(s: Seq<TunnelView>, pred: spec_fn(TunnelView) -> bool)
    requires
        unique_tunnel_ids(s),
    ensures
        unique_tunnel_ids(s.filter(pred)),
    decreases s.len(),
{
    reveal(Seq::filter);
    if s.len() > 0 {
        lemma_unique_tunnel_ids_filter(s.drop_last(), pred);
        let f = s.filter(pred);
        let fd = s.drop_last().filter(pred);
        if pred(s.last()) {
            assert(f == fd.push(s.last()));
            lemma_filter_elems(s.drop_last(), pred);
            assert forall|a: int, b: int| 0 <= a < b < f.len() implies f[a].device_id
                != f[b].device_id by {
                if b == f.len() - 1 {
                    assert(fd.contains(fd[a]));
                    assert(s.drop_last().contains(fd[a]));
                    let k = choose|k: int|
                        0 <= k < s.drop_last().len() && s.drop_last()[k] == fd[a];
                    assert(s[k] == fd[a]);
                    assert(s[s.len() - 1] == s.last());
                }
            }
        }
    }
}

impl TunnelManager {
    /// Close every bridge held by one consumer (it released all its
    /// devices, or disconnected). The counter stands, so none of the
    /// freed ports is ever reissued.
    pub fn close_for_consumer(&mut self, consumer_id: &String)
        requires
            old(self).wf(),
        ensures
            final(self).wf(),
            final(self)@.next_port == old(self)@.next_port,
            final(self)@.tunnels == old(self)@.tunnels.filter(keep_consumer_pred(consumer_id@)),
            forall|q: TunnelView|
                #[trigger] final(self)@.tunnels.contains(q) <==> (old(self)@.tunnels.contains(q)
                    && q.consumer_id != consumer_id@),
    {
        let ghost pre = self@.tunnels;
        let ghost pred = keep_consumer_pred(consumer_id@);
        let mut kept: Vec<Tunnel> = Vec::new();
        let mut i: usize = 0;
        while i < self.tunnels.len()
            invariant
                i <= pre.len(),
                self@.tunnels == pre,
                self@.tunnels.len() == self.tunnels@.len(),
                tunnel_views(kept@) == pre.take(i as int).filter(pred),
                pred == keep_consumer_pred(consumer_id@),
            decreases pre.len() - i,
        {
            proof {
                lemma_filter_push(pre.take(i as int), pred, pre[i as int]);
                assert(pre.take(i as int + 1) =~= pre.take(i as int).push(pre[i as int]));
            }
            if self.tunnels[i].consumer_id != *consumer_id {
                let ghost k0 = tunnel_views(kept@);
                kept.push(self.tunnels[i].duplicate());
                proof {
                    assert(tunnel_views(kept@) =~= k0.push(pre[i as int]));
                }
            }
            i += 1;
        }
        proof {
            assert(pre.take(pre.len() as int) =~= pre);
        }
        self.tunnels = kept;
        proof {
            lemma_filter_contains_iff(pre, pred);
            lemma_unique_tunnel_ids_filter(pre, pred);
            assert forall|k: int|
                0 <= k < self@.tunnels.len() implies TUNNEL_PORT_BASE <= (
            #[trigger] self@.tunnels[k]).port < self@.next_port by {
                assert(self@.tunnels.contains(self@.tunnels[k]));
                let j = choose|j: int| 0 <= j < pre.len() && pre[j] == self@.tunnels[k];
            }
        }
    }

    /// Close every bridge onto one supplier's devices (it stopped, or
    /// disconnected). The counter stands here too.
    pub fn close_for_supplier(&mut self, supplier_id: &String)
        requires
            old(self).wf(),
        ensures
            final(self).wf(),
            final(self)@.next_port == old(self)@.next_port,
            final(self)@.tunnels == old(self)@.tunnels.filter(keep_supplier_pred(supplier_id@)),
            forall|q: TunnelView|
                #[trigger] final(self)@.tunnels.contains(q) <==> (old(self)@.tunnels.contains(q)
                    && q.supplier_id != supplier_id@),
    {
        let ghost pre = self@.tunnels;
        let ghost pred = keep_supplier_pred(supplier_id@);
        let mut kept: Vec<Tunnel> = Vec::new();
        let mut i: usize = 0;
        while i < self.tunnels.len()
            invariant
                i <= pre.len(),
                self@.tunnels == pre,
                self@.tunnels.len() == self.tunnels@.len(),
                tunnel_views(kept@) == pre.take(i as int).filter(pred),
                pred == keep_supplier_pred(supplier_id@),
            decreases pre.len() - i,
        {
            proof {
                lemma_filter_push(pre.take(i as int), pred, pre[i as int]);
                assert(pre.take(i as int + 1) =~= pre.take(i as int).push(pre[i as int]));
            }
            if self.tunnels[i].supplier_id != *supplier_id {
                let ghost k0 = tunnel_views(kept@);
                kept.push(self.tunnels[i].duplicate());
                proof {
                    assert(tunnel_views(kept@) =~= k0.push(pre[i as int]));
                }
            }
            i += 1;
        }
        proof {
            assert(pre.take(pre.len() as int) =~= pre);
        }
        self.tunnels = kept;
        proof {
            lemma_filter_contains_iff(pre, pred);
            lemma_unique_tunnel_ids_filter(pre, pred);
            assert forall|k: int|
                0 <= k < self@.tunnels.len() implies TUNNEL_PORT_BASE <= (
            #[trigger] self@.tunnels[k]).port < self@.next_port by {
                assert(self@.tunnels.contains(self@.tunnels[k]));
                let j = choose|j: int| 0 <= j < pre.len() && pre[j] == self@.tunnels[k];
            }
        }
    }
}

/// Ports strictly increase across allocations, whatever happens in
/// between: a fresh port can never collide with an earlier one. The
/// counter only ever grows (`open_tunnel` and `close_tunnel` both say
/// so), hence any two successful allocations return distinct ports.
pub proof fn lemma_ports_never_reused(
    s0: TunnelManagerView,
    s1: TunnelManagerView,
    s2: TunnelManagerView,
    s3: TunnelManagerView,
    t1: TunnelView,
    t2: TunnelView,
)
    requires
        open_ok(s0, s1, t1),
        s2.next_port >= s1.next_port,
        open_ok(s2, s3, t2),
    ensures
        t2.port > t1.port,
{
}

} // verus!
