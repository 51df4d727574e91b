//! The MarketMaker engine: the one place where leases are decided. It
//! owns the device registry, the whitelist and the tunnel manager, and
//! keeps them agreeing: a device is leased exactly while a tunnel for
//! it is active — never a stale port, never a forwarded-but-unleased
//! device.

use vstd::prelude::*;
use crate::device::{leased_to, unleased, Device, DeviceFilterVec, DeviceView};
use crate::errors::MarketError;
use crate::registry::{
    available_pred, device_index, device_record, device_views, filtered_pred, has_device,
    lemma_device_index_is, not_supplied_by_pred, release_ok, reserve_ok, supplied_by_pred,
    withdraw_ok, DeviceRegistry,
};
use crate::strlist::{contains_string, find_string, is_member};
use crate::tunnel::{has_tunnel, open_ok, TunnelManager, TunnelView};
use crate::seqtools::lemma_filter_contains_iff;
use crate::whitelist::{Whitelist, WhitelistRole};

verus! {

/// Mathematical image of a [`SupplierEntry`].
pub ghost struct SupplierEntryView {
    pub peer_id: Seq<char>,
    pub name: Seq<char>,
    pub secure: bool,
}

/// One attached supplier: its identity, its display name and whether
/// its session asked for encrypted tunnels.
pub struct SupplierEntry {
    pub peer_id: String,
    pub name: String,
    pub secure: bool,
}

impl View for SupplierEntry {
    type V = SupplierEntryView;

    open spec fn view(&self) -> SupplierEntryView {
        SupplierEntryView { peer_id: self.peer_id@, name: self.name@, secure: self.secure }
    }
}

/// The views of a supplier roster.
pub open spec fn supplier_views(s: Seq<SupplierEntry>) -> Seq<SupplierEntryView> {
    s.map_values(|e: SupplierEntry| e@)
}

/// Some roster entry carries this peer id.
pub open spec fn has_supplier(s: Seq<SupplierEntryView>, peer: Seq<char>) -> bool {
    exists|k: int| 0 <= k < s.len() && s[k].peer_id == peer
}

/// No two roster entries share a peer id.
pub open spec fn unique_supplier_ids(s: Seq<SupplierEntryView>) -> bool {
    forall|i: int, j: int| 0 <= i < j < s.len() ==> s[i].peer_id != s[j].peer_id
}

/// The index of the roster entry for this peer (unique under `wf`).
pub open spec fn supplier_index(s: Seq<SupplierEntryView>, peer: Seq<char>) -> int {
    choose|k: int| 0 <= k < s.len() && s[k].peer_id == peer
}

/// The roster entry for this peer.
pub open spec fn supplier_record(s: Seq<SupplierEntryView>, peer: Seq<char>) -> SupplierEntryView {
    s[supplier_index(s, peer)]
}

/// With unique peer ids, any index carrying `peer` is `supplier_index`.
pub proof fn lemma_supplier_index_is(s: Seq<SupplierEntryView>, peer: Seq<char>, i: int)
    requires
        unique_supplier_ids(s),
        0 <= i < s.len(),
        s[i].peer_id == peer,
    ensures
        supplier_index(s, peer) == i,
        supplier_record(s, peer) == s[i],
        has_supplier(s, peer),
{
    assert(has_supplier(s, peer));
    let j = supplier_index(s, peer);
    if j != i {
        assert(s[i].peer_id == s[j].peer_id);
    }
}

/// `t` is the tunnel that serves device `d`, held by consumer `c`.
pub open spec fn tunnel_serves(t: TunnelView, d: DeviceView, c: Seq<char>) -> bool {
    &&& t.device_id == d.device_id
    &&& t.consumer_id == c
    &&& t.supplier_id == d.supplier_id
    &&& Some(t.port) == d.local_port
}

/// A leased device has exactly its tunnel; an unleased one has none.
pub open spec fn device_tunnel_ok(d: DeviceView, ts: Seq<TunnelView>) -> bool {
    match d.lessee_id {
        Some(c) => exists|j: int| 0 <= j < ts.len() && tunnel_serves(#[trigger] ts[j], d, c),
        None => d.local_port is None && !has_tunnel(ts, d.device_id),
    }
}

/// A tunnel serves a present, leased device.
pub open spec fn tunnel_device_ok(t: TunnelView, reg: Seq<DeviceView>) -> bool {
    exists|k: int|
        0 <= k < reg.len() && tunnel_serves(t, #[trigger] reg[k], t.consumer_id)
            && reg[k].lessee_id == Some(t.consumer_id)
}

/// The registry and the tunnel manager agree: tunnels exist exactly
/// for leased devices, one per device, carrying the lessee and port
/// the registry records.
pub open spec fn tunnels_match(reg: Seq<DeviceView>, ts: Seq<TunnelView>) -> bool {
    &&& forall|k: int| 0 <= k < reg.len() ==> device_tunnel_ok(#[trigger] reg[k], ts)
    &&& forall|j: int| 0 <= j < ts.len() ==> tunnel_device_ok(#[trigger] ts[j], reg)
}

/// The device as owned by supplier `s`.
pub open spec fn with_supplier(d: DeviceView, s: Seq<char>) -> DeviceView {
    DeviceView { supplier_id: s, ..d }
}

/// One announced device folded into the registry: an id already
/// present is re-announced idempotently; a new one is inserted
/// unleased, owned by the announcing supplier.
pub open spec fn supply_step(pre: Seq<DeviceView>, d: DeviceView, s: Seq<char>) -> Seq<DeviceView> {
    if has_device(pre, d.device_id) {
        pre
    } else {
        pre.push(unleased(with_supplier(d, s)))
    }
}

/// A whole announcement folded in, left to right.
pub open spec fn supply_fold(
    pre: Seq<DeviceView>,
    ds: Seq<DeviceView>,
    s: Seq<char>,
) -> Seq<DeviceView>
    decreases ds.len(),
{
    if ds.len() == 0 {
        pre
    } else {
        supply_fold(supply_step(pre, ds[0], s), ds.skip(1), s)
    }
}

/// Some announced device is already registered by another supplier.
pub open spec fn supply_conflict(pre: Seq<DeviceView>, ds: Seq<DeviceView>, s: Seq<char>) -> bool {
    exists|k: int|
        0 <= k < ds.len() && has_device(pre, (#[trigger] ds[k]).device_id) && device_record(
            pre,
            ds[k].device_id,
        ).supplier_id != s
}

/// The broker's whole state.
pub struct MarketMakerState {
    pub whitelist: Whitelist,
    pub registry: DeviceRegistry,
    pub tunnels: TunnelManager,
    pub suppliers: Vec<SupplierEntry>,
    pub consumers: Vec<String>,
}

impl MarketMakerState {
    /// Every component is well formed, rosters hold a peer once, every
    /// registered device belongs to an attached supplier, and registry
    /// and tunnels agree lease for tunnel.
    pub open spec fn wf(self) -> bool {
        &&& self.whitelist.wf()
        &&& self.registry.wf()
        &&& self.tunnels.wf()
        &&& unique_supplier_ids(supplier_views(self.suppliers@))
        &&& (forall|i: int, j: int|
            0 <= i < j < self.consumers@.len() ==> self.consumers@[i]@ != self.consumers@[j]@)
        &&& tunnels_match(self.registry@, self.tunnels@.tunnels)
        &&& (forall|k: int|
            0 <= k < self.registry@.len() ==> has_supplier(
                supplier_views(self.suppliers@),
                (#[trigger] self.registry@[k]).supplier_id,
            ))
    }

    /// A fresh market: no devices, no peers, whitelist disabled.
    pub fn new() -> (m: MarketMakerState)
        ensures
            m.wf(),
            m.registry@ == Seq::<DeviceView>::empty(),
            m.tunnels@.tunnels == Seq::<TunnelView>::empty(),
            m.suppliers@ == Seq::<SupplierEntry>::empty(),
            m.consumers@ == Seq::<String>::empty(),
            !m.whitelist.spec_enabled(),
            forall|q: Seq<char>, role: WhitelistRole| !m.whitelist.spec_member(role, q),
    {
        MarketMakerState {
            whitelist: Whitelist::new(),
            registry: DeviceRegistry::new(),
            tunnels: TunnelManager::new(),
            suppliers: Vec::new(),
            consumers: Vec::new(),
        }
    }

    /// Nothing but the whitelist moved.
    pub open spec fn only_whitelist_changed(self, pre: MarketMakerState) -> bool {
        &&& self.registry == pre.registry
        &&& self.tunnels == pre.tunnels
        &&& self.suppliers == pre.suppliers
        &&& self.consumers == pre.consumers
    }

    /// Turn admission checks on. Doing it twice changes nothing more.
    pub fn use_whitelist(&mut self)
        requires
            old(self).wf(),
        ensures
            final(self).wf(),
            final(self).only_whitelist_changed(*old(self)),
            final(self).whitelist == (Whitelist { enabled: true, ..old(self).whitelist }),
    {
        self.whitelist.enable();
    }

    /// Turn admission checks off; membership is kept, not cleared.
    pub fn reset_whitelist(&mut self)
        requires
            old(self).wf(),
        ensures
            final(self).wf(),
            final(self).only_whitelist_changed(*old(self)),
            final(self).whitelist == (Whitelist { enabled: false, ..old(self).whitelist }),
    {
        self.whitelist.disable();
    }

    /// Allow a supplier peer to attach.
    pub fn whitelist_supplier(&mut self, key: String)
        requires
            old(self).wf(),
        ensures
            final(self).wf(),
            final(self).only_whitelist_changed(*old(self)),
            final(self).whitelist.spec_enabled() == old(self).whitelist.spec_enabled(),
            forall|q: Seq<char>|
                final(self).whitelist.spec_member(WhitelistRole::Supplier, q) <==> (old(self).whitelist.spec_member(WhitelistRole::Supplier, q) || q == key@),
            forall|q: Seq<char>|
                final(self).whitelist.spec_member(WhitelistRole::Consumer, q) == old(self).whitelist.spec_member(WhitelistRole::Consumer, q),
    {
        self.whitelist.add(WhitelistRole::Supplier, key);
    }

    /// Strike a supplier peer; an attached supplier stays attached.
    pub fn unwhitelist_supplier(&mut self, key: &String)
        requires
            old(self).wf(),
        ensures
            final(self).wf(),
            final(self).only_whitelist_changed(*old(self)),
            final(self).whitelist.spec_enabled() == old(self).whitelist.spec_enabled(),
            forall|q: Seq<char>|
                final(self).whitelist.spec_member(WhitelistRole::Supplier, q) <==> (old(self).whitelist.spec_member(WhitelistRole::Supplier, q) && q != key@),
            forall|q: Seq<char>|
                final(self).whitelist.spec_member(WhitelistRole::Consumer, q) == old(self).whitelist.spec_member(WhitelistRole::Consumer, q),
    {
        self.whitelist.remove(WhitelistRole::Supplier, key);
    }

    /// Allow a consumer peer to attach.
    pub fn whitelist_consumer(&mut self, key: String)
        requires
            old(self).wf(),
        ensures
            final(self).wf(),
            final(self).only_whitelist_changed(*old(self)),
            final(self).whitelist.spec_enabled() == old(self).whitelist.spec_enabled(),
            forall|q: Seq<char>|
                final(self).whitelist.spec_member(WhitelistRole::Consumer, q) <==> (old(self).whitelist.spec_member(WhitelistRole::Consumer, q) || q == key@),
            forall|q: Seq<char>|
                final(self).whitelist.spec_member(WhitelistRole::Supplier, q) == old(self).whitelist.spec_member(WhitelistRole::Supplier, q),
    {
        self.whitelist.add(WhitelistRole::Consumer, key);
    }

    /// Strike a consumer peer; an attached consumer stays attached.
    pub fn unwhitelist_consumer(&mut self, key: &String)
        requires
            old(self).wf(),
        ensures
            final(self).wf(),
            final(self).only_whitelist_changed(*old(self)),
            final(self).whitelist.spec_enabled() == old(self).whitelist.spec_enabled(),
            forall|q: Seq<char>|
                final(self).whitelist.spec_member(WhitelistRole::Consumer, q) <==> (old(self).whitelist.spec_member(WhitelistRole::Consumer, q) && q != key@),
            forall|q: Seq<char>|
                final(self).whitelist.spec_member(WhitelistRole::Supplier, q) == old(self).whitelist.spec_member(WhitelistRole::Supplier, q),
    {
        self.whitelist.remove(WhitelistRole::Consumer, key);
    }

    /// Index of the roster entry for this supplier, if any.
    fn find_supplier(&self, peer_id: &String) -> (r: Option<usize>)
        ensures
            match r {
                Some(i) => i < self.suppliers@.len() && supplier_views(
                    self.suppliers@,
                )[i as int].peer_id == peer_id@,
                None => !has_supplier(supplier_views(self.suppliers@), peer_id@),
            },
    {
        let mut i: usize = 0;
        while i < self.suppliers.len()
            invariant
                i <= self.suppliers@.len(),
                forall|k: int|
                    0 <= k < i ==> supplier_views(self.suppliers@)[k].peer_id != peer_id@,
            decreases self.suppliers@.len() - i,
        {
            if self.suppliers[i].peer_id == *peer_id {
                return Some(i);
            }
            i += 1;
        }
        None
    }

    /// Admit a supplier. Fails when admission checks bar the peer, or
    /// when a supplier under this identity is already attached.
    pub fn attach_supplier(&mut self, peer_id: String, name: String, secure: bool) -> (r: Result<
        (),
        MarketError,
    >)
        requires
            old(self).wf(),
        ensures
            final(self).wf(),
            final(self).whitelist == old(self).whitelist,
            final(self).registry == old(self).registry,
            final(self).tunnels == old(self).tunnels,
            final(self).consumers == old(self).consumers,
            match r {
                Ok(()) => old(self).whitelist.spec_is_admitted(WhitelistRole::Supplier, peer_id@)
                    && !has_supplier(supplier_views(old(self).suppliers@), peer_id@)
                    && supplier_views(final(self).suppliers@) == supplier_views(
                    old(self).suppliers@,
                ).push(
                    (SupplierEntryView { peer_id: peer_id@, name: name@, secure }),
                ),
                Err(MarketError::NotWhitelisted) => !old(self).whitelist.spec_is_admitted(
                    WhitelistRole::Supplier,
                    peer_id@,
                ) && final(self).suppliers == old(self).suppliers,
                Err(MarketError::AlreadyRunning) => old(self).whitelist.spec_is_admitted(
                    WhitelistRole::Supplier,
                    peer_id@,
                ) && has_supplier(supplier_views(old(self).suppliers@), peer_id@) && final(self).suppliers == old(self).suppliers,
                Err(_) => false,
            },
    {
        if !self.whitelist.is_admitted(WhitelistRole::Supplier, &peer_id) {
            return Err(MarketError::NotWhitelisted);
        }
        if self.find_supplier(&peer_id).is_some() {
            return Err(MarketError::AlreadyRunning);
        }
        let ghost pre = supplier_views(self.suppliers@);
        let e = SupplierEntry { peer_id, name, secure };
        let ghost ev = e@;
        self.suppliers.push(e);
        proof {
            assert(supplier_views(self.suppliers@) =~= pre.push(ev));
            assert forall|i: int, j: int|
                0 <= i < j < supplier_views(self.suppliers@).len() implies supplier_views(
                self.suppliers@,
            )[i].peer_id != supplier_views(self.suppliers@)[j].peer_id by {
                if j == supplier_views(self.suppliers@).len() - 1 {
                    assert(pre[i].peer_id != ev.peer_id);
                }
            }
            assert forall|k: int| 0 <= k < self.registry@.len() implies has_supplier(
                supplier_views(self.suppliers@),
                (#[trigger] self.registry@[k]).supplier_id,
            ) by {
                let id = self.registry@[k].supplier_id;
                assert(has_supplier(pre, id));
                let w = choose|w: int| 0 <= w < pre.len() && pre[w].peer_id == id;
                assert(supplier_views(self.suppliers@)[w].peer_id == id);
            }
        }
        Ok(())
    }

    /// Admit a consumer. Fails when admission checks bar the peer, or
    /// when a consumer under this identity is already attached.
    pub fn attach_consumer(&mut self, peer_id: String) -> (r: Result<(), MarketError>)
        requires
            old(self).wf(),
        ensures
            final(self).wf(),
            final(self).whitelist == old(self).whitelist,
            final(self).registry == old(self).registry,
            final(self).tunnels == old(self).tunnels,
            final(self).suppliers == old(self).suppliers,
            match r {
                Ok(()) => old(self).whitelist.spec_is_admitted(WhitelistRole::Consumer, peer_id@)
                    && !is_member(old(self).consumers@, peer_id@) && final(self).consumers@
                    == old(self).consumers@.push(peer_id),
                Err(MarketError::NotWhitelisted) => !old(self).whitelist.spec_is_admitted(
                    WhitelistRole::Consumer,
                    peer_id@,
                ) && final(self).consumers == old(self).consumers,
                Err(MarketError::AlreadyRunning) => old(self).whitelist.spec_is_admitted(
                    WhitelistRole::Consumer,
                    peer_id@,
                ) && is_member(old(self).consumers@, peer_id@) && final(self).consumers == old(self).consumers,
                Err(_) => false,
            },
    {
        if !self.whitelist.is_admitted(WhitelistRole::Consumer, &peer_id) {
            return Err(MarketError::NotWhitelisted);
        }
        if contains_string(&self.consumers, &peer_id) {
            return Err(MarketError::AlreadyRunning);
        }
        let ghost pre = self.consumers@;
        let ghost p = peer_id@;
        self.consumers.push(peer_id);
        proof {
            assert forall|i: int, j: int|
                0 <= i < j < self.consumers@.len() implies self.consumers@[i]@
                != self.consumers@[j]@ by {
                if j == self.consumers@.len() - 1 {
                    assert(pre[i]@ != p);
                }
            }
        }
        Ok(())
    }

    /// Reserve a device for an attached consumer. The lease is
    /// committed first, the tunnel opened after; when no port can be
    /// allocated any more, the lease is rolled back and the failure
    /// reported. On success the fresh local port is handed back; at
    /// most one consumer ever holds a device, because only an unleased
    /// device can be reserved.
    pub fn reserve(&mut self, consumer_id: &String, device_id: &String) -> (r: Result<
        u16,
        MarketError,
    >)
        requires
            old(self).wf(),
        ensures
            final(self).wf(),
            final(self).whitelist == old(self).whitelist,
            final(self).suppliers == old(self).suppliers,
            final(self).consumers == old(self).consumers,
            match r {
                Ok(p) => {
                    &&& is_member(old(self).consumers@, consumer_id@)
                    &&& reserve_ok(
                        old(self).registry@,
                        final(self).registry@,
                        device_id@,
                        consumer_id@,
                        p,
                    )
                    &&& !has_tunnel(old(self).tunnels@.tunnels, device_id@)
                    &&& open_ok(
                        old(self).tunnels@,
                        final(self).tunnels@,
                        (TunnelView {
                            device_id: device_id@,
                            consumer_id: consumer_id@,
                            supplier_id: device_record(old(self).registry@, device_id@).supplier_id,
                            port: p,
                            secure: supplier_record(
                                supplier_views(old(self).suppliers@),
                                device_record(old(self).registry@, device_id@).supplier_id,
                            ).secure,
                        }),
                    )
                },
                Err(MarketError::PeerNotConnected) => !is_member(old(self).consumers@, consumer_id@)
                    && final(self).registry@ == old(self).registry@ && final(self).tunnels@ == old(self).tunnels@,
                Err(MarketError::DeviceNotFound) => is_member(old(self).consumers@, consumer_id@)
                    && !has_device(old(self).registry@, device_id@) && final(self).registry@ == old(self).registry@ && final(self).tunnels@ == old(self).tunnels@,
                Err(MarketError::DeviceAlreadyLeased) => is_member(
                    old(self).consumers@,
                    consumer_id@,
                ) && has_device(old(self).registry@, device_id@) && !(device_record(
                    old(self).registry@,
                    device_id@,
                ).lessee_id is None) && final(self).registry@ == old(self).registry@ && final(self).tunnels@ == old(self).tunnels@,
                Err(MarketError::TunnelSetupFailed) => is_member(old(self).consumers@, consumer_id@)
                    && old(self).tunnels@.next_port == u16::MAX && final(self).registry@ == old(self).registry@ && final(self).tunnels@ == old(self).tunnels@,
                Err(_) => false,
            },
    {
        if !contains_string(&self.consumers, consumer_id) {
            return Err(MarketError::PeerNotConnected);
        }
        let di = match self.registry.find(device_id) {
            None => {
                return Err(MarketError::DeviceNotFound);
            },
            Some(i) => i,
        };
        let ghost pre_reg = self.registry@;
        let ghost pre_ts = self.tunnels@;
        proof {
            lemma_device_index_is(pre_reg, device_id@, di as int);
            assert(device_tunnel_ok(pre_reg[di as int], pre_ts.tunnels));
        }
        let supplier_id = self.registry.device_at(di).supplier_id.clone();
        let si = match self.find_supplier(&supplier_id) {
            Some(j) => j,
            None => {
                proof {
                    assert(false);
                }
                return Err(MarketError::DeviceNotFound);
            },
        };
        proof {
            lemma_supplier_index_is(supplier_views(self.suppliers@), supplier_id@, si as int);
        }
        let secure = self.suppliers[si].secure;
        let port = self.tunnels.peek_port();
        match self.registry.reserve(consumer_id, device_id, port) {
            Err(e) => {
                return Err(e);
            },
            Ok(()) => {},
        }
        let ghost d0 = pre_reg[di as int];
        let ghost mid_reg = pre_reg.update(di as int, leased_to(d0, consumer_id@, port));
        proof {
            assert(self.registry@ == mid_reg);
            assert(!has_tunnel(pre_ts.tunnels, device_id@));
        }
        match self.tunnels.open_tunnel(device_id, consumer_id, &supplier_id, secure) {
            Ok(p) => {
                proof {
                    let post_reg = self.registry@;
                    let post_ts = self.tunnels@.tunnels;
                    let tv = TunnelView {
                        device_id: device_id@,
                        consumer_id: consumer_id@,
                        supplier_id: supplier_id@,
                        port: p,
                        secure,
                    };
                    assert(post_ts == pre_ts.tunnels.push(tv));
                    assert forall|k: int|
                        0 <= k < post_reg.len() implies device_tunnel_ok(
                        #[trigger] post_reg[k],
                        post_ts,
                    ) by {
                        if k == di as int {
                            assert(post_ts[post_ts.len() - 1] == tv);
                            assert(tunnel_serves(tv, post_reg[k], consumer_id@));
                        } else {
                            assert(post_reg[k] == pre_reg[k]);
                            assert(device_tunnel_ok(pre_reg[k], pre_ts.tunnels));
                            match pre_reg[k].lessee_id {
                                Some(c2) => {
                                    let j = choose|j: int|
                                        0 <= j < pre_ts.tunnels.len() && tunnel_serves(
                                            pre_ts.tunnels[j],
                                            pre_reg[k],
                                            c2,
                                        );
                                    assert(post_ts[j] == pre_ts.tunnels[j]);
                                    assert(tunnel_serves(post_ts[j], post_reg[k], c2));
                                },
                                None => {
                                    assert(pre_reg[k].device_id != device_id@);
                                    assert forall|j: int|
                                        0 <= j < post_ts.len() implies (#[trigger] post_ts[j]).device_id
                                        != post_reg[k].device_id by {
                                        if j < post_ts.len() - 1 {
                                            assert(post_ts[j] == pre_ts.tunnels[j]);
                                            assert(!has_tunnel(
                                                pre_ts.tunnels,
                                                pre_reg[k].device_id,
                                            ));
                                        }
                                    }
                                },
                            }
                        }
                    }
                    assert forall|j: int|
                        0 <= j < post_ts.len() implies tunnel_device_ok(
                        #[trigger] post_ts[j],
                        post_reg,
                    ) by {
                        if j == post_ts.len() - 1 {
                            assert(tunnel_serves(tv, post_reg[di as int], consumer_id@));
                        } else {
                            assert(post_ts[j] == pre_ts.tunnels[j]);
                            assert(tunnel_device_ok(pre_ts.tunnels[j], pre_reg));
                            let k = choose|k: int|
                                0 <= k < pre_reg.len() && tunnel_serves(
                                    pre_ts.tunnels[j],
                                    pre_reg[k],
                                    pre_ts.tunnels[j].consumer_id,
                                ) && pre_reg[k].lessee_id == Some(pre_ts.tunnels[j].consumer_id);
                            assert(k != di as int);
                            assert(post_reg[k] == pre_reg[k]);
                            assert(tunnel_serves(post_ts[j], post_reg[k], post_ts[j].consumer_id));
                        }
                    }
                    assert forall|k: int|
                        0 <= k < post_reg.len() implies has_supplier(
                        supplier_views(self.suppliers@),
                        (#[trigger] post_reg[k]).supplier_id,
                    ) by {
                        assert(post_reg[k].supplier_id == pre_reg[k].supplier_id);
                    }
                }
                Ok(p)
            },
            Err(_) => {
                let rolled = self.registry.release(consumer_id, device_id);
                proof {
                    lemma_device_index_is(mid_reg, device_id@, di as int);
                    assert(rolled is Ok);
                    assert(self.registry@ == mid_reg.update(
                        di as int,
                        unleased(leased_to(d0, consumer_id@, port)),
                    ));
                    assert(d0.local_port is None);
                    assert(unleased(leased_to(d0, consumer_id@, port)) == d0);
                    assert(self.registry@ =~= pre_reg);
                }
                Err(MarketError::TunnelSetupFailed)
            },
        }
    }

    /// Release a device held by this consumer: clear the lease and
    /// tear its tunnel down. Only the holder can release.
    pub fn release(&mut self, consumer_id: &String, device_id: &String) -> (r: Result<
        (),
        MarketError,
    >)
        requires
            old(self).wf(),
        ensures
            final(self).wf(),
            final(self).whitelist == old(self).whitelist,
            final(self).suppliers == old(self).suppliers,
            final(self).consumers == old(self).consumers,
            final(self).tunnels@.next_port == old(self).tunnels@.next_port,
            match r {
                Ok(()) => {
                    &&& release_ok(
                        old(self).registry@,
                        final(self).registry@,
                        device_id@,
                        consumer_id@,
                    )
                    &&& forall|q: TunnelView|
                        #[trigger] final(self).tunnels@.tunnels.contains(q) <==> (old(self).tunnels@.tunnels.contains(q) && q.device_id != device_id@)
                },
                Err(MarketError::DeviceNotFound) => !has_device(old(self).registry@, device_id@)
                    && final(self).registry@ == old(self).registry@ && final(self).tunnels@ == old(self).tunnels@,
                Err(MarketError::NotLeasedByCaller) => has_device(old(self).registry@, device_id@)
                    && device_record(old(self).registry@, device_id@).lessee_id != Some(
                    consumer_id@,
                ) && final(self).registry@ == old(self).registry@ && final(self).tunnels@ == old(self).tunnels@,
                Err(_) => false,
            },
    {
        let ghost pre_reg = self.registry@;
        let ghost pre_ts = self.tunnels@.tunnels;
        match self.registry.release(consumer_id, device_id) {
            Err(e) => {
                return Err(e);
            },
            Ok(_) => {},
        }
        let ghost di = device_index(pre_reg, device_id@);
        let ghost d0 = pre_reg[di];
        let closed = self.tunnels.close_tunnel(device_id);
        proof {
            assert(has_device(pre_reg, device_id@));
            let post_reg = self.registry@;
            let post_ts = self.tunnels@.tunnels;
            assert(post_reg == pre_reg.update(di, unleased(d0)));
            assert forall|k: int|
                0 <= k < post_reg.len() implies device_tunnel_ok(
                #[trigger] post_reg[k],
                post_ts,
            ) by {
                assert(device_tunnel_ok(pre_reg[k], pre_ts));
                if k == di {
                    assert forall|j: int|
                        0 <= j < post_ts.len() implies (#[trigger] post_ts[j]).device_id
                        != post_reg[k].device_id by {
                        assert(post_ts.contains(post_ts[j]));
                    }
                } else {
                    assert(post_reg[k] == pre_reg[k]);
                    assert(pre_reg[k].device_id != device_id@);
                    match pre_reg[k].lessee_id {
                        Some(c2) => {
                            let j = choose|j: int|
                                0 <= j < pre_ts.len() && tunnel_serves(pre_ts[j], pre_reg[k], c2);
                            assert(pre_ts.contains(pre_ts[j]));
                            assert(post_ts.contains(pre_ts[j]));
                            let j2 = choose|j2: int|
                                0 <= j2 < post_ts.len() && post_ts[j2] == pre_ts[j];
                            assert(tunnel_serves(post_ts[j2], post_reg[k], c2));
                        },
                        None => {
                            assert forall|j: int|
                                0 <= j < post_ts.len() implies (#[trigger] post_ts[j]).device_id
                                != post_reg[k].device_id by {
                                assert(post_ts.contains(post_ts[j]));
                                assert(pre_ts.contains(post_ts[j]));
                                let j0 = choose|j0: int|
                                    0 <= j0 < pre_ts.len() && pre_ts[j0] == post_ts[j];
                                assert(!has_tunnel(pre_ts, pre_reg[k].device_id));
                            }
                        },
                    }
                }
            }
            assert forall|j: int|
                0 <= j < post_ts.len() implies tunnel_device_ok(#[trigger] post_ts[j], post_reg) by {
                assert(post_ts.contains(post_ts[j]));
                assert(pre_ts.contains(post_ts[j]));
                let j0 = choose|j0: int| 0 <= j0 < pre_ts.len() && pre_ts[j0] == post_ts[j];
                assert(tunnel_device_ok(pre_ts[j0], pre_reg));
                let k = choose|k: int|
                    0 <= k < pre_reg.len() && tunnel_serves(
                        pre_ts[j0],
                        pre_reg[k],
                        pre_ts[j0].consumer_id,
                    ) && pre_reg[k].lessee_id == Some(pre_ts[j0].consumer_id);
                assert(k != di);
                assert(post_reg[k] == pre_reg[k]);
                assert(tunnel_serves(post_ts[j], post_reg[k], post_ts[j].consumer_id));
            }
            assert forall|k: int|
                0 <= k < post_reg.len() implies has_supplier(
                supplier_views(self.suppliers@),
                (#[trigger] post_reg[k]).supplier_id,
            ) by {
                assert(post_reg[k].supplier_id == pre_reg[k].supplier_id);
            }
        }
        Ok(())
    }

    /// Release every device this consumer holds and tear their tunnels
    /// down. Never fails.
    pub fn release_all(&mut self, consumer_id: &String)
        requires
            old(self).wf(),
        ensures
            final(self).wf(),
            final(self).whitelist == old(self).whitelist,
            final(self).suppliers == old(self).suppliers,
            final(self).consumers == old(self).consumers,
            final(self).tunnels@.next_port == old(self).tunnels@.next_port,
            final(self).registry@.len() == old(self).registry@.len(),
            forall|k: int|
                0 <= k < old(self).registry@.len() ==> final(self).registry@[k] == (if old(self).registry@[k].lessee_id == Some(consumer_id@) {
                    unleased(old(self).registry@[k])
                } else {
                    old(self).registry@[k]
                }),
            forall|q: TunnelView|
                #[trigger] final(self).tunnels@.tunnels.contains(q) <==> (old(self).tunnels@.tunnels.contains(q) && q.consumer_id != consumer_id@),
    {
        let ghost pre_reg = self.registry@;
        let ghost pre_ts = self.tunnels@.tunnels;
        self.registry.release_all(consumer_id);
        self.tunnels.close_for_consumer(consumer_id);
        proof {
            let post_reg = self.registry@;
            let post_ts = self.tunnels@.tunnels;
            assert forall|k: int|
                0 <= k < post_reg.len() implies device_tunnel_ok(
                #[trigger] post_reg[k],
                post_ts,
            ) by {
                assert(device_tunnel_ok(pre_reg[k], pre_ts));
                if pre_reg[k].lessee_id == Some(consumer_id@) {
                    assert(post_reg[k] == unleased(pre_reg[k]));
                    assert forall|j: int|
                        0 <= j < post_ts.len() implies (#[trigger] post_ts[j]).device_id
                        != post_reg[k].device_id by {
                        assert(post_ts.contains(post_ts[j]));
                        assert(pre_ts.contains(post_ts[j]));
                        let j0 = choose|j0: int| 0 <= j0 < pre_ts.len() && pre_ts[j0] == post_ts[j];
                        let jw = choose|jw: int|
                            0 <= jw < pre_ts.len() && tunnel_serves(
                                pre_ts[jw],
                                pre_reg[k],
                                consumer_id@,
                            );
                        if pre_ts[j0].device_id == pre_reg[k].device_id {
                            assert(pre_ts[jw].device_id == pre_reg[k].device_id);
                            if j0 != jw {
                                assert(pre_ts[j0].device_id != pre_ts[jw].device_id);
                            }
                        }
                    }
                } else {
                    assert(post_reg[k] == pre_reg[k]);
                    match pre_reg[k].lessee_id {
                        Some(c2) => {
                            let j = choose|j: int|
                                0 <= j < pre_ts.len() && tunnel_serves(pre_ts[j], pre_reg[k], c2);
                            assert(pre_ts.contains(pre_ts[j]));
                            assert(post_ts.contains(pre_ts[j]));
                            let j2 = choose|j2: int|
                                0 <= j2 < post_ts.len() && post_ts[j2] == pre_ts[j];
                            assert(tunnel_serves(post_ts[j2], post_reg[k], c2));
                        },
                        None => {
                            assert forall|j: int|
                                0 <= j < post_ts.len() implies (#[trigger] post_ts[j]).device_id
                                != post_reg[k].device_id by {
                                assert(post_ts.contains(post_ts[j]));
                                assert(pre_ts.contains(post_ts[j]));
                                let j0 = choose|j0: int|
                                    0 <= j0 < pre_ts.len() && pre_ts[j0] == post_ts[j];
                                assert(!has_tunnel(pre_ts, pre_reg[k].device_id));
                            }
                        },
                    }
                }
            }
            assert forall|j: int|
                0 <= j < post_ts.len() implies tunnel_device_ok(#[trigger] post_ts[j], post_reg) by {
                assert(post_ts.contains(post_ts[j]));
                assert(pre_ts.contains(post_ts[j]));
                let j0 = choose|j0: int| 0 <= j0 < pre_ts.len() && pre_ts[j0] == post_ts[j];
                assert(tunnel_device_ok(pre_ts[j0], pre_reg));
                let k = choose|k: int|
                    0 <= k < pre_reg.len() && tunnel_serves(
                        pre_ts[j0],
                        pre_reg[k],
                        pre_ts[j0].consumer_id,
                    ) && pre_reg[k].lessee_id == Some(pre_ts[j0].consumer_id);
                assert(pre_reg[k].lessee_id != Some(consumer_id@));
                assert(post_reg[k] == pre_reg[k]);
                assert(tunnel_serves(post_ts[j], post_reg[k], post_ts[j].consumer_id));
            }
            assert forall|k: int|
                0 <= k < post_reg.len() implies has_supplier(
                supplier_views(self.suppliers@),
                (#[trigger] post_reg[k]).supplier_id,
            ) by {
                assert(post_reg[k].supplier_id == pre_reg[k].supplier_id);
            }
        }
    }

    /// A consumer is gone (stop, or connection loss): release all its
    /// leases, tear its tunnels down, and strike it off the roster.
    pub fn detach_consumer(&mut self, peer_id: &String)
        requires
            old(self).wf(),
        ensures
            final(self).wf(),
            final(self).whitelist == old(self).whitelist,
            final(self).suppliers == old(self).suppliers,
            final(self).tunnels@.next_port == old(self).tunnels@.next_port,
            forall|q: Seq<char>|
                is_member(final(self).consumers@, q) <==> (is_member(old(self).consumers@, q) && q
                    != peer_id@),
            final(self).registry@.len() == old(self).registry@.len(),
            forall|k: int|
                0 <= k < old(self).registry@.len() ==> final(self).registry@[k] == (if old(self).registry@[k].lessee_id == Some(peer_id@) {
                    unleased(old(self).registry@[k])
                } else {
                    old(self).registry@[k]
                }),
            forall|q: TunnelView|
                #[trigger] final(self).tunnels@.tunnels.contains(q) <==> (old(self).tunnels@.tunnels.contains(q) && q.consumer_id != peer_id@),
    {
        self.release_all(peer_id);
        if let Some(i) = find_string(&self.consumers, peer_id) {
            let ghost pre = self.consumers@;
            self.consumers.remove(i);
            proof {
                assert forall|q: Seq<char>|
                    is_member(self.consumers@, q) <==> (is_member(pre, q) && q != peer_id@) by {
                    if is_member(self.consumers@, q) {
                        let k = choose|k: int|
                            0 <= k < self.consumers@.len() && self.consumers@[k]@ == q;
                        if k < i {
                            assert(pre[k]@ == q);
                        } else {
                            assert(pre[k + 1]@ == q);
                        }
                    }
                    if is_member(pre, q) && q != peer_id@ {
                        let k = choose|k: int| 0 <= k < pre.len() && pre[k]@ == q;
                        if k < i {
                            assert(self.consumers@[k]@ == q);
                        } else {
                            assert(k > i);
                            assert(self.consumers@[k - 1]@ == q);
                        }
                    }
                }
            }
        }
    }

    /// Withdraw one device on its supplier's behalf. A leased device
    /// is kept unless `force`; on success any tunnel for it is torn
    /// down and the removed record handed back, so the lessee can be
    /// told.
    #[verifier::spinoff_prover]
    #[verifier::rlimit(60)]
    pub fn reclaim_device(
        &mut self,
        supplier_id: &String,
        device_id: &String,
        force: bool,
    ) -> (r: Result<Device, MarketError>)
        requires
            old(self).wf(),
        ensures
            final(self).wf(),
            final(self).whitelist == old(self).whitelist,
            final(self).suppliers == old(self).suppliers,
            final(self).consumers == old(self).consumers,
            final(self).tunnels@.next_port == old(self).tunnels@.next_port,
            match r {
                Ok(d) => {
                    &&& withdraw_ok(old(self).registry@, final(self).registry@, device_id@, d@)
                    &&& d@ == device_record(old(self).registry@, device_id@)
                    &&& d@.supplier_id == supplier_id@
                    &&& (force || d@.lessee_id is None)
                    &&& forall|q: TunnelView|
                        #[trigger] final(self).tunnels@.tunnels.contains(q) <==> (old(self).tunnels@.tunnels.contains(q) && q.device_id != device_id@)
                },
                Err(MarketError::DeviceNotFound) => !has_device(old(self).registry@, device_id@)
                    && final(self).registry@ == old(self).registry@ && final(self).tunnels@ == old(self).tunnels@,
                Err(MarketError::DeviceOwnedElsewhere) => has_device(old(self).registry@, device_id@)
                    && device_record(old(self).registry@, device_id@).supplier_id != supplier_id@
                    && final(self).registry@ == old(self).registry@ && final(self).tunnels@ == old(self).tunnels@,
                Err(MarketError::DeviceLeased) => has_device(old(self).registry@, device_id@)
                    && device_record(old(self).registry@, device_id@).supplier_id == supplier_id@
                    && !force && !(device_record(old(self).registry@, device_id@).lessee_id is None)
                    && final(self).registry@ == old(self).registry@ && final(self).tunnels@ == old(self).tunnels@,
                Err(_) => false,
            },
    {
        let ghost pre_reg = self.registry@;
        let ghost pre_ts = self.tunnels@.tunnels;
        let d = match self.registry.withdraw_device(supplier_id, device_id, force) {
            Err(e) => {
                return Err(e);
            },
            Ok(d) => d,
        };
        let ghost di = device_index(pre_reg, device_id@);
        let closed = self.tunnels.close_tunnel(device_id);
        proof {
            assert(has_device(pre_reg, device_id@));
            let post_reg = self.registry@;
            let post_ts = self.tunnels@.tunnels;
            assert(post_reg == pre_reg.remove(di));
            assert forall|k: int|
                0 <= k < post_reg.len() implies device_tunnel_ok(
                #[trigger] post_reg[k],
                post_ts,
            ) by {
                let k0 = if k < di {
                    k
                } else {
                    k + 1
                };
                assert(post_reg[k] == pre_reg[k0]);
                assert(device_tunnel_ok(pre_reg[k0], pre_ts));
                assert(pre_reg[k0].device_id != device_id@);
                match pre_reg[k0].lessee_id {
                    Some(c2) => {
                        let j = choose|j: int|
                            0 <= j < pre_ts.len() && tunnel_serves(pre_ts[j], pre_reg[k0], c2);
                        assert(pre_ts.contains(pre_ts[j]));
                        assert(post_ts.contains(pre_ts[j]));
                        let j2 = choose|j2: int| 0 <= j2 < post_ts.len() && post_ts[j2] == pre_ts[j];
                        assert(tunnel_serves(post_ts[j2], post_reg[k], c2));
                    },
                    None => {
                        assert forall|j: int|
                            0 <= j < post_ts.len() implies (#[trigger] post_ts[j]).device_id
                            != post_reg[k].device_id by {
                            assert(post_ts.contains(post_ts[j]));
                            assert(pre_ts.contains(post_ts[j]));
                            let j0 = choose|j0: int|
                                0 <= j0 < pre_ts.len() && pre_ts[j0] == post_ts[j];
                            assert(!has_tunnel(pre_ts, pre_reg[k0].device_id));
                        }
                    },
                }
            }
            assert forall|j: int|
                0 <= j < post_ts.len() implies tunnel_device_ok(#[trigger] post_ts[j], post_reg) by {
                assert(post_ts.contains(post_ts[j]));
                assert(pre_ts.contains(post_ts[j]));
                let j0 = choose|j0: int| 0 <= j0 < pre_ts.len() && pre_ts[j0] == post_ts[j];
                assert(tunnel_device_ok(pre_ts[j0], pre_reg));
                let k = choose|k: int|
                    0 <= k < pre_reg.len() && tunnel_serves(
                        pre_ts[j0],
                        pre_reg[k],
                        pre_ts[j0].consumer_id,
                    ) && pre_reg[k].lessee_id == Some(pre_ts[j0].consumer_id);
                assert(k != di);
                let k2 = if k < di {
                    k
                } else {
                    k - 1
                };
                assert(post_reg[k2] == pre_reg[k]);
                assert(tunnel_serves(post_ts[j], post_reg[k2], post_ts[j].consumer_id));
            }
            assert forall|k: int|
                0 <= k < post_reg.len() implies has_supplier(
                supplier_views(self.suppliers@),
                (#[trigger] post_reg[k]).supplier_id,
            ) by {
                let k0 = if k < di {
                    k
                } else {
                    k + 1
                };
                assert(post_reg[k].supplier_id == pre_reg[k0].supplier_id);
            }
        }
        Ok(d)
    }

    /// A supplier is gone (stop, or connection loss): every one of its
    /// devices leaves the registry, leased or not, every tunnel onto
    /// them is torn down, and the roster entry is struck. The removed
    /// records are handed back so lessees can be told.
    pub fn detach_supplier(&mut self, peer_id: &String) -> (removed: Vec<Device>)
        requires
            old(self).wf(),
        ensures
            final(self).wf(),
            final(self).whitelist == old(self).whitelist,
            final(self).consumers == old(self).consumers,
            final(self).tunnels@.next_port == old(self).tunnels@.next_port,
            final(self).registry@ == old(self).registry@.filter(not_supplied_by_pred(peer_id@)),
            device_views(removed@) == old(self).registry@.filter(supplied_by_pred(peer_id@)),
            forall|q: TunnelView|
                #[trigger] final(self).tunnels@.tunnels.contains(q) <==> (old(self).tunnels@.tunnels.contains(q) && q.supplier_id != peer_id@),
            forall|q: Seq<char>|
                has_supplier(supplier_views(final(self).suppliers@), q) <==> (has_supplier(
                    supplier_views(old(self).suppliers@),
                    q,
                ) && q != peer_id@),
    {
        let ghost pre_reg = self.registry@;
        let ghost pre_ts = self.tunnels@.tunnels;
        let ghost pre_sup = supplier_views(self.suppliers@);
        let removed = self.registry.remove_supplier_devices(peer_id);
        self.tunnels.close_for_supplier(peer_id);
        if let Some(i) = self.find_supplier(peer_id) {
            let ghost pre = supplier_views(self.suppliers@);
            self.suppliers.remove(i);
            proof {
                assert(supplier_views(self.suppliers@) =~= pre.remove(i as int));
                assert forall|q: Seq<char>|
                    has_supplier(supplier_views(self.suppliers@), q) <==> (has_supplier(pre, q)
                        && q != peer_id@) by {
                    let post = supplier_views(self.suppliers@);
                    if has_supplier(post, q) {
                        let k = choose|k: int| 0 <= k < post.len() && post[k].peer_id == q;
                        if k < i as int {
                            assert(pre[k].peer_id == q);
                        } else {
                            assert(pre[k + 1].peer_id == q);
                        }
                    }
                    if has_supplier(pre, q) && q != peer_id@ {
                        let k = choose|k: int| 0 <= k < pre.len() && pre[k].peer_id == q;
                        if k < i as int {
                            assert(post[k].peer_id == q);
                        } else {
                            assert(k > i as int);
                            assert(post[k - 1].peer_id == q);
                        }
                    }
                }
                assert forall|a: int, b: int|
                    0 <= a < b < supplier_views(self.suppliers@).len() implies supplier_views(
                    self.suppliers@,
                )[a].peer_id != supplier_views(self.suppliers@)[b].peer_id by {
                    let post = supplier_views(self.suppliers@);
                    let a0 = if a < i as int {
                        a
                    } else {
                        a + 1
                    };
                    let b0 = if b < i as int {
                        b
                    } else {
                        b + 1
                    };
                    assert(post[a] == pre[a0]);
                    assert(post[b] == pre[b0]);
                }
            }
        }
        proof {
            let post_reg = self.registry@;
            let post_ts = self.tunnels@.tunnels;
            let post_sup = supplier_views(self.suppliers@);
            lemma_filter_contains_iff(pre_reg, not_supplied_by_pred(peer_id@));
            assert forall|k: int|
                0 <= k < post_reg.len() implies device_tunnel_ok(
                #[trigger] post_reg[k],
                post_ts,
            ) by {
                assert(post_reg.contains(post_reg[k]));
                assert(pre_reg.contains(post_reg[k]));
                let k0 = choose|k0: int| 0 <= k0 < pre_reg.len() && pre_reg[k0] == post_reg[k];
                assert(device_tunnel_ok(pre_reg[k0], pre_ts));
                assert(pre_reg[k0].supplier_id != peer_id@);
                match pre_reg[k0].lessee_id {
                    Some(c2) => {
                        let j = choose|j: int|
                            0 <= j < pre_ts.len() && tunnel_serves(pre_ts[j], pre_reg[k0], c2);
                        assert(pre_ts.contains(pre_ts[j]));
                        assert(post_ts.contains(pre_ts[j]));
                        let j2 = choose|j2: int| 0 <= j2 < post_ts.len() && post_ts[j2] == pre_ts[j];
                        assert(tunnel_serves(post_ts[j2], post_reg[k], c2));
                    },
                    None => {
                        assert forall|j: int|
                            0 <= j < post_ts.len() implies (#[trigger] post_ts[j]).device_id
                            != post_reg[k].device_id by {
                            assert(post_ts.contains(post_ts[j]));
                            assert(pre_ts.contains(post_ts[j]));
                            let j0 = choose|j0: int|
                                0 <= j0 < pre_ts.len() && pre_ts[j0] == post_ts[j];
                            assert(!has_tunnel(pre_ts, pre_reg[k0].device_id));
                        }
                    },
                }
            }
            assert forall|j: int|
                0 <= j < post_ts.len() implies tunnel_device_ok(#[trigger] post_ts[j], post_reg) by {
                assert(post_ts.contains(post_ts[j]));
                assert(pre_ts.contains(post_ts[j]));
                let j0 = choose|j0: int| 0 <= j0 < pre_ts.len() && pre_ts[j0] == post_ts[j];
                assert(tunnel_device_ok(pre_ts[j0], pre_reg));
                let k = choose|k: int|
                    0 <= k < pre_reg.len() && tunnel_serves(
                        pre_ts[j0],
                        pre_reg[k],
                        pre_ts[j0].consumer_id,
                    ) && pre_reg[k].lessee_id == Some(pre_ts[j0].consumer_id);
                assert(pre_reg[k].supplier_id == pre_ts[j0].supplier_id);
                assert(pre_reg[k].supplier_id != peer_id@);
                assert(pre_reg.contains(pre_reg[k]));
                assert(post_reg.contains(pre_reg[k]));
                let k2 = choose|k2: int| 0 <= k2 < post_reg.len() && post_reg[k2] == pre_reg[k];
                assert(tunnel_serves(post_ts[j], post_reg[k2], post_ts[j].consumer_id));
            }
            assert forall|k: int|
                0 <= k < post_reg.len() implies has_supplier(
                post_sup,
                (#[trigger] post_reg[k]).supplier_id,
            ) by {
                assert(post_reg.contains(post_reg[k]));
                assert(pre_reg.contains(post_reg[k]));
                let k0 = choose|k0: int| 0 <= k0 < pre_reg.len() && pre_reg[k0] == post_reg[k];
                assert(has_supplier(pre_sup, pre_reg[k0].supplier_id));
                assert(pre_reg[k0].supplier_id != peer_id@);
            }
        }
        removed
    }

    /// Whether some announced device is registered by another supplier.
    fn find_conflict(&self, supplier_id: &String, devices: &Vec<Device>) -> (r: bool)
        requires
            self.wf(),
        ensures
            r == supply_conflict(self.registry@, device_views(devices@), supplier_id@),
    {
        let ghost vs = device_views(devices@);
        let mut i: usize = 0;
        while i < devices.len()
            invariant
                i <= vs.len(),
                vs == device_views(devices@),
                vs.len() == devices@.len(),
                self.wf(),
                forall|k: int|
                    0 <= k < i ==> !(has_device(self.registry@, (#[trigger] vs[k]).device_id)
                        && device_record(self.registry@, vs[k].device_id).supplier_id
                        != supplier_id@),
            decreases vs.len() - i,
        {
            if let Some(idx) = self.registry.find(&devices[i].device_id) {
                proof {
                    lemma_device_index_is(self.registry@, vs[i as int].device_id, idx as int);
                }
                if self.registry.device_at(idx).supplier_id != *supplier_id {
                    proof {
                        assert(has_device(self.registry@, vs[i as int].device_id)
                            && device_record(self.registry@, vs[i as int].device_id).supplier_id
                            != supplier_id@);
                    }
                    return true;
                }
            }
            i += 1;
        }
        false
    }

    /// Register every announced device: ones this supplier already
    /// registered are re-announced idempotently; new ids are inserted
    /// unleased. When any announced id belongs to another supplier the
    /// whole announcement is rejected and nothing changes.
    pub fn supply_devices(&mut self, supplier_id: &String, devices: &Vec<Device>) -> (r: Result<
        (),
        MarketError,
    >)
        requires
            old(self).wf(),
        ensures
            final(self).wf(),
            final(self).whitelist == old(self).whitelist,
            final(self).suppliers == old(self).suppliers,
            final(self).consumers == old(self).consumers,
            final(self).tunnels == old(self).tunnels,
            match r {
                Ok(()) => has_supplier(supplier_views(old(self).suppliers@), supplier_id@)
                    && !supply_conflict(old(self).registry@, device_views(devices@), supplier_id@)
                    && final(self).registry@ == supply_fold(
                    old(self).registry@,
                    device_views(devices@),
                    supplier_id@,
                ),
                Err(MarketError::PeerNotConnected) => !has_supplier(
                    supplier_views(old(self).suppliers@),
                    supplier_id@,
                ) && final(self).registry@ == old(self).registry@,
                Err(MarketError::DeviceOwnedElsewhere) => has_supplier(
                    supplier_views(old(self).suppliers@),
                    supplier_id@,
                ) && supply_conflict(old(self).registry@, device_views(devices@), supplier_id@)
                    && final(self).registry@ == old(self).registry@,
                Err(_) => false,
            },
    {
        if self.find_supplier(supplier_id).is_none() {
            return Err(MarketError::PeerNotConnected);
        }
        if self.find_conflict(supplier_id, devices) {
            return Err(MarketError::DeviceOwnedElsewhere);
        }
        let ghost vs = device_views(devices@);
        let ghost pre_reg = self.registry@;
        let ghost s = supplier_id@;
        proof {
            assert(vs.skip(0) =~= vs);
        }
        let mut i: usize = 0;
        while i < devices.len()
            invariant
                i <= vs.len(),
                vs == device_views(devices@),
                vs.len() == devices@.len(),
                s == supplier_id@,
                self.wf(),
                self.whitelist == old(self).whitelist,
                self.suppliers == old(self).suppliers,
                self.consumers == old(self).consumers,
                self.tunnels == old(self).tunnels,
                has_supplier(supplier_views(self.suppliers@), s),
                supply_fold(self.registry@, vs.skip(i as int), s) == supply_fold(pre_reg, vs, s),
            decreases vs.len() - i,
        {
            let ghost cur = self.registry@;
            proof {
                assert(vs.skip(i as int)[0] == vs[i as int]);
                assert(vs.skip(i as int).skip(1) =~= vs.skip(i as int + 1));
            }
            if self.registry.find(&devices[i].device_id).is_some() {
                proof {
                    assert(has_device(cur, vs[i as int].device_id));
                    assert(supply_step(cur, vs[i as int], s) == cur);
                }
            } else {
                let mut dev = devices[i].duplicate();
                dev.supplier_id = supplier_id.clone();
                let ghost dv = dev@;
                let ghost pre_ts = self.tunnels@.tunnels;
                let res = self.registry.register_device(dev);
                proof {
                    assert(dv == with_supplier(vs[i as int], s));
                    assert(res is Ok);
                    assert(self.registry@ == cur.push(unleased(with_supplier(vs[i as int], s))));
                    assert(supply_step(cur, vs[i as int], s) == self.registry@);
                    let post_reg = self.registry@;
                    let newd = unleased(with_supplier(vs[i as int], s));
                    assert forall|j: int|
                        0 <= j < pre_ts.len() implies (#[trigger] pre_ts[j]).device_id
                        != newd.device_id by {
                        assert(tunnel_device_ok(pre_ts[j], cur));
                        let k = choose|k: int|
                            0 <= k < cur.len() && tunnel_serves(
                                pre_ts[j],
                                cur[k],
                                pre_ts[j].consumer_id,
                            ) && cur[k].lessee_id == Some(pre_ts[j].consumer_id);
                        if pre_ts[j].device_id == newd.device_id {
                            assert(has_device(cur, newd.device_id));
                        }
                    }
                    assert forall|k: int|
                        0 <= k < post_reg.len() implies device_tunnel_ok(
                        #[trigger] post_reg[k],
                        pre_ts,
                    ) by {
                        if k < post_reg.len() - 1 {
                            assert(post_reg[k] == cur[k]);
                            assert(device_tunnel_ok(cur[k], pre_ts));
                        } else {
                            assert(post_reg[k] == newd);
                            assert(!has_tunnel(pre_ts, newd.device_id));
                        }
                    }
                    assert forall|j: int|
                        0 <= j < pre_ts.len() implies tunnel_device_ok(
                        #[trigger] pre_ts[j],
                        post_reg,
                    ) by {
                        assert(tunnel_device_ok(pre_ts[j], cur));
                        let k = choose|k: int|
                            0 <= k < cur.len() && tunnel_serves(
                                pre_ts[j],
                                cur[k],
                                pre_ts[j].consumer_id,
                            ) && cur[k].lessee_id == Some(pre_ts[j].consumer_id);
                        assert(post_reg[k] == cur[k]);
                        assert(tunnel_serves(pre_ts[j], post_reg[k], pre_ts[j].consumer_id));
                    }
                    assert forall|k: int|
                        0 <= k < post_reg.len() implies has_supplier(
                        supplier_views(self.suppliers@),
                        (#[trigger] post_reg[k]).supplier_id,
                    ) by {
                        if k < post_reg.len() - 1 {
                            assert(post_reg[k] == cur[k]);
                            assert(has_supplier(supplier_views(self.suppliers@), cur[k].supplier_id));
                        } else {
                            assert(post_reg[k].supplier_id == s);
                        }
                    }
                }
            }
            proof {
                assert(supply_fold(cur, vs.skip(i as int), s) == supply_fold(
                    supply_step(cur, vs[i as int], s),
                    vs.skip(i as int + 1),
                    s,
                ));
            }
            i += 1;
        }
        proof {
            assert(vs.skip(vs.len() as int) =~= Seq::<DeviceView>::empty());
            assert(supply_fold(self.registry@, vs.skip(i as int), s) == self.registry@);
        }
        Ok(())
    }

    /// The devices nobody holds, as copies.
    pub fn get_available_devices(&self) -> (r: Vec<Device>)
        ensures
            device_views(r@) == self.registry@.filter(available_pred()),
    {
        self.registry.list_available()
    }

    /// The devices passing every filter, as copies.
    pub fn get_devices_by_filter(&self, fv: &DeviceFilterVec) -> (r: Vec<Device>)
        ensures
            device_views(r@) == self.registry@.filter(
                filtered_pred(crate::device::filter_views(fv.filters@)),
            ),
    {
        self.registry.list_by_filter(fv)
    }
}

} // verus!
