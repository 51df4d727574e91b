//! The consumer agent's local state: the cache of devices this
//! consumer holds, the optional default device, and the mirroring
//! defaults. The cache mirrors what the MarketMaker granted; the
//! default device, when set, is always one of the cached leases.

use vstd::prelude::*;
use crate::device::{Device, DeviceView};
use crate::errors::MarketError;
use crate::marketmaker::MarketMakerState;
use crate::registry::{
    device_record, device_views, has_device, lemma_device_index_is, unique_ids,
};
use crate::scrcpy::ScrcpyArgs;
use crate::seqtools::{lemma_filter_contains_iff, lemma_filter_push};

verus! {

/// Keep the cached leases the market still shows as held by `peer`.
pub open spec fn still_held_pred(reg: Seq<DeviceView>, peer: Seq<char>) -> spec_fn(
    DeviceView,
) -> bool {
    |dv: DeviceView|
        has_device(reg, dv.device_id) && device_record(reg, dv.device_id).lessee_id == Some(peer)
}

/// One attached consumer session.
pub struct ConsumerState {
    /// The MarketMaker this session attached to.
    pub mm_host: String,
    pub mm_port: u16,
    /// This consumer's display name on the market.
    pub name: String,
    /// The devices this consumer currently holds, each once.
    pub leases: Vec<Device>,
    /// The default device; must be one of the leases when set.
    pub default_device: Option<String>,
    /// Options used when a mirroring request gives none.
    pub scrcpy_defaults: ScrcpyArgs,
}

impl ConsumerState {
    /// Lease ids are unique and the default, when set, is held.
    pub open spec fn wf(self) -> bool {
        &&& unique_ids(device_views(self.leases@))
        &&& match self.default_device {
            Some(d) => has_device(device_views(self.leases@), d@),
            None => true,
        }
    }

    /// A freshly attached session: no leases, no default, the
    /// documented mirroring defaults.
    pub fn new(mm_host: String, mm_port: u16, name: String) -> (c: ConsumerState)
        ensures
            c.wf(),
            c.mm_host@ == mm_host@,
            c.mm_port == mm_port,
            c.name@ == name@,
            c.leases@.len() == 0,
            c.default_device is None,
    {
        let c = ConsumerState {
            mm_host,
            mm_port,
            name,
            leases: Vec::new(),
            default_device: None,
            scrcpy_defaults: ScrcpyArgs::defaults(),
        };
        proof {
            assert(device_views(c.leases@) =~= Seq::<DeviceView>::empty());
        }
        c
    }

    /// Index of the cached lease with this id, if any.
    fn find(&self, device_id: &String) -> (r: Option<usize>)
        ensures
            match r {
                Some(i) => i < self.leases@.len() && device_views(
                    self.leases@,
                )[i as int].device_id == device_id@,
                None => !has_device(device_views(self.leases@), device_id@),
            },
    {
        let mut i: usize = 0;
        while i < self.leases.len()
            invariant
                i <= self.leases@.len(),
                forall|k: int| 0 <= k < i ==> device_views(self.leases@)[k].device_id != device_id@,
            decreases self.leases@.len() - i,
        {
            if self.leases[i].device_id == *device_id {
                return Some(i);
            }
            i += 1;
        }
        None
    }

    /// Record a granted lease. The device becomes the default when the
    /// caller asked for it, or when no default was set yet.
    pub fn on_reserved(&mut self, device: Device, no_default: bool)
        requires
            old(self).wf(),
            !has_device(device_views(old(self).leases@), device@.device_id),
        ensures
            final(self).wf(),
            device_views(final(self).leases@) == device_views(old(self).leases@).push(device@),
            final(self).default_device == (if !no_default || old(self).default_device is None {
                Some(device.device_id)
            } else {
                old(self).default_device
            }),
            final(self).mm_host == old(self).mm_host,
            final(self).mm_port == old(self).mm_port,
            final(self).name == old(self).name,
            final(self).scrcpy_defaults == old(self).scrcpy_defaults,
    {
        let ghost pre = device_views(self.leases@);
        let ghost dv = device@;
        let make_default = !no_default || self.default_device.is_none();
        let id = device.device_id.clone();
        self.leases.push(device);
        proof {
            assert(device_views(self.leases@) =~= pre.push(dv));
            assert forall|i: int, j: int|
                0 <= i < j < device_views(self.leases@).len() implies device_views(
                self.leases@,
            )[i].device_id != device_views(self.leases@)[j].device_id by {
                if j == device_views(self.leases@).len() - 1 {
                    assert(pre[i].device_id != dv.device_id);
                }
            }
        }
        if make_default {
            self.default_device = Some(id);
            proof {
                assert(device_views(self.leases@)[pre.len() as int].device_id == dv.device_id);
            }
        } else {
            proof {
                let d = old(self).default_device.unwrap();
                assert(has_device(pre, d@));
                let k = choose|k: int| 0 <= k < pre.len() && pre[k].device_id == d@;
                assert(device_views(self.leases@)[k].device_id == d@);
            }
        }
    }

    /// Drop a lease from the cache (released, reclaimed, or torn down
    /// by a disconnect). Clears the default if it pointed there.
    pub fn on_released(&mut self, device_id: &String)
        requires
            old(self).wf(),
        ensures
            final(self).wf(),
            !has_device(device_views(final(self).leases@), device_id@),
            forall|q: Seq<char>|
                q != device_id@ ==> (has_device(device_views(final(self).leases@), q)
                    == has_device(device_views(old(self).leases@), q)),
            old(self).default_device is None ==> final(self).default_device is None,
            (old(self).default_device matches Some(d) && d@ == device_id@) ==> final(self).default_device is None,
            (old(self).default_device matches Some(d) && d@ != device_id@) ==> final(self).default_device == old(self).default_device,
            final(self).mm_host == old(self).mm_host,
            final(self).mm_port == old(self).mm_port,
            final(self).name == old(self).name,
            final(self).scrcpy_defaults == old(self).scrcpy_defaults,
    {
        let ghost pre = device_views(self.leases@);
        if let Some(i) = self.find(device_id) {
            self.leases.remove(i);
            proof {
                assert(device_views(self.leases@) =~= pre.remove(i as int));
                assert forall|q: Seq<char>|
                    q != device_id@ implies (has_device(device_views(self.leases@), q)
                    == has_device(pre, q)) by {
                    let post = device_views(self.leases@);
                    if has_device(post, q) {
                        let k = choose|k: int| 0 <= k < post.len() && post[k].device_id == q;
                        let k0 = if k < i as int {
                            k
                        } else {
                            k + 1
                        };
                        assert(pre[k0].device_id == q);
                    }
                    if has_device(pre, q) {
                        let k = choose|k: int| 0 <= k < pre.len() && pre[k].device_id == q;
                        assert(k != i as int);
                        if k < i as int {
                            assert(device_views(self.leases@)[k].device_id == q);
                        } else {
                            assert(device_views(self.leases@)[k - 1].device_id == q);
                        }
                    }
                }
                assert forall|a: int, b: int|
                    0 <= a < b < device_views(self.leases@).len() implies device_views(
                    self.leases@,
                )[a].device_id != device_views(self.leases@)[b].device_id by {
                    let a0 = if a < i as int {
                        a
                    } else {
                        a + 1
                    };
                    let b0 = if b < i as int {
                        b
                    } else {
                        b + 1
                    };
                    assert(device_views(self.leases@)[a] == pre[a0]);
                    assert(device_views(self.leases@)[b] == pre[b0]);
                }
                assert(!has_device(device_views(self.leases@), device_id@)) by {
                    let post = device_views(self.leases@);
                    if has_device(post, device_id@) {
                        let k = choose|k: int|
                            0 <= k < post.len() && post[k].device_id == device_id@;
                        let k0 = if k < i as int {
                            k
                        } else {
                            k + 1
                        };
                        assert(pre[k0].device_id == device_id@);
                        lemma_device_index_is(pre, device_id@, k0);
                        lemma_device_index_is(pre, device_id@, i as int);
                    }
                }
            }
        }
        let clears = match &self.default_device {
            Some(d) => *d == *device_id,
            None => false,
        };
        if clears {
            self.default_device = None;
        } else {
            proof {
                match &self.default_device {
                    Some(d) => {
                        assert(has_device(pre, d@));
                        assert(d@ != device_id@);
                    },
                    None => {},
                }
            }
        }
    }

    /// Drop every lease and the default (stop, or release-all).
    pub fn on_released_all(&mut self)
        ensures
            final(self).wf(),
            final(self).leases@.len() == 0,
            final(self).default_device is None,
            final(self).mm_host == old(self).mm_host,
            final(self).mm_port == old(self).mm_port,
            final(self).name == old(self).name,
            final(self).scrcpy_defaults == old(self).scrcpy_defaults,
    {
        self.leases = Vec::new();
        self.default_device = None;
        proof {
            assert(device_views(self.leases@) =~= Seq::<DeviceView>::empty());
        }
    }

    /// Make a held device the default. Fails when this consumer does
    /// not hold it.
    pub fn use_device(&mut self, device_id: &String) -> (r: Result<(), MarketError>)
        requires
            old(self).wf(),
        ensures
            final(self).wf(),
            final(self).leases == old(self).leases,
            final(self).mm_host == old(self).mm_host,
            final(self).mm_port == old(self).mm_port,
            final(self).name == old(self).name,
            final(self).scrcpy_defaults == old(self).scrcpy_defaults,
            match r {
                Ok(()) => has_device(device_views(old(self).leases@), device_id@) && final(self).default_device == Some(*device_id),
                Err(e) => e == MarketError::NotLeasedByCaller && !has_device(
                    device_views(old(self).leases@),
                    device_id@,
                ) && final(self).default_device == old(self).default_device,
            },
    {
        match self.find(device_id) {
            None => Err(MarketError::NotLeasedByCaller),
            Some(_) => {
                self.default_device = Some(device_id.clone());
                Ok(())
            },
        }
    }

    /// The tunnel port for starting a mirroring session on a held
    /// device. Fails when the device is not held, or when its lease
    /// carries no active tunnel.
    pub fn mirror_port(&self, device_id: &String) -> (r: Result<u16, MarketError>)
        requires
            self.wf(),
        ensures
            match r {
                Ok(p) => has_device(device_views(self.leases@), device_id@) && device_record(
                    device_views(self.leases@),
                    device_id@,
                ).local_port == Some(p),
                Err(MarketError::DeviceNotLeased) => !has_device(
                    device_views(self.leases@),
                    device_id@,
                ),
                Err(MarketError::TunnelSetupFailed) => has_device(
                    device_views(self.leases@),
                    device_id@,
                ) && device_record(device_views(self.leases@), device_id@).local_port is None,
                Err(_) => false,
            },
    {
        match self.find(device_id) {
            None => Err(MarketError::DeviceNotLeased),
            Some(i) => {
                proof {
                    lemma_device_index_is(device_views(self.leases@), device_id@, i as int);
                }
                match self.leases[i].local_port {
                    Some(p) => Ok(p),
                    None => Err(MarketError::TunnelSetupFailed),
                }
            },
        }
    }

    /// Replace the mirroring defaults as a unit.
    pub fn set_scrcpy_defaults(&mut self, args: ScrcpyArgs)
        ensures
            final(self).scrcpy_defaults == args,
            final(self).leases == old(self).leases,
            final(self).default_device == old(self).default_device,
            final(self).mm_host == old(self).mm_host,
            final(self).mm_port == old(self).mm_port,
            final(self).name == old(self).name,
    {
        self.scrcpy_defaults = args;
    }

    /// Whether this consumer's cache holds the device.
    pub fn holds(&self, device_id: &String) -> (r: bool)
        ensures
            r == has_device(device_views(self.leases@), device_id@),
    {
        self.find(device_id).is_some()
    }

    /// Drop every cached lease the market no longer shows as held by
    /// this consumer: the lazy cleanup a status query performs after a
    /// forced reclaim or a supplier disconnect tore a lease down.
    pub fn sync_with_market(&mut self, peer_id: &String, mm: &MarketMakerState)
        requires
            old(self).wf(),
            mm.wf(),
        ensures
            final(self).wf(),
            device_views(final(self).leases@) == device_views(old(self).leases@).filter(
                still_held_pred(mm.registry@, peer_id@),
            ),
            forall|q: Seq<char>|
                has_device(device_views(final(self).leases@), q) <==> (has_device(
                    device_views(old(self).leases@),
                    q,
                ) && has_device(mm.registry@, q) && device_record(mm.registry@, q).lessee_id
                    == Some(peer_id@)),
            final(self).mm_host == old(self).mm_host,
            final(self).mm_port == old(self).mm_port,
            final(self).name == old(self).name,
            final(self).scrcpy_defaults == old(self).scrcpy_defaults,
    {
        let ghost pre = device_views(self.leases@);
        let ghost pred = still_held_pred(mm.registry@, peer_id@);
        let mut kept: Vec<Device> = Vec::new();
        let mut i: usize = 0;
        while i < self.leases.len()
            invariant
                i <= pre.len(),
                device_views(self.leases@) == pre,
                pre.len() == self.leases@.len(),
                device_views(kept@) == pre.take(i as int).filter(pred),
                pred == still_held_pred(mm.registry@, peer_id@),
                mm.wf(),
            decreases pre.len() - i,
        {
            proof {
                lemma_filter_push(pre.take(i as int), pred, pre[i as int]);
                assert(pre.take(i as int + 1) =~= pre.take(i as int).push(pre[i as int]));
            }
            let still = match mm.registry.find(&self.leases[i].device_id) {
                None => false,
                Some(j) => {
                    proof {
                        lemma_device_index_is(mm.registry@, pre[i as int].device_id, j as int);
                    }
                    match &mm.registry.device_at(j).lessee_id {
                        Some(l) => *l == *peer_id,
                        None => false,
                    }
                },
            };
            if still {
                let ghost k0 = device_views(kept@);
                kept.push(self.leases[i].duplicate());
                proof {
                    assert(device_views(kept@) =~= k0.push(pre[i as int]));
                }
            }
            i += 1;
        }
        proof {
            assert(pre.take(pre.len() as int) =~= pre);
        }
        self.leases = kept;
        proof {
            let post = device_views(self.leases@);
            lemma_filter_contains_iff(pre, pred);
            assert forall|a: int, b: int|
                0 <= a < b < post.len() implies post[a].device_id != post[b].device_id by {
                crate::registry::lemma_unique_ids_filter(pre, pred);
            }
            assert forall|q: Seq<char>|
                has_device(post, q) <==> (has_device(pre, q) && has_device(mm.registry@, q)
                    && device_record(mm.registry@, q).lessee_id == Some(peer_id@)) by {
                if has_device(post, q) {
                    let k = choose|k: int| 0 <= k < post.len() && post[k].device_id == q;
                    assert(post.contains(post[k]));
                    assert(pre.contains(post[k]) && pred(post[k]));
                    let k0 = choose|k0: int| 0 <= k0 < pre.len() && pre[k0] == post[k];
                }
                if has_device(pre, q) && has_device(mm.registry@, q) && device_record(
                    mm.registry@,
                    q,
                ).lessee_id == Some(peer_id@) {
                    let k = choose|k: int| 0 <= k < pre.len() && pre[k].device_id == q;
                    assert(pred(pre[k]));
                    assert(pre.contains(pre[k]));
                    assert(post.contains(pre[k]));
                    let k2 = choose|k2: int| 0 <= k2 < post.len() && post[k2] == pre[k];
                }
            }
        }
        let keep_default = match &self.default_device {
            Some(d) => self.find(d).is_some(),
            None => false,
        };
        if !keep_default {
            self.default_device = None;
        }
    }

    /// The held devices, as copies.
    pub fn leased_devices(&self) -> (r: Vec<Device>)
        ensures
            device_views(r@) == device_views(self.leases@),
    {
        let mut out: Vec<Device> = Vec::new();
        let mut i: usize = 0;
        while i < self.leases.len()
            invariant
                i <= self.leases@.len(),
                out@.len() == i,
                forall|k: int| 0 <= k < i ==> device_views(out@)[k] == device_views(self.leases@)[k],
            decreases self.leases@.len() - i,
        {
            let d = self.leases[i].duplicate();
            let ghost out0 = out@;
            out.push(d);
            proof {
                assert(out@[i as int]@ == self.leases@[i as int]@);
                assert forall|k: int|
                    0 <= k < i implies device_views(out@)[k] == device_views(
                    self.leases@,
                )[k] by {
                    assert(device_views(out0)[k] == device_views(self.leases@)[k]);
                    assert(out@[k] == out0[k]);
                }
            }
            i += 1;
        }
        proof {
            assert(device_views(out@) =~= device_views(self.leases@));
        }
        out
    }
}

} // verus!
