//! The MarketMaker's device registry: the authoritative map from
//! device id to owning supplier and current lessee. Device ids are
//! unique; a device is present exactly while its supplier is attached
//! and has not reclaimed it; at most one consumer holds a device at a
//! time.

use vstd::prelude::*;
use crate::device::{
    device_matches, filter_views, is_available, leased_to, matches_filters, unleased, Device,
    DeviceFilterVec, DeviceFilterView, DeviceView,
};
use crate::errors::MarketError;
use crate::seqtools::{lemma_filter_elems, lemma_filter_push};

verus! {

/// The views of a list of devices.
pub open spec fn device_views(s: Seq<Device>) -> Seq<DeviceView> {
    s.map_values(|d: Device| d@)
}

/// No two records share a device id.
pub open spec fn unique_ids(s: Seq<DeviceView>) -> bool {
    forall|i: int, j: int| 0 <= i < j < s.len() ==> s[i].device_id != s[j].device_id
}

/// Some record carries this device id.
pub open spec fn has_device(s: Seq<DeviceView>, id: Seq<char>) -> bool {
    exists|k: int| 0 <= k < s.len() && s[k].device_id == id
}

/// The index of the record with this id (unique when `unique_ids`).
pub open spec fn device_index(s: Seq<DeviceView>, id: Seq<char>) -> int {
    choose|k: int| 0 <= k < s.len() && s[k].device_id == id
}

/// The record with this id.
pub open spec fn device_record(s: Seq<DeviceView>, id: Seq<char>) -> DeviceView {
    s[device_index(s, id)]
}

/// With unique ids, any index carrying `id` is `device_index`.
pub proof fn lemma_device_index_is(s: Seq<DeviceView>, id: Seq<char>, i: int)
    requires
        unique_ids(s),
        0 <= i < s.len(),
        s[i].device_id == id,
    ensures
        device_index(s, id) == i,
        device_record(s, id) == s[i],
        has_device(s, id),
{
    assert(has_device(s, id));
    let j = device_index(s, id);
    if j != i {
        assert(s[i].device_id == s[j].device_id);
    }
}

/// A successful reservation: the one record with this id was free and
/// is now leased to `consumer` with a tunnel on `port`; nothing else
/// moved.
pub open spec fn reserve_ok(
    pre: Seq<DeviceView>,
    post: Seq<DeviceView>,
    id: Seq<char>,
    consumer: Seq<char>,
    port: u16,
) -> bool {
    exists|i: int|
        0 <= i < pre.len() && (#[trigger] pre[i]).device_id == id && pre[i].lessee_id is None
            && post == pre.update(i, leased_to(pre[i], consumer, port))
}

/// A successful release by the holder: the record's lease and tunnel
/// are cleared; nothing else moved.
pub open spec fn release_ok(
    pre: Seq<DeviceView>,
    post: Seq<DeviceView>,
    id: Seq<char>,
    consumer: Seq<char>,
) -> bool {
    exists|i: int|
        0 <= i < pre.len() && (#[trigger] pre[i]).device_id == id && pre[i].lessee_id == Some(
            consumer,
        ) && post == pre.update(i, unleased(pre[i]))
}

/// A successful withdrawal: the one record with this id is gone.
pub open spec fn withdraw_ok(
    pre: Seq<DeviceView>,
    post: Seq<DeviceView>,
    id: Seq<char>,
    removed: DeviceView,
) -> bool {
    exists|i: int|
        0 <= i < pre.len() && (#[trigger] pre[i]).device_id == id && removed == pre[i] && post
            == pre.remove(i)
}

/// The device records passing a filter list.
pub open spec fn filtered_pred(fs: Seq<DeviceFilterView>) -> spec_fn(DeviceView) -> bool {
    |dv: DeviceView| matches_filters(dv, fs)
}

/// The availability predicate, as a value.
pub open spec fn available_pred() -> spec_fn(DeviceView) -> bool {
    |dv: DeviceView| is_available(dv)
}

/// The authoritative device table of one MarketMaker.
pub struct DeviceRegistry {
    pub devices: Vec<Device>,
}

impl View for DeviceRegistry {
    type V = Seq<DeviceView>;

    open spec fn view(&self) -> Seq<DeviceView> {
        device_views(self.devices@)
    }
}

impl DeviceRegistry {
    /// Device ids never repeat.
    pub open spec fn wf(self) -> bool {
        unique_ids(self@)
    }

    /// An empty registry.
    pub fn new() -> (r: DeviceRegistry)
        ensures
            r.wf(),
            r@ == Seq::<DeviceView>::empty(),
    {
        let r = DeviceRegistry { devices: Vec::new() };
        proof {
            assert(r@ =~= Seq::<DeviceView>::empty());
        }
        r
    }

    /// Index of the record with this id, if any.
    pub fn find(&self, device_id: &String) -> (r: Option<usize>)
        ensures
            match r {
                Some(i) => i < self@.len() && self@[i as int].device_id == device_id@,
                None => !has_device(self@, device_id@),
            },
    {
        let mut i: usize = 0;
        while i < self.devices.len()
            invariant
                i <= self@.len(),
                self@.len() == self.devices@.len(),
                forall|k: int| 0 <= k < i ==> self@[k].device_id != device_id@,
            decreases self@.len() - i,
        {
            if self.devices[i].device_id == *device_id {
                assert(self@[i as int].device_id == device_id@);
                return Some(i);
            }
            i += 1;
        }
        None
    }

    /// The record at a known index.
    pub fn device_at(&self, i: usize) -> (d: &Device)
        requires
            i < self@.len(),
        ensures
            d@ == self@[i as int],
    {
        &self.devices[i]
    }

    /// Insert a newly supplied device, unleased. Fails when the id is
    /// already taken, whoever owns it.
    pub fn register_device(&mut self, device: Device) -> (r: Result<(), MarketError>)
        requires
            old(self).wf(),
        ensures
            final(self).wf(),
            match r {
                Ok(()) => !has_device(old(self)@, device@.device_id) && final(self)@ == old(self)@.push(unleased(device@)),
                Err(e) => e == MarketError::DuplicateDevice && has_device(old(self)@, device@.device_id) && final(self)@ == old(self)@,
            },
    {
        if self.find(&device.device_id).is_some() {
            return Err(MarketError::DuplicateDevice);
        }
        let ghost pre = self@;
        let ghost dv = device@;
        let mut device = device;
        device.lessee_id = None;
        device.local_port = None;
        self.devices.push(device);
        proof {
            assert(self@ =~= pre.push(unleased(dv)));
            assert forall|i: int, j: int| 0 <= i < j < self@.len() implies self@[i].device_id
                != self@[j].device_id by {
                if j == self@.len() - 1 {
                    assert(pre[i].device_id != dv.device_id);
                }
            }
        }
        Ok(())
    }

    /// Mark the device leased by `consumer_id` over `port`. Only a
    /// present, unleased device can be reserved, so at most one
    /// consumer ever holds it.
    pub fn reserve(&mut self, consumer_id: &String, device_id: &String, port: u16) -> (r: Result<
        (),
        MarketError,
    >)
        requires
            old(self).wf(),
        ensures
            final(self).wf(),
            match r {
                Ok(()) => reserve_ok(old(self)@, final(self)@, device_id@, consumer_id@, port)
                    && has_device(old(self)@, device_id@) && device_record(
                    old(self)@,
                    device_id@,
                ).lessee_id is None && final(self)@ == old(self)@.update(
                    device_index(old(self)@, device_id@),
                    leased_to(device_record(old(self)@, device_id@), consumer_id@, port),
                ),
                Err(MarketError::DeviceNotFound) => !has_device(old(self)@, device_id@) && final(self)@ == old(self)@,
                Err(MarketError::DeviceAlreadyLeased) => has_device(old(self)@, device_id@)
                    && !(device_record(old(self)@, device_id@).lessee_id is None) && final(self)@
                    == old(self)@,
                Err(_) => false,
            },
    {
        let found = self.find(device_id);
        match found {
            None => Err(MarketError::DeviceNotFound),
            Some(i) => {
                proof {
                    lemma_device_index_is(self@, device_id@, i as int);
                }
                if self.devices[i].lessee_id.is_some() {
                    return Err(MarketError::DeviceAlreadyLeased);
                }
                let ghost pre = self@;
                self.devices[i].lessee_id = Some(consumer_id.clone());
                self.devices[i].local_port = Some(port);
                proof {
                    assert(self@ =~= pre.update(
                        i as int,
                        leased_to(pre[i as int], consumer_id@, port),
                    ));
                    assert forall|a: int, b: int| 0 <= a < b < self@.len() implies self@[a].device_id
                        != self@[b].device_id by {
                        assert(self@[a].device_id == pre[a].device_id);
                        assert(self@[b].device_id == pre[b].device_id);
                    }
                }
                Ok(())
            },
        }
    }

    /// Clear the lease held by `consumer_id`, handing back the tunnel
    /// port. Fails when the device is absent, or held by someone else
    /// (or by nobody).
    pub fn release(&mut self, consumer_id: &String, device_id: &String) -> (r: Result<
        Option<u16>,
        MarketError,
    >)
        requires
            old(self).wf(),
        ensures
            final(self).wf(),
            match r {
                Ok(p) => release_ok(old(self)@, final(self)@, device_id@, consumer_id@) && p
                    == device_record(old(self)@, device_id@).local_port && has_device(
                    old(self)@,
                    device_id@,
                ) && device_record(old(self)@, device_id@).lessee_id == Some(consumer_id@)
                    && final(self)@ == old(self)@.update(
                    device_index(old(self)@, device_id@),
                    unleased(device_record(old(self)@, device_id@)),
                ),
                Err(MarketError::DeviceNotFound) => !has_device(old(self)@, device_id@) && final(self)@ == old(self)@,
                Err(MarketError::NotLeasedByCaller) => has_device(old(self)@, device_id@)
                    && device_record(old(self)@, device_id@).lessee_id != Some(consumer_id@)
                    && final(self)@ == old(self)@,
                Err(_) => false,
            },
    {
        let found = self.find(device_id);
        match found {
            None => Err(MarketError::DeviceNotFound),
            Some(i) => {
                proof {
                    lemma_device_index_is(self@, device_id@, i as int);
                }
                let held = match &self.devices[i].lessee_id {
                    Some(l) => *l == *consumer_id,
                    None => false,
                };
                if !held {
                    return Err(MarketError::NotLeasedByCaller);
                }
                let port = self.devices[i].local_port;
                let ghost pre = self@;
                self.devices[i].lessee_id = None;
                self.devices[i].local_port = None;
                proof {
                    assert(self@ =~= pre.update(i as int, unleased(pre[i as int])));
                    assert forall|a: int, b: int| 0 <= a < b < self@.len() implies self@[a].device_id
                        != self@[b].device_id by {
                        assert(self@[a].device_id == pre[a].device_id);
                        assert(self@[b].device_id == pre[b].device_id);
                    }
                }
                Ok(port)
            },
        }
    }

    /// Release every device held by `consumer_id`. Never fails.
    pub fn release_all(&mut self, consumer_id: &String)
        requires
            old(self).wf(),
        ensures
            final(self).wf(),
            final(self)@.len() == old(self)@.len(),
            forall|k: int|
                0 <= k < old(self)@.len() ==> final(self)@[k] == (if old(self)@[k].lessee_id
                    == Some(consumer_id@) {
                    unleased(old(self)@[k])
                } else {
                    old(self)@[k]
                }),
    {
        let ghost pre = self@;
        let mut i: usize = 0;
        while i < self.devices.len()
            invariant
                i <= pre.len(),
                self@.len() == self.devices@.len(),
                self@.len() == pre.len(),
                forall|k: int|
                    0 <= k < i ==> self@[k] == (if pre[k].lessee_id == Some(consumer_id@) {
                        unleased(pre[k])
                    } else {
                        pre[k]
                    }),
                forall|k: int| i <= k < pre.len() ==> self@[k] == pre[k],
            decreases pre.len() - i,
        {
            let held = match &self.devices[i].lessee_id {
                Some(l) => *l == *consumer_id,
                None => false,
            };
            if held {
                let ghost mid = self@;
                self.devices[i].lessee_id = None;
                self.devices[i].local_port = None;
                proof {
                    assert(self@ =~= mid.update(i as int, unleased(mid[i as int])));
                }
            }
            i += 1;
        }
        proof {
            assert forall|a: int, b: int| 0 <= a < b < self@.len() implies self@[a].device_id
                != self@[b].device_id by {
                assert(self@[a].device_id == pre[a].device_id);
                assert(self@[b].device_id == pre[b].device_id);
            }
        }
    }

    /// Remove a device on behalf of its supplier. A leased device is
    /// kept unless `force`; the removed record is handed back so the
    /// caller can tear the tunnel down and tell the lessee.
    pub fn withdraw_device(
        &mut self,
        supplier_id: &String,
        device_id: &String,
        force: bool,
    ) -> (r: Result<Device, MarketError>)
        requires
            old(self).wf(),
        ensures
            final(self).wf(),
            match r {
                Ok(d) => withdraw_ok(old(self)@, final(self)@, device_id@, d@) && d@
                    == device_record(old(self)@, device_id@) && d@.supplier_id == supplier_id@ && (
                force || d@.lessee_id is None) && has_device(old(self)@, device_id@) && final(self)@
                    == old(self)@.remove(device_index(old(self)@, device_id@)),
                Err(MarketError::DeviceNotFound) => !has_device(old(self)@, device_id@) && final(self)@ == old(self)@,
                Err(MarketError::DeviceOwnedElsewhere) => has_device(old(self)@, device_id@)
                    && device_record(old(self)@, device_id@).supplier_id != supplier_id@ && final(self)@ == old(self)@,
                Err(MarketError::DeviceLeased) => has_device(old(self)@, device_id@)
                    && device_record(old(self)@, device_id@).supplier_id == supplier_id@ && !force
                    && !(device_record(old(self)@, device_id@).lessee_id is None) && final(self)@
                    == old(self)@,
                Err(_) => false,
            },
    {
        let found = self.find(device_id);
        match found {
            None => Err(MarketError::DeviceNotFound),
            Some(i) => {
                proof {
                    lemma_device_index_is(self@, device_id@, i as int);
                }
                if self.devices[i].supplier_id != *supplier_id {
                    return Err(MarketError::DeviceOwnedElsewhere);
                }
                if !force && self.devices[i].lessee_id.is_some() {
                    return Err(MarketError::DeviceLeased);
                }
                let ghost pre = self@;
                let d = self.devices.remove(i);
                proof {
                    assert(self@ =~= pre.remove(i as int));
                    assert forall|a: int, b: int| 0 <= a < b < self@.len() implies self@[a].device_id
                        != self@[b].device_id by {
                        let a0 = if a < i as int {
                            a
                        } else {
                            a + 1
                        };
                        let b0 = if b < i as int {
                            b
                        } else {
                            b + 1
                        };
                        assert(self@[a] == pre[a0]);
                        assert(self@[b] == pre[b0]);
                    }
                }
                Ok(d)
            },
        }
    }

    /// Remove every device of one supplier (it disconnected or
    /// stopped), handing back the removed records, leased or not.
    pub fn remove_supplier_devices(&mut self, supplier_id: &String) -> (removed: Vec<Device>)
        requires
            old(self).wf(),
        ensures
            final(self).wf(),
            device_views(removed@) == old(self)@.filter(supplied_by_pred(supplier_id@)),
            final(self)@ == old(self)@.filter(not_supplied_by_pred(supplier_id@)),
    {
        let ghost pre = self@;
        let ghost keep = not_supplied_by_pred(supplier_id@);
        let ghost take = supplied_by_pred(supplier_id@);
        let mut kept: Vec<Device> = Vec::new();
        let mut removed: Vec<Device> = Vec::new();
        let mut i: usize = 0;
        while i < self.devices.len()
            invariant
                i <= pre.len(),
                self@ == pre,
                self@.len() == self.devices@.len(),
                device_views(kept@) == pre.take(i as int).filter(keep),
                device_views(removed@) == pre.take(i as int).filter(take),
                keep == not_supplied_by_pred(supplier_id@),
                take == supplied_by_pred(supplier_id@),
            decreases pre.len() - i,
        {
            let d = self.devices[i].duplicate();
            proof {
                lemma_filter_push(pre.take(i as int), keep, pre[i as int]);
                lemma_filter_push(pre.take(i as int), take, pre[i as int]);
                assert(pre.take(i as int + 1) =~= pre.take(i as int).push(pre[i as int]));
            }
            if d.supplier_id == *supplier_id {
                let ghost r0 = device_views(removed@);
                removed.push(d);
                proof {
                    assert(device_views(removed@) =~= r0.push(pre[i as int]));
                }
            } else {
                let ghost k0 = device_views(kept@);
                kept.push(d);
                proof {
                    assert(device_views(kept@) =~= k0.push(pre[i as int]));
                }
            }
            i += 1;
        }
        proof {
            assert(pre.take(pre.len() as int) =~= pre);
        }
        self.devices = kept;
        proof {
            lemma_unique_ids_filter(pre, keep);
        }
        removed
    }

    /// The devices nobody holds, as copies.
    pub fn list_available(&self) -> (r: Vec<Device>)
        ensures
            device_views(r@) == self@.filter(available_pred()),
    {
        let ghost pred = available_pred();
        let mut out: Vec<Device> = Vec::new();
        let mut i: usize = 0;
        while i < self.devices.len()
            invariant
                i <= self@.len(),
                self@.len() == self.devices@.len(),
                device_views(out@) == self@.take(i as int).filter(pred),
                pred == available_pred(),
            decreases self@.len() - i,
        {
            proof {
                lemma_filter_push(self@.take(i as int), pred, self@[i as int]);
                assert(self@.take(i as int + 1) =~= self@.take(i as int).push(self@[i as int]));
            }
            if self.devices[i].lessee_id.is_none() {
                let ghost o0 = device_views(out@);
                out.push(self.devices[i].duplicate());
                proof {
                    assert(device_views(out@) =~= o0.push(self@[i as int]));
                }
            }
            i += 1;
        }
        proof {
            assert(self@.take(self@.len() as int) =~= self@);
        }
        out
    }

    /// The devices passing every filter in the list, as copies. An
    /// empty result is an answer, not an error.
    pub fn list_by_filter(&self, fv: &DeviceFilterVec) -> (r: Vec<Device>)
        ensures
            device_views(r@) == self@.filter(filtered_pred(filter_views(fv.filters@))),
    {
        let ghost pred = filtered_pred(filter_views(fv.filters@));
        let mut out: Vec<Device> = Vec::new();
        let mut i: usize = 0;
        while i < self.devices.len()
            invariant
                i <= self@.len(),
                self@.len() == self.devices@.len(),
                device_views(out@) == self@.take(i as int).filter(pred),
                pred == filtered_pred(filter_views(fv.filters@)),
            decreases self@.len() - i,
        {
            proof {
                lemma_filter_push(self@.take(i as int), pred, self@[i as int]);
                assert(self@.take(i as int + 1) =~= self@.take(i as int).push(self@[i as int]));
            }
            if device_matches(&self.devices[i], fv) {
                let ghost o0 = device_views(out@);
                out.push(self.devices[i].duplicate());
                proof {
                    assert(device_views(out@) =~= o0.push(self@[i as int]));
                }
            }
            i += 1;
        }
        proof {
            assert(self@.take(self@.len() as int) =~= self@);
        }
        out
    }

    /// How many devices are registered.
    pub fn len(&self) -> (n: usize)
        ensures
            n == self@.len(),
    {
        self.devices.len()
    }
}

/// Keep the devices of this supplier.
pub open spec fn supplied_by_pred(supplier: Seq<char>) -> spec_fn(DeviceView) -> bool {
    |dv: DeviceView| dv.supplier_id == supplier
}

/// Keep the devices of every other supplier.
pub open spec fn not_supplied_by_pred(supplier: Seq<char>) -> spec_fn(DeviceView) -> bool {
    |dv: DeviceView| dv.supplier_id != supplier
}

/// At most one reservation succeeds while a device is held: after one
/// consumer's reservation went through, no reservation of the same
/// device can succeed until it is released, whoever asks.
pub proof fn lemma_at_most_one_lease(
    pre: Seq<DeviceView>,
    mid: Seq<DeviceView>,
    id: Seq<char>,
    c1: Seq<char>,
    p1: u16,
)
    requires
        unique_ids(pre),
        reserve_ok(pre, mid, id, c1, p1),
    ensures
        forall|post: Seq<DeviceView>, c2: Seq<char>, p2: u16|
            !(#[trigger] reserve_ok(mid, post, id, c2, p2)),
{
    let i = choose|i: int|
        0 <= i < pre.len() && (#[trigger] pre[i]).device_id == id && pre[i].lessee_id is None && mid
            == pre.update(i, leased_to(pre[i], c1, p1));
    assert forall|post: Seq<DeviceView>, c2: Seq<char>, p2: u16|
        !(#[trigger] reserve_ok(mid, post, id, c2, p2)) by {
        if reserve_ok(mid, post, id, c2, p2) {
            let j = choose|j: int|
                0 <= j < mid.len() && (#[trigger] mid[j]).device_id == id
                    && mid[j].lessee_id is None && post == mid.update(
                    j,
                    leased_to(mid[j], c2, p2),
                );
            if i != j {
                assert(mid[i].device_id == pre[i].device_id);
                assert(mid[j].device_id == pre[j].device_id);
            }
        }
    }
}

/// A release by anyone but the holder never succeeds: the transition
/// relation is empty unless the caller holds the lease.
pub proof fn lemma_release_requires_holder(s: Seq<DeviceView>, id: Seq<char>, c: Seq<char>)
    requires
        unique_ids(s),
        has_device(s, id),
        device_record(s, id).lessee_id != Some(c),
    ensures
        forall|post: Seq<DeviceView>| !(#[trigger] release_ok(s, post, id, c)),
{
    assert forall|post: Seq<DeviceView>| !(#[trigger] release_ok(s, post, id, c)) by {
        if release_ok(s, post, id, c) {
            let i = choose|i: int|
                0 <= i < s.len() && (#[trigger] s[i]).device_id == id && s[i].lessee_id == Some(c)
                    && post == s.update(i, unleased(s[i]));
            lemma_device_index_is(s, id, i);
        }
    }
}

/// Filtering keeps ids unique.
pub proof fn lemma_unique_ids_filter(s: Seq<DeviceView>, pred: spec_fn(DeviceView) -> bool)
    requires
        unique_ids(s),
    ensures
        unique_ids(s.filter(pred)),
    decreases s.len(),
{
    reveal(Seq::filter);
    if s.len() > 0 {
        lemma_unique_ids_filter(s.drop_last(), pred);
        let f = s.filter(pred);
        let fd = s.drop_last().filter(pred);
        if pred(s.last()) {
            assert(f == fd.push(s.last()));
            lemma_filter_elems(s.drop_last(), pred);
            assert forall|a: int, b: int| 0 <= a < b < f.len() implies f[a].device_id
                != f[b].device_id by {
                if b == f.len() - 1 {
                    assert(fd.contains(fd[a]));
                    assert(s.drop_last().contains(fd[a]));
                    let k = choose|k: int|
                        0 <= k < s.drop_last().len() && s.drop_last()[k] == fd[a];
                    assert(s[k] == fd[a]);
                    assert(s[s.len() - 1] == s.last());
                }
            }
        }
    }
}

} // verus!
