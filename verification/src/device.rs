//! The device record shared by every component, and the composable
//! filters a consumer may query the registry with.

use vstd::prelude::*;
use crate::strlist::{contains_string, is_member};

verus! {

/// Mathematical image of a [`Device`]: every string as a sequence of
/// characters.
pub ghost struct DeviceView {
    pub device_id: Seq<char>,
    pub name: Seq<char>,
    pub model: Seq<char>,
    pub supplier_id: Seq<char>,
    pub lessee_id: Option<Seq<char>>,
    pub local_port: Option<u16>,
}

/// One shared device. `device_id` is the stable hardware serial,
/// unique across the network. `lessee_id` is set exactly while the
/// device is reserved, and `local_port` exactly while a tunnel for it
/// is active.
#[derive(Debug)]
pub struct Device {
    pub device_id: String,
    pub name: String,
    pub model: String,
    pub supplier_id: String,
    pub lessee_id: Option<String>,
    pub local_port: Option<u16>,
}

impl View for Device {
    type V = DeviceView;

    open spec fn view(&self) -> DeviceView {
        DeviceView {
            device_id: self.device_id@,
            name: self.name@,
            model: self.model@,
            supplier_id: self.supplier_id@,
            lessee_id: match self.lessee_id {
                Some(l) => Some(l@),
                None => None,
            },
            local_port: self.local_port,
        }
    }
}

/// A device is available when nobody holds a lease on it.
pub open spec fn is_available(d: DeviceView) -> bool {
    d.lessee_id is None
}

/// The same device with its lease and tunnel cleared.
pub open spec fn unleased(d: DeviceView) -> DeviceView {
    DeviceView { lessee_id: None, local_port: None, ..d }
}

/// The same device leased to `consumer` with a tunnel on `port`.
pub open spec fn leased_to(d: DeviceView, consumer: Seq<char>, port: u16) -> DeviceView {
    DeviceView { lessee_id: Some(consumer), local_port: Some(port), ..d }
}

impl Device {
    /// A freshly announced device: no lessee, no tunnel.
    pub fn new(device_id: String, name: String, model: String, supplier_id: String) -> (d: Device)
        ensures
            d@ == (DeviceView {
                device_id: device_id@,
                name: name@,
                model: model@,
                supplier_id: supplier_id@,
                lessee_id: None,
                local_port: None,
            }),
    {
        Device { device_id, name, model, supplier_id, lessee_id: None, local_port: None }
    }

    /// A field-for-field copy.
    pub fn duplicate(&self) -> (d: Device)
        ensures
            d@ == self@,
    {
        Device {
            device_id: self.device_id.clone(),
            name: self.name.clone(),
            model: self.model.clone(),
            supplier_id: self.supplier_id.clone(),
            lessee_id: match &self.lessee_id {
                Some(l) => Some(l.clone()),
                None => None,
            },
            local_port: self.local_port,
        }
    }
}

/// Mathematical image of a [`DeviceFilter`].
pub ghost enum DeviceFilterView {
    IsAvailable(bool),
    DeviceIds(Seq<String>),
    DeviceNames(Seq<String>),
    DeviceModels(Seq<String>),
    SupplierNames(Seq<String>),
    ConsumerNames(Seq<String>),
}

/// One predicate on a device. A filter carrying an empty set matches
/// no device at all.
pub enum DeviceFilter {
    /// Keep available devices (`true`) or reserved ones (`false`).
    IsAvailable(bool),
    /// Keep devices whose id is in the set.
    DeviceIds(Vec<String>),
    /// Keep devices whose name is in the set.
    DeviceNames(Vec<String>),
    /// Keep devices whose model is in the set.
    DeviceModels(Vec<String>),
    /// Keep devices supplied by one of the listed peers.
    SupplierNames(Vec<String>),
    /// Keep devices reserved by one of the listed peers.
    ConsumerNames(Vec<String>),
}

impl View for DeviceFilter {
    type V = DeviceFilterView;

    open spec fn view(&self) -> DeviceFilterView {
        match self {
            DeviceFilter::IsAvailable(b) => DeviceFilterView::IsAvailable(*b),
            DeviceFilter::DeviceIds(v) => DeviceFilterView::DeviceIds(v@),
            DeviceFilter::DeviceNames(v) => DeviceFilterView::DeviceNames(v@),
            DeviceFilter::DeviceModels(v) => DeviceFilterView::DeviceModels(v@),
            DeviceFilter::SupplierNames(v) => DeviceFilterView::SupplierNames(v@),
            DeviceFilter::ConsumerNames(v) => DeviceFilterView::ConsumerNames(v@),
        }
    }
}

/// A conjunction of filters: a device passes when it passes each one.
pub struct DeviceFilterVec {
    pub filters: Vec<DeviceFilter>,
}

/// What it means for a device to pass one filter.
pub open spec fn matches_filter(d: DeviceView, f: DeviceFilterView) -> bool {
    match f {
        DeviceFilterView::IsAvailable(b) => is_available(d) == b,
        DeviceFilterView::DeviceIds(ids) => is_member(ids, d.device_id),
        DeviceFilterView::DeviceNames(names) => is_member(names, d.name),
        DeviceFilterView::DeviceModels(models) => is_member(models, d.model),
        DeviceFilterView::SupplierNames(names) => is_member(names, d.supplier_id),
        DeviceFilterView::ConsumerNames(names) => match d.lessee_id {
            Some(l) => is_member(names, l),
            None => false,
        },
    }
}

/// What it means for a device to pass a whole filter list.
pub open spec fn matches_filters(d: DeviceView, fs: Seq<DeviceFilterView>) -> bool {
    forall|k: int| 0 <= k < fs.len() ==> matches_filter(d, #[trigger] fs[k])
}

/// The views of a filter list.
pub open spec fn filter_views(s: Seq<DeviceFilter>) -> Seq<DeviceFilterView> {
    s.map_values(|f: DeviceFilter| f@)
}

/// One of the first `n` device records carries id `q`.
pub open spec fn announced_id(s: Seq<DeviceView>, n: int, q: Seq<char>) -> bool {
    exists|k: int| 0 <= k < n && (#[trigger] s[k]).device_id == q
}

/// Decide one filter against one device.
pub fn device_matches_filter(d: &Device, f: &DeviceFilter) -> (r: bool)
    ensures
        r == matches_filter(d@, f@),
{
    match f {
        DeviceFilter::IsAvailable(b) => d.lessee_id.is_none() == *b,
        DeviceFilter::DeviceIds(ids) => contains_string(ids, &d.device_id),
        DeviceFilter::DeviceNames(names) => contains_string(names, &d.name),
        DeviceFilter::DeviceModels(models) => contains_string(models, &d.model),
        DeviceFilter::SupplierNames(names) => contains_string(names, &d.supplier_id),
        DeviceFilter::ConsumerNames(names) => match &d.lessee_id {
            Some(l) => contains_string(names, l),
            None => false,
        },
    }
}

/// Decide a whole filter list against one device.
pub fn device_matches(d: &Device, fv: &DeviceFilterVec) -> (r: bool)
    ensures
        r == matches_filters(d@, filter_views(fv.filters@)),
{
    let ghost fs = filter_views(fv.filters@);
    let mut i: usize = 0;
    while i < fv.filters.len()
        invariant
            i <= fv.filters@.len(),
            fs == filter_views(fv.filters@),
            forall|k: int| 0 <= k < i ==> matches_filter(d@, #[trigger] fs[k]),
        decreases fv.filters@.len() - i,
    {
        if !device_matches_filter(d, &fv.filters[i]) {
            assert(fs[i as int] == fv.filters@[i as int]@);
            return false;
        }
        i += 1;
    }
    true
}

} // verus!
