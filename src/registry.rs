//! The registry of tracked peripherals, keyed by peripheral id, with its
//! snapshot ordered by discovery time.
use crate::device::{DeviceView, TrezorDevice};
use crate::text::{lemma_lex_total, lemma_lex_transitive, lex_le, text_le};
use dashmap::DashMap;
use vstd::prelude::*;

verus! {

broadcast use vstd::seq_lib::group_to_multiset_ensures;

#[verifier::external_type_specification]
#[verifier::external_body]
#[verifier::reject_recursive_types(K)]
#[verifier::reject_recursive_types(V)]
#[verifier::reject_recursive_types(S)]
pub struct ExDashMap<K, V, S>(DashMap<K, V, S>);

/// What a map of device records holds, by key.
pub uninterp spec fn dashmap_contents(m: DashMap<String, TrezorDevice>) -> Map<Seq<char>, DeviceView>;

/// Relies on `DashMap::new`: a map with no entries.
#[verifier::external_body]
fn dashmap_new() -> (r: DashMap<String, TrezorDevice>)
    ensures
        dashmap_contents(r).dom() == Set::<Seq<char>>::empty(),
{
    DashMap::new()
}

/// Relies on `DashMap::insert`: the key maps to the value afterwards, and
/// every other entry stays as it was.
#[verifier::external_body]
fn dashmap_insert(m: &mut DashMap<String, TrezorDevice>, key: String, value: TrezorDevice)
    ensures
        dashmap_contents(*final(m)) == dashmap_contents(*old(m)).insert(key@, value@),
{
    m.insert(key, value);
}

/// Relies on `DashMap::get`: the value stored under the key, if any (copied
/// out of the guard).
#[verifier::external_body]
fn dashmap_get(m: &DashMap<String, TrezorDevice>, key: &str) -> (r: Option<TrezorDevice>)
    ensures
        match r {
            Some(d) => dashmap_contents(*m).contains_key(key@) && d@ == dashmap_contents(*m)[key@],
            None => !dashmap_contents(*m).contains_key(key@),
        },
{
    m.get(key).map(|e| e.value().duplicate())
}

/// Relies on `DashMap::iter`: each entry exactly once, in no promised order
/// (copied out of the guards).
#[verifier::external_body]
fn dashmap_entries(m: &DashMap<String, TrezorDevice>) -> (r: Vec<(String, TrezorDevice)>)
    ensures
        forall|i: int|
            0 <= i < r@.len() ==> dashmap_contents(*m).contains_key(#[trigger] r@[i].0@)
                && r@[i].1@ == dashmap_contents(*m)[r@[i].0@],
        forall|i: int, j: int| 0 <= i < j < r@.len() ==> r@[i].0@ != r@[j].0@,
        forall|k: Seq<char>|
            dashmap_contents(*m).contains_key(k) ==> exists|i: int|
                0 <= i < r@.len() && #[trigger] r@[i].0@ == k,
{
    m.iter().map(|e| entry_copy(e.key(), e.value())).collect()
}

/// A copy of one entry.
fn entry_copy(k: &String, v: &TrezorDevice) -> (r: (String, TrezorDevice))
    ensures
        r.0@ == k@,
        r.1@ == v@,
{
    (k.clone(), v.duplicate())
}

/// `a` comes no later than `b`: earlier discovery first, ties by id.
pub open spec fn device_le(a: DeviceView, b: DeviceView) -> bool {
    a.timestamp < b.timestamp || (a.timestamp == b.timestamp && lex_le(a.uuid, b.uuid))
}

pub open spec fn sorted_by_discovery(s: Seq<DeviceView>) -> bool {
    forall|i: int, j: int| 0 <= i < j < s.len() ==> device_le(#[trigger] s[i], #[trigger] s[j])
}

/// The values of a vector of records.
pub open spec fn views(v: Seq<TrezorDevice>) -> Seq<DeviceView> {
    v.map_values(|d: TrezorDevice| d@)
}

/// `s` lists every record of `m` once, ordered by discovery.
pub open spec fn is_snapshot(s: Seq<DeviceView>, m: Map<Seq<char>, DeviceView>) -> bool {
    &&& forall|i: int| 0 <= i < s.len() ==> m.contains_key(#[trigger] s[i].uuid) && m[s[i].uuid] == s[i]
    &&& forall|k: Seq<char>| m.contains_key(k) ==> exists|i: int| 0 <= i < s.len() && #[trigger] s[i].uuid == k
    &&& s.no_duplicates()
    &&& sorted_by_discovery(s)
}

/// A snapshot taken after a device was recorded lists that device, and
/// lists the devices by discovery time.
pub proof fn lemma_snapshot_lists(s: Seq<DeviceView>, m: Map<Seq<char>, DeviceView>, uuid: Seq<char>)
    requires
        is_snapshot(s, m),
        m.contains_key(uuid),
    ensures
        exists|i: int| 0 <= i < s.len() && s[i].uuid == uuid && s[i] == m[uuid],
        forall|i: int, j: int| 0 <= i < j < s.len() ==> #[trigger] s[i].timestamp <= #[trigger] s[j].timestamp,
{
    let i = choose|i: int| 0 <= i < s.len() && #[trigger] s[i].uuid == uuid;
    assert(m[s[i].uuid] == s[i]);
    assert forall|i: int, j: int| 0 <= i < j < s.len() implies #[trigger] s[i].timestamp <= #[trigger] s[j].timestamp by {
        assert(device_le(s[i], s[j]));
    }
}

proof fn lemma_device_le_total(a: DeviceView, b: DeviceView)
    ensures
        device_le(a, b) || device_le(b, a),
{
    lemma_lex_total(a.uuid, b.uuid);
}

proof fn lemma_device_le_transitive(a: DeviceView, b: DeviceView, c: DeviceView)
    requires
        device_le(a, b),
        device_le(b, c),
    ensures
        device_le(a, c),
{
    if a.timestamp == b.timestamp && b.timestamp == c.timestamp {
        lemma_lex_transitive(a.uuid, b.uuid, c.uuid);
    }
}

/// Whether `a` comes no later than `b`.
fn device_before(a: &TrezorDevice, b: &TrezorDevice) -> (r: bool)
    ensures
        r == device_le(a@, b@),
{
    a.timestamp < b.timestamp || (a.timestamp == b.timestamp && text_le(a.uuid.as_str(), b.uuid.as_str()))
}

/// Thread-safe map from peripheral id to device record.
pub struct DeviceRegistry {
    devices: DashMap<String, TrezorDevice>,
}

impl View for DeviceRegistry {
    type V = Map<Seq<char>, DeviceView>;

    closed spec fn view(&self) -> Map<Seq<char>, DeviceView> {
        dashmap_contents(self.devices)
    }
}

impl DeviceRegistry {
    /// Finitely many records, each stored under its own id and well formed.
    pub open spec fn well_formed(&self) -> bool {
        &&& self@.dom().finite()
        &&& forall|k: Seq<char>| #[trigger] self@.contains_key(k) ==> self@[k].uuid == k && self@[k].well_formed()
    }

    pub fn new() -> (r: DeviceRegistry)
        ensures
            r.well_formed(),
            r@.dom() == Set::<Seq<char>>::empty(),
    {
        DeviceRegistry { devices: dashmap_new() }
    }

    /// Stores the record under its id, replacing any earlier one.
    pub fn insert(&mut self, device: TrezorDevice)
        requires
            old(self).well_formed(),
            device.well_formed(),
        ensures
            final(self).well_formed(),
            final(self)@ == old(self)@.insert(device@.uuid, device@),
    {
        let key = device.uuid.clone();
        dashmap_insert(&mut self.devices, key, device);
    }

    /// A copy of the record with this id.
    pub fn get(&self, uuid: &str) -> (r: Option<TrezorDevice>)
        ensures
            match r {
                Some(d) => self@.contains_key(uuid@) && d@ == self@[uuid@],
                None => !self@.contains_key(uuid@),
            },
    {
        dashmap_get(&self.devices, uuid)
    }

    /// Every record once, ordered by discovery time, ties by id.
    pub fn list(&self) -> (r: Vec<TrezorDevice>)
        requires
            self.well_formed(),
        ensures
            is_snapshot(views(r@), self@),
    {
        let entries = dashmap_entries(&self.devices);
        let ghost m = self@;
        let ghost vals = entries@.map_values(|p: (String, TrezorDevice)| p.1@);
        let mut out: Vec<TrezorDevice> = Vec::new();
        let mut k: usize = 0;
        while k < entries.len()
            invariant
                k <= entries@.len(),
                vals == entries@.map_values(|p: (String, TrezorDevice)| p.1@),
                views(out@).to_multiset() == vals.subrange(0, k as int).to_multiset(),
                sorted_by_discovery(views(out@)),
            decreases entries@.len() - k,
        {
            let x = entries[k].1.duplicate();
            let mut p: usize = 0;
            while p < out.len() && device_before(&out[p], &x)
                invariant
                    p <= out@.len(),
                    forall|q: int| 0 <= q < p ==> device_le(#[trigger] out@[q]@, x@),
                decreases out@.len() - p,
            {
                p = p + 1;
            }
            proof {
                if p < out@.len() {
                    lemma_device_le_total(out@[p as int]@, x@);
                }
            }
            let ghost before = views(out@);
            out.insert(p, x);
            proof {
                assert(views(out@) =~= before.insert(p as int, x@));
                assert(vals.subrange(0, k + 1) =~= vals.subrange(0, k as int).push(x@));
                assert forall|i: int, j: int| 0 <= i < j < views(out@).len() implies device_le(
                    #[trigger] views(out@)[i],
                    #[trigger] views(out@)[j],
                ) by {
                    if i < p && j == p {
                    } else if i == p && j > p {
                        if j - 1 > p {
                            lemma_device_le_transitive(x@, before[p as int], before[j - 1]);
                        }
                    } else if i < p && j > p {
                    } else {
                    }
                }
            }
            k = k + 1;
        }
        proof {
            assert(vals.subrange(0, entries@.len() as int) =~= vals);
            self.lemma_snapshot_of_entries(entries@, vals, views(out@));
        }
        out
    }

    proof fn lemma_snapshot_of_entries(
        &self,
        e: Seq<(String, TrezorDevice)>,
        vals: Seq<DeviceView>,
        s: Seq<DeviceView>,
    )
        requires
            self.well_formed(),
            vals == e.map_values(|p: (String, TrezorDevice)| p.1@),
            s.to_multiset() == vals.to_multiset(),
            sorted_by_discovery(s),
            forall|i: int| 0 <= i < e.len() ==> self@.contains_key(#[trigger] e[i].0@) && e[i].1@ == self@[e[i].0@],
            forall|i: int, j: int| 0 <= i < j < e.len() ==> e[i].0@ != e[j].0@,
            forall|k: Seq<char>| self@.contains_key(k) ==> exists|i: int| 0 <= i < e.len() && #[trigger] e[i].0@ == k,
        ensures
            is_snapshot(s, self@),
    {
        broadcast use vstd::seq_lib::to_multiset_contains;

        assert forall|i: int| 0 <= i < s.len() implies self@.contains_key(#[trigger] s[i].uuid) && self@[s[i].uuid] == s[i] by {
            assert(s.contains(s[i]));
            assert(s.to_multiset().count(s[i]) > 0);
            assert(vals.to_multiset().count(s[i]) > 0);
            assert(vals.contains(s[i]));
            let j = choose|j: int| 0 <= j < vals.len() && vals[j] == s[i];
            assert(self@.contains_key(e[j].0@));
        }
        assert forall|k: Seq<char>| self@.contains_key(k) implies exists|i: int| 0 <= i < s.len() && #[trigger] s[i].uuid == k by {
            let j = choose|j: int| 0 <= j < e.len() && #[trigger] e[j].0@ == k;
            assert(vals[j] == self@[k]);
            assert(vals.contains(vals[j]));
            assert(vals.to_multiset().count(vals[j]) > 0);
            assert(s.to_multiset().count(vals[j]) > 0);
            assert(s.contains(vals[j]));
            let i = choose|i: int| 0 <= i < s.len() && s[i] == vals[j];
            assert(s[i].uuid == k);
        }
        assert(vals.no_duplicates()) by {
            assert forall|i: int, j: int| 0 <= i < vals.len() && 0 <= j < vals.len() && i != j implies vals[i] != vals[j] by {
                if i < j {
                    assert(e[i].0@ != e[j].0@);
                } else {
                    assert(e[j].0@ != e[i].0@);
                }
                assert(self@.contains_key(e[i].0@));
                assert(self@.contains_key(e[j].0@));
            }
        }
        vals.lemma_multiset_has_no_duplicates();
        s.lemma_multiset_has_no_duplicates_conv();
    }
}

} // verus!
