//! Devices as reported to the orchestrator.

use vstd::prelude::*;
use vstd::set_lib::lemma_subset_equality;
use vstd::std_specs::cmp::PartialEqSpecImpl;

verus! {

/// The keys of `entries`, in order.
pub open spec fn keys_of(entries: Seq<(String, String)>) -> Seq<Seq<char>> {
    entries.map_values(|e: (String, String)| e.0@)
}

/// No key occurs twice in `entries`.
pub open spec fn distinct_keys(entries: Seq<(String, String)>) -> bool {
    forall|i: int, j: int|
        0 <= i < j < entries.len() ==> (#[trigger] entries[i]).0@ != (#[trigger] entries[j]).0@
}

/// The mapping that a list of pairs stands for: each key to the value of the
/// last pair that carries it.
pub open spec fn map_of(entries: Seq<(String, String)>) -> Map<Seq<char>, Seq<char>>
    decreases entries.len(),
{
    if entries.len() == 0 {
        Map::empty()
    } else {
        map_of(entries.drop_last()).insert(entries.last().0@, entries.last().1@)
    }
}

/// The names of the mapping are the names of the pairs.
pub proof fn lemma_map_of_dom(entries: Seq<(String, String)>)
    ensures
        forall|k: Seq<char>|
            map_of(entries).dom().contains(k) <==> exists|i: int|
                0 <= i < entries.len() && (#[trigger] entries[i]).0@ == k,
    decreases entries.len(),
{
    if entries.len() > 0 {
        let front = entries.drop_last();
        let last = entries.last();
        lemma_map_of_dom(front);
        assert(map_of(entries) == map_of(front).insert(last.0@, last.1@));
        assert forall|k: Seq<char>|
            map_of(entries).dom().contains(k) <==> exists|i: int|
                0 <= i < entries.len() && (#[trigger] entries[i]).0@ == k by {
            if map_of(entries).dom().contains(k) {
                if k == last.0@ {
                    assert(entries[entries.len() - 1].0@ == k);
                } else {
                    assert(map_of(front).dom().contains(k));
                    let i = choose|i: int| 0 <= i < front.len() && (#[trigger] front[i]).0@ == k;
                    assert(entries[i].0@ == k);
                }
            }
            if exists|i: int| 0 <= i < entries.len() && (#[trigger] entries[i]).0@ == k {
                let i = choose|i: int| 0 <= i < entries.len() && (#[trigger] entries[i]).0@ == k;
                if i < front.len() {
                    assert(front[i].0@ == k);
                    assert(map_of(front).dom().contains(k));
                }
            }
        }
    }
}

/// Where no name occurs twice, each pair gives the value under its name.
pub proof fn lemma_map_of_index(entries: Seq<(String, String)>, i: int)
    requires
        distinct_keys(entries),
        0 <= i < entries.len(),
    ensures
        map_of(entries).dom().contains(entries[i].0@),
        map_of(entries)[entries[i].0@] == entries[i].1@,
    decreases entries.len(),
{
    let front = entries.drop_last();
    if i < entries.len() - 1 {
        assert(distinct_keys(front)) by {
            assert forall|a: int, b: int| 0 <= a < b < front.len() implies (#[trigger] front[a]).0@
                != (#[trigger] front[b]).0@ by {
                assert(entries[a].0@ != entries[b].0@);
            }
        }
        lemma_map_of_index(front, i);
        assert(front[i] == entries[i]);
        assert(entries[i].0@ != entries[entries.len() - 1].0@);
    }
}

/// String properties of a device: a finite mapping from names to values.
#[derive(Debug)]
pub struct Properties {
    entries: Vec<(String, String)>,
}

impl View for Properties {
    type V = Map<Seq<char>, Seq<char>>;

    closed spec fn view(&self) -> Map<Seq<char>, Seq<char>> {
        map_of(self.entries@)
    }
}

impl Properties {
    #[verifier::type_invariant]
    spec fn wf(&self) -> bool {
        distinct_keys(self.entries@)
    }

    /// A mapping without properties.
    pub fn new() -> (props: Properties)
        ensures
            props@ == Map::<Seq<char>, Seq<char>>::empty(),
    {
        Properties { entries: Vec::new() }
    }

    /// The number of properties.
    pub fn len(&self) -> (n: usize)
        ensures
            self@.dom().finite(),
            n == self@.dom().len(),
    {
        proof {
            use_type_invariant(self);
            lemma_dom_len(self.entries@);
        }
        self.entries.len()
    }

    fn position(&self, key: &str) -> (found: Option<usize>)
        ensures
            match found {
                Some(i) => i < self.entries@.len() && self.entries@[i as int].0@ == key@,
                None => !self@.dom().contains(key@),
            },
    {
        let mut i: usize = 0;
        while i < self.entries.len()
            invariant
                i <= self.entries@.len(),
                forall|j: int| 0 <= j < i ==> (#[trigger] self.entries@[j]).0@ != key@,
            decreases self.entries@.len() - i,
        {
            if same_text(self.entries[i].0.as_str(), key) {
                return Some(i);
            }
            i = i + 1;
        }
        proof {
            lemma_map_of_dom(self.entries@);
        }
        None
    }

    /// The value held under `key`, if any.
    pub fn get(&self, key: &str) -> (value: Option<&String>)
        ensures
            match value {
                Some(v) => self@.dom().contains(key@) && self@[key@] == v@,
                None => !self@.dom().contains(key@),
            },
    {
        match self.position(key) {
            Some(i) => {
                proof {
                    use_type_invariant(self);
                    lemma_map_of_index(self.entries@, i as int);
                }
                Some(&self.entries[i].1)
            },
            None => None,
        }
    }

    /// Puts `value` under `key`, in place of what was held there.
    pub fn insert(&mut self, key: String, value: String)
        ensures
            final(self)@ == old(self)@.insert(key@, value@),
    {
        let found = self.position(key.as_str());
        let mut held = Properties::new();
        core::mem::swap(self, &mut held);
        proof {
            use_type_invariant(&held);
        }
        let mut entries = held.entries;
        let ghost before = entries@;
        match found {
            Some(i) => {
                entries.set(i, (key, value));
                proof {
                    lemma_update_entry(before, i as int, entries@[i as int]);
                }
            },
            None => {
                entries.push((key, value));
                proof {
                    lemma_map_of_dom(before);
                    assert(entries@.drop_last() == before);
                }
            },
        }
        *self = Properties { entries };
    }

    /// The names and values held, each name once, in no particular order.
    pub fn entries(&self) -> (pairs: &Vec<(String, String)>)
        ensures
            distinct_keys(pairs@),
            map_of(pairs@) == self@,
    {
        proof {
            use_type_invariant(self);
        }
        &self.entries
    }
}

impl Clone for Properties {
    fn clone(&self) -> (copy: Properties)
        ensures
            copy@ == self@,
    {
        proof {
            use_type_invariant(self);
        }
        let mut entries: Vec<(String, String)> = Vec::new();
        let mut i: usize = 0;
        while i < self.entries.len()
            invariant
                i <= self.entries@.len(),
                entries@ == self.entries@.take(i as int),
            decreases self.entries@.len() - i,
        {
            entries.push((self.entries[i].0.clone(), self.entries[i].1.clone()));
            assert(entries@ =~= self.entries@.take(i + 1));
            i = i + 1;
        }
        assert(entries@ == self.entries@);
        Properties { entries }
    }
}

impl PartialEq for Properties {
    fn eq(&self, other: &Properties) -> (same: bool) {
        proof {
            use_type_invariant(self);
            use_type_invariant(other);
            lemma_dom_len(self.entries@);
            lemma_dom_len(other.entries@);
            lemma_map_of_dom(self.entries@);
        }
        let n = self.entries.len();
        if n != other.entries.len() {
            return false;
        }
        let mut i: usize = 0;
        while i < n
            invariant
                n == self.entries@.len(),
                i <= n,
                distinct_keys(self.entries@),
                forall|j: int|
                    0 <= j < i ==> other@.dom().contains((#[trigger] self.entries@[j]).0@)
                        && other@[self.entries@[j].0@] == self.entries@[j].1@,
            decreases n - i,
        {
            proof {
                lemma_map_of_index(self.entries@, i as int);
            }
            match other.get(self.entries[i].0.as_str()) {
                Some(value) => {
                    if !same_text(value.as_str(), self.entries[i].1.as_str()) {
                        return false;
                    }
                },
                None => {
                    return false;
                },
            }
            i = i + 1;
        }
        proof {
            assert forall|k: Seq<char>| self@.dom().contains(k) implies other@.dom().contains(k)
                && other@[k] == self@[k] by {
                let j = choose|j: int|
                    0 <= j < self.entries@.len() && (#[trigger] self.entries@[j]).0@ == k;
                lemma_map_of_index(self.entries@, j);
            }
            assert(self@.dom().subset_of(other@.dom()));
            lemma_subset_equality(self@.dom(), other@.dom());
            assert(self@ =~= other@);
        }
        true
    }
}

impl PartialEqSpecImpl for Properties {
    open spec fn obeys_eq_spec() -> bool {
        true
    }

    open spec fn eq_spec(&self, other: &Properties) -> bool {
        self@ == other@
    }
}

/// Compares two texts character by character.
pub fn same_text(a: &str, b: &str) -> (same: bool)
    ensures
        same == (a@ == b@),
{
    let n = a.unicode_len();
    if n != b.unicode_len() {
        return false;
    }
    let mut i: usize = 0;
    while i < n
        invariant
            n == a@.len(),
            n == b@.len(),
            i <= n,
            forall|j: int| 0 <= j < i ==> a@[j] == b@[j],
        decreases n - i,
    {
        if a.get_char(i) != b.get_char(i) {
            return false;
        }
        i = i + 1;
    }
    assert(a@ =~= b@);
    true
}

proof fn lemma_update_entry(entries: Seq<(String, String)>, i: int, pair: (String, String))
    requires
        distinct_keys(entries),
        0 <= i < entries.len(),
        pair.0@ == entries[i].0@,
    ensures
        distinct_keys(entries.update(i, pair)),
        map_of(entries.update(i, pair)) == map_of(entries).insert(pair.0@, pair.1@),
{
    let updated = entries.update(i, pair);
    assert(distinct_keys(updated)) by {
        assert forall|a: int, b: int| 0 <= a < b < updated.len() implies (#[trigger] updated[a]).0@
            != (#[trigger] updated[b]).0@ by {
            assert(entries[a].0@ != entries[b].0@);
        }
    }
    lemma_map_of_dom(entries);
    lemma_map_of_dom(updated);
    let target = map_of(entries).insert(pair.0@, pair.1@);
    assert forall|k: Seq<char>| map_of(updated).dom().contains(k) <==> target.dom().contains(
        k,
    ) by {
        if map_of(updated).dom().contains(k) {
            let j = choose|j: int| 0 <= j < updated.len() && (#[trigger] updated[j]).0@ == k;
            assert(entries[j].0@ == k);
        }
        if target.dom().contains(k) {
            if k == pair.0@ {
                assert(updated[i].0@ == k);
            } else {
                let j = choose|j: int| 0 <= j < entries.len() && (#[trigger] entries[j]).0@ == k;
                assert(updated[j].0@ == k);
            }
        }
    }
    assert forall|k: Seq<char>| map_of(updated).dom().contains(k) implies map_of(updated)[k]
        == target[k] by {
        let j = choose|j: int| 0 <= j < updated.len() && (#[trigger] updated[j]).0@ == k;
        lemma_map_of_index(updated, j);
        if j != i {
            lemma_map_of_index(entries, j);
        }
    }
    assert(map_of(updated) =~= target);
}

proof fn lemma_dom_len(entries: Seq<(String, String)>)
    requires
        distinct_keys(entries),
    ensures
        map_of(entries).dom().finite(),
        map_of(entries).dom().len() == entries.len(),
    decreases entries.len(),
{
    if entries.len() > 0 {
        let front = entries.drop_last();
        assert(distinct_keys(front)) by {
            assert forall|a: int, b: int| 0 <= a < b < front.len() implies (#[trigger] front[a]).0@
                != (#[trigger] front[b]).0@ by {
                assert(entries[a].0@ != entries[b].0@);
            }
        }
        lemma_dom_len(front);
        lemma_map_of_dom(front);
        assert(!map_of(front).dom().contains(entries.last().0@)) by {
            if map_of(front).dom().contains(entries.last().0@) {
                let j = choose|j: int|
                    0 <= j < front.len() && (#[trigger] front[j]).0@ == entries.last().0@;
                assert(entries[j].0@ != entries[entries.len() - 1].0@);
            }
        }
    }
}

/// A host volume to mount into a container; passed through unread.
#[derive(Debug)]
pub struct Mount {
    pub container_path: String,
    pub host_path: String,
    pub read_only: bool,
}

/// What a mount holds.
pub struct MountView {
    pub container_path: Seq<char>,
    pub host_path: Seq<char>,
    pub read_only: bool,
}

impl View for Mount {
    type V = MountView;

    open spec fn view(&self) -> MountView {
        MountView {
            container_path: self.container_path@,
            host_path: self.host_path@,
            read_only: self.read_only,
        }
    }
}

impl Clone for Mount {
    fn clone(&self) -> (copy: Mount)
        ensures
            copy@ == self@,
    {
        Mount {
            container_path: self.container_path.clone(),
            host_path: self.host_path.clone(),
            read_only: self.read_only,
        }
    }
}

impl PartialEq for Mount {
    fn eq(&self, other: &Mount) -> (same: bool) {
        same_text(self.container_path.as_str(), other.container_path.as_str()) && same_text(
            self.host_path.as_str(),
            other.host_path.as_str(),
        ) && self.read_only == other.read_only
    }
}

impl PartialEqSpecImpl for Mount {
    open spec fn obeys_eq_spec() -> bool {
        true
    }

    open spec fn eq_spec(&self, other: &Mount) -> bool {
        self@ == other@
    }
}

/// A host device to mount into a container; passed through unread.
#[derive(Debug)]
pub struct DeviceSpec {
    pub container_path: String,
    pub host_path: String,
    pub permissions: String,
}

/// What a device specification holds.
pub struct DeviceSpecView {
    pub container_path: Seq<char>,
    pub host_path: Seq<char>,
    pub permissions: Seq<char>,
}

impl View for DeviceSpec {
    type V = DeviceSpecView;

    open spec fn view(&self) -> DeviceSpecView {
        DeviceSpecView {
            container_path: self.container_path@,
            host_path: self.host_path@,
            permissions: self.permissions@,
        }
    }
}

impl Clone for DeviceSpec {
    fn clone(&self) -> (copy: DeviceSpec)
        ensures
            copy@ == self@,
    {
        DeviceSpec {
            container_path: self.container_path.clone(),
            host_path: self.host_path.clone(),
            permissions: self.permissions.clone(),
        }
    }
}

impl PartialEq for DeviceSpec {
    fn eq(&self, other: &DeviceSpec) -> (same: bool) {
        same_text(self.container_path.as_str(), other.container_path.as_str()) && same_text(
            self.host_path.as_str(),
            other.host_path.as_str(),
        ) && same_text(self.permissions.as_str(), other.permissions.as_str())
    }
}

impl PartialEqSpecImpl for DeviceSpec {
    open spec fn obeys_eq_spec() -> bool {
        true
    }

    open spec fn eq_spec(&self, other: &DeviceSpec) -> bool {
        self@ == other@
    }
}

/// One discovered device.
#[derive(Debug)]
pub struct Device {
    /// Identifier, unique within one response.
    pub id: String,
    /// What identifies the device and where to find it.
    pub properties: Properties,
    pub mounts: Vec<Mount>,
    pub device_specs: Vec<DeviceSpec>,
}

/// What a device holds.
pub struct DeviceView {
    pub id: Seq<char>,
    pub properties: Map<Seq<char>, Seq<char>>,
    pub mounts: Seq<MountView>,
    pub device_specs: Seq<DeviceSpecView>,
}

impl View for Device {
    type V = DeviceView;

    open spec fn view(&self) -> DeviceView {
        DeviceView {
            id: self.id@,
            properties: self.properties@,
            mounts: mount_views(self.mounts@),
            device_specs: device_spec_views(self.device_specs@),
        }
    }
}

/// The views of a list of mounts, in order.
pub open spec fn mount_views(mounts: Seq<Mount>) -> Seq<MountView> {
    mounts.map_values(|m: Mount| m@)
}

/// The views of a list of device specifications, in order.
pub open spec fn device_spec_views(specs: Seq<DeviceSpec>) -> Seq<DeviceSpecView> {
    specs.map_values(|d: DeviceSpec| d@)
}

/// The views of a list of devices, in order.
pub open spec fn device_views(devices: Seq<Device>) -> Seq<DeviceView> {
    devices.map_values(|d: Device| d@)
}

impl Clone for Device {
    fn clone(&self) -> (copy: Device)
        ensures
            copy@ == self@,
    {
        let mut mounts: Vec<Mount> = Vec::new();
        let mut i: usize = 0;
        while i < self.mounts.len()
            invariant
                i <= self.mounts@.len(),
                mounts@.len() == i,
                forall|j: int| 0 <= j < i ==> (#[trigger] mounts@[j])@ == self.mounts@[j]@,
            decreases self.mounts@.len() - i,
        {
            mounts.push(self.mounts[i].clone());
            i = i + 1;
        }
        let mut device_specs: Vec<DeviceSpec> = Vec::new();
        let mut k: usize = 0;
        while k < self.device_specs.len()
            invariant
                k <= self.device_specs@.len(),
                device_specs@.len() == k,
                forall|j: int|
                    0 <= j < k ==> (#[trigger] device_specs@[j])@ == self.device_specs@[j]@,
            decreases self.device_specs@.len() - k,
        {
            device_specs.push(self.device_specs[k].clone());
            k = k + 1;
        }
        let copy = Device {
            id: self.id.clone(),
            properties: self.properties.clone(),
            mounts,
            device_specs,
        };
        assert(copy@.mounts =~= self@.mounts);
        assert(copy@.device_specs =~= self@.device_specs);
        copy
    }
}

impl PartialEq for Device {
    fn eq(&self, other: &Device) -> (same: bool) {
        if !same_text(self.id.as_str(), other.id.as_str()) {
            return false;
        }
        if !(self.properties == other.properties) {
            return false;
        }
        if self.mounts.len() != other.mounts.len() {
            assert(self@.mounts.len() != other@.mounts.len());
            return false;
        }
        let mut i: usize = 0;
        while i < self.mounts.len()
            invariant
                i <= self.mounts@.len(),
                self.mounts@.len() == other.mounts@.len(),
                forall|j: int| 0 <= j < i ==> (#[trigger] self.mounts@[j])@ == other.mounts@[j]@,
            decreases self.mounts@.len() - i,
        {
            if !(self.mounts[i] == other.mounts[i]) {
                assert(self@.mounts[i as int] != other@.mounts[i as int]);
                return false;
            }
            i = i + 1;
        }
        if self.device_specs.len() != other.device_specs.len() {
            assert(self@.device_specs.len() != other@.device_specs.len());
            return false;
        }
        let mut k: usize = 0;
        while k < self.device_specs.len()
            invariant
                k <= self.device_specs@.len(),
                self.device_specs@.len() == other.device_specs@.len(),
                forall|j: int|
                    0 <= j < k ==> (#[trigger] self.device_specs@[j])@ == other.device_specs@[j]@,
            decreases self.device_specs@.len() - k,
        {
            if !(self.device_specs[k] == other.device_specs[k]) {
                assert(self@.device_specs[k as int] != other@.device_specs[k as int]);
                return false;
            }
            k = k + 1;
        }
        assert(self@.mounts =~= other@.mounts);
        assert(self@.device_specs =~= other@.device_specs);
        true
    }
}

impl PartialEqSpecImpl for Device {
    open spec fn obeys_eq_spec() -> bool {
        true
    }

    open spec fn eq_spec(&self, other: &Device) -> bool {
        self@ == other@
    }
}

} // verus!
