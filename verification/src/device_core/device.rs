use vstd::prelude::*;
use vstd::string::*;

use crate::text::{clone_opt_string, str_eq};

verus! {

/// The value of the first entry for `k`.
pub open spec fn entry_value<V>(e: Seq<(String, V)>, k: Seq<char>) -> Option<V>
    decreases e.len(),
{
    if e.len() == 0 {
        None
    } else if e[0].0@ == k {
        Some(e[0].1)
    } else {
        entry_value(e.drop_first(), k)
    }
}

/// No two entries have one key.
pub open spec fn unique_keys<V>(e: Seq<(String, V)>) -> bool {
    forall|a: int, b: int| 0 <= a < e.len() && 0 <= b < e.len() && a != b ==> e[a].0@ != e[b].0@
}

proof fn lemma_entry_first<V>(e: Seq<(String, V)>, k: Seq<char>, i: int)
    requires
        0 <= i < e.len(),
        e[i].0@ == k,
        forall|j: int| 0 <= j < i ==> e[j].0@ != k,
    ensures
        entry_value(e, k) == Some(e[i].1),
    decreases i,
{
    if i > 0 {
        lemma_entry_first(e.drop_first(), k, i - 1);
    }
}

proof fn lemma_entry_absent<V>(e: Seq<(String, V)>, k: Seq<char>)
    requires
        forall|j: int| 0 <= j < e.len() ==> e[j].0@ != k,
    ensures
        entry_value(e, k) is None,
    decreases e.len(),
{
    if e.len() > 0 {
        lemma_entry_absent(e.drop_first(), k);
    }
}

proof fn lemma_entry_at<V>(e: Seq<(String, V)>, k: Seq<char>, i: int)
    requires
        unique_keys(e),
        0 <= i < e.len(),
        e[i].0@ == k,
    ensures
        entry_value(e, k) == Some(e[i].1),
{
    lemma_entry_first(e, k, i);
}

/// `entry_value` is determined by which entry holds the key.
proof fn lemma_entry_cases<V>(e: Seq<(String, V)>, k: Seq<char>)
    requires
        unique_keys(e),
    ensures
        entry_value(e, k) is Some <==> exists|i: int| 0 <= i < e.len() && e[i].0@ == k,
{
    if exists|i: int| 0 <= i < e.len() && e[i].0@ == k {
        let i = choose|i: int| 0 <= i < e.len() && e[i].0@ == k;
        lemma_entry_at(e, k, i);
    } else {
        lemma_entry_absent(e, k);
    }
}

proof fn lemma_entry_push<V>(e: Seq<(String, V)>, x: (String, V))
    requires
        unique_keys(e),
        forall|j: int| 0 <= j < e.len() ==> e[j].0@ != x.0@,
    ensures
        unique_keys(e.push(x)),
        forall|t: Seq<char>|
            #[trigger] entry_value(e.push(x), t) == if t == x.0@ {
                Some(x.1)
            } else {
                entry_value(e, t)
            },
{
    let f = e.push(x);
    assert forall|a: int, b: int|
        0 <= a < f.len() && 0 <= b < f.len() && a != b implies f[a].0@ != f[b].0@ by {}
    assert forall|t: Seq<char>|
        #[trigger] entry_value(f, t) == if t == x.0@ {
            Some(x.1)
        } else {
            entry_value(e, t)
        } by {
        if t == x.0@ {
            lemma_entry_at(f, t, e.len() as int);
        } else if exists|j: int| 0 <= j < e.len() && e[j].0@ == t {
            let j = choose|j: int| 0 <= j < e.len() && e[j].0@ == t;
            lemma_entry_at(e, t, j);
            lemma_entry_at(f, t, j);
        } else {
            lemma_entry_absent(e, t);
            lemma_entry_absent(f, t);
        }
    }
}

proof fn lemma_entry_remove<V>(e: Seq<(String, V)>, i: int)
    requires
        0 <= i < e.len(),
        unique_keys(e),
    ensures
        unique_keys(e.remove(i)),
        forall|t: Seq<char>|
            #[trigger] entry_value(e.remove(i), t) == if t == e[i].0@ {
                None
            } else {
                entry_value(e, t)
            },
{
    let f = e.remove(i);
    assert forall|a: int, b: int|
        0 <= a < f.len() && 0 <= b < f.len() && a != b implies f[a].0@ != f[b].0@ by {
        let a1 = if a < i { a } else { a + 1 };
        let b1 = if b < i { b } else { b + 1 };
        assert(f[a] == e[a1] && f[b] == e[b1]);
    }
    assert forall|t: Seq<char>|
        #[trigger] entry_value(f, t) == if t == e[i].0@ {
            None
        } else {
            entry_value(e, t)
        } by {
        if t == e[i].0@ {
            assert forall|k: int| 0 <= k < f.len() implies f[k].0@ != t by {
                if k < i {
                    assert(f[k] == e[k]);
                } else {
                    assert(f[k] == e[k + 1]);
                }
            }
            lemma_entry_absent(f, t);
        } else if exists|j: int| 0 <= j < e.len() && e[j].0@ == t {
            let j = choose|j: int| 0 <= j < e.len() && e[j].0@ == t;
            lemma_entry_at(e, t, j);
            let j1 = if j < i { j } else { j - 1 };
            assert(f[j1] == e[j]);
            lemma_entry_at(f, t, j1);
        } else {
            lemma_entry_absent(e, t);
            assert forall|k: int| 0 <= k < f.len() implies f[k].0@ != t by {
                if k < i {
                    assert(f[k] == e[k]);
                } else {
                    assert(f[k] == e[k + 1]);
                }
            }
            lemma_entry_absent(f, t);
        }
    }
}

/// A map from strings to values, kept as a list of entries with distinct keys.
#[derive(Debug)]
pub struct StringMap<V> {
    entries: Vec<(String, V)>,
}

impl<V> StringMap<V> {
    /// The value under `k`.
    pub closed spec fn lookup(&self, k: Seq<char>) -> Option<V> {
        entry_value(self.entries@, k)
    }

    /// The entries, in the order in which they are kept.
    pub closed spec fn entries(&self) -> Seq<(String, V)> {
        self.entries@
    }

    /// No key has two entries, and the entries are what `lookup` gives.
    pub closed spec fn wf(&self) -> bool {
        unique_keys(self.entries@)
    }

    /// Each entry is what `lookup` gives for its key, and each key that `lookup`
    /// knows has an entry.
    pub proof fn lemma_entries(&self)
        requires
            self.wf(),
        ensures
            unique_keys(self.entries()),
            forall|i: int|
                0 <= i < self.entries().len() ==> #[trigger] self.lookup(self.entries()[i].0@)
                    == Some(self.entries()[i].1),
            forall|k: Seq<char>|
                #[trigger] self.lookup(k) is Some ==> exists|i: int|
                    0 <= i < self.entries().len() && self.entries()[i].0@ == k,
    {
        assert forall|i: int| 0 <= i < self.entries().len() implies #[trigger] self.lookup(
            self.entries()[i].0@,
        ) == Some(self.entries()[i].1) by {
            lemma_entry_at(self.entries@, self.entries@[i].0@, i);
        }
        assert forall|k: Seq<char>| #[trigger] self.lookup(k) is Some implies exists|i: int|
            0 <= i < self.entries().len() && self.entries()[i].0@ == k by {
            lemma_entry_cases(self.entries@, k);
        }
    }

    /// An empty map.
    pub fn new() -> (m: StringMap<V>)
        ensures
            m.wf(),
            m.entries().len() == 0,
            forall|k: Seq<char>| m.lookup(k) is None,
    {
        StringMap { entries: Vec::new() }
    }

    fn find(&self, k: &str) -> (r: Option<usize>)
        requires
            self.wf(),
        ensures
            match r {
                Some(i) => i < self.entries@.len() && self.entries@[i as int].0@ == k@,
                None => forall|j: int| 0 <= j < self.entries@.len() ==> self.entries@[j].0@ != k@,
            },
    {
        let mut i: usize = 0;
        while i < self.entries.len()
            invariant
                i <= self.entries@.len(),
                forall|j: int| 0 <= j < i ==> self.entries@[j].0@ != k@,
            decreases self.entries.len() - i,
        {
            if str_eq(self.entries[i].0.as_str(), k) {
                return Some(i);
            }
            i = i + 1;
        }
        None
    }

    /// The value under `k`.
    pub fn get(&self, k: &str) -> (r: Option<&V>)
        requires
            self.wf(),
        ensures
            match r {
                Some(v) => self.lookup(k@) == Some(*v),
                None => self.lookup(k@) is None,
            },
    {
        match self.find(k) {
            Some(i) => {
                proof { lemma_entry_at(self.entries@, k@, i as int); }
                Some(&self.entries[i].1)
            },
            None => {
                proof { lemma_entry_absent(self.entries@, k@); }
                None
            },
        }
    }

    /// Takes the value under `k` out of the map.
    pub fn take(&mut self, k: &str) -> (r: Option<V>)
        requires
            old(self).wf(),
        ensures
            final(self).wf(),
            r == old(self).lookup(k@),
            forall|t: Seq<char>|
                #[trigger] final(self).lookup(t) == if t == k@ {
                    None
                } else {
                    old(self).lookup(t)
                },
    {
        match self.find(k) {
            Some(i) => {
                let ghost before = self.entries@;
                proof {
                    lemma_entry_at(before, k@, i as int);
                    lemma_entry_remove(before, i as int);
                }
                let (_, v) = self.entries.remove(i);
                Some(v)
            },
            None => {
                proof { lemma_entry_absent(self.entries@, k@); }
                None
            },
        }
    }

    /// Puts `v` under `k`, in place of any value there.
    pub fn insert(&mut self, k: String, v: V)
        requires
            old(self).wf(),
        ensures
            final(self).wf(),
            forall|t: Seq<char>|
                #[trigger] final(self).lookup(t) == if t == k@ {
                    Some(v)
                } else {
                    old(self).lookup(t)
                },
    {
        let ghost start = *self;
        let _ = self.take(k.as_str());
        let ghost mid = self.entries@;
        let ghost mid_map = *self;
        assert(mid_map.lookup(k@) is None);
        proof {
            assert forall|j: int| 0 <= j < mid.len() implies mid[j].0@ != k@ by {
                if mid[j].0@ == k@ {
                    lemma_entry_at(mid, k@, j);
                }
            }
            lemma_entry_push(mid, (k, v));
        }
        self.entries.push((k, v));
        assert forall|t: Seq<char>|
            #[trigger] self.lookup(t) == if t == k@ {
                Some(v)
            } else {
                start.lookup(t)
            } by {
            assert(mid_map.lookup(t) == entry_value(mid, t));
        }
    }
}

} // verus!

verus! {

/// A phone that the server knows of.
#[derive(Debug, Clone)]
pub struct DeviceInfo {
    pub id: String,
    pub model: Option<String>,
    pub android_version: Option<String>,
    pub connected: bool,
}

impl DeviceInfo {
    /// A copy of this device.
    pub fn duplicate(&self) -> (r: DeviceInfo)
        ensures
            r == *self,
    {
        DeviceInfo {
            id: self.id.clone(),
            model: clone_opt_string(&self.model),
            android_version: clone_opt_string(&self.android_version),
            connected: self.connected,
        }
    }
}

/// The phones the server knows of, by id.
#[derive(Debug)]
pub struct DeviceManager {
    devices: StringMap<DeviceInfo>,
}

impl DeviceManager {
    /// The phone with id `id`.
    pub closed spec fn device(&self, id: Seq<char>) -> Option<DeviceInfo> {
        self.devices.lookup(id)
    }

    /// The table of phones is consistent: each phone is kept under its own id.
    pub closed spec fn wf(&self) -> bool {
        &&& self.devices.wf()
        &&& forall|k: Seq<char>| #[trigger] self.devices.lookup(k) matches Some(d) ==> d.id@ == k
    }

    /// No phones.
    pub fn new() -> (m: DeviceManager)
        ensures
            m.wf(),
            forall|id: Seq<char>| m.device(id) is None,
    {
        DeviceManager { devices: StringMap::new() }
    }

    /// Adds a phone under its id, in place of any phone with that id.
    pub fn add_device(&mut self, device: DeviceInfo)
        requires
            old(self).wf(),
        ensures
            final(self).wf(),
            forall|id: Seq<char>|
                #[trigger] final(self).device(id) == if id == device.id@ {
                    Some(device)
                } else {
                    old(self).device(id)
                },
    {
        let key = device.id.clone();
        self.devices.insert(key, device);
    }

    /// Forgets the phone with id `device_id`.
    pub fn remove_device(&mut self, device_id: &str)
        requires
            old(self).wf(),
        ensures
            final(self).wf(),
            forall|id: Seq<char>|
                #[trigger] final(self).device(id) == if id == device_id@ {
                    None
                } else {
                    old(self).device(id)
                },
    {
        let _ = self.devices.take(device_id);
    }

    /// The phone with id `device_id`.
    pub fn get_device(&self, device_id: &str) -> (r: Option<DeviceInfo>)
        requires
            self.wf(),
        ensures
            r == self.device(device_id@),
    {
        match self.devices.get(device_id) {
            Some(d) => Some(d.duplicate()),
            None => None,
        }
    }

    /// All phones, each once.
    pub fn list_devices(&self) -> (r: Vec<DeviceInfo>)
        requires
            self.wf(),
        ensures
            forall|i: int| 0 <= i < r@.len() ==> self.device(#[trigger] r@[i].id@) == Some(r@[i]),
            forall|i: int, j: int| 0 <= i < r@.len() && 0 <= j < r@.len() && i != j ==> r@[i].id@
                != r@[j].id@,
            forall|id: Seq<char>|
                #[trigger] self.device(id) is Some ==> exists|i: int|
                    0 <= i < r@.len() && r@[i].id@ == id,
    {
        proof { self.devices.lemma_entries(); }
        let ghost es = self.devices.entries();
        let entries = &self.devices.entries;
        let mut r: Vec<DeviceInfo> = Vec::new();
        let mut i: usize = 0;
        while i < entries.len()
            invariant
                i <= entries@.len(),
                es == entries@,
                unique_keys(es),
                forall|k: int| 0 <= k < es.len() ==> #[trigger] self.devices.lookup(es[k].0@) == Some(es[k].1),
                r@.len() == i,
                forall|k: int| 0 <= k < i ==> r@[k] == es[k].1,
            decreases entries.len() - i,
        {
            r.push(entries[i].1.duplicate());
            i = i + 1;
        }
        assert forall|k: int| 0 <= k < r@.len() implies self.device(#[trigger] r@[k].id@) == Some(
            r@[k],
        ) by {
            assert(self.devices.lookup(es[k].0@) == Some(es[k].1));
        }
        assert forall|a: int, b: int|
            0 <= a < r@.len() && 0 <= b < r@.len() && a != b implies r@[a].id@ != r@[b].id@ by {
            assert(self.devices.lookup(es[a].0@) == Some(es[a].1));
            assert(self.devices.lookup(es[b].0@) == Some(es[b].1));
        }
        assert forall|id: Seq<char>| #[trigger] self.device(id) is Some implies exists|k: int|
            0 <= k < r@.len() && r@[k].id@ == id by {
            assert(self.devices.lookup(id) is Some);
            let k = choose|k: int| 0 <= k < es.len() && es[k].0@ == id;
            assert(self.devices.lookup(es[k].0@) == Some(es[k].1));
            assert(r@[k].id@ == id);
        }
        r
    }

    /// Notes whether the phone with id `device_id` (if known) is connected.
    pub fn set_connected(&mut self, device_id: &str, connected: bool)
        requires
            old(self).wf(),
        ensures
            final(self).wf(),
            forall|id: Seq<char>|
                #[trigger] final(self).device(id) == if id == device_id@ && old(self).device(id) is Some {
                    Some(DeviceInfo { connected, ..old(self).device(id).unwrap() })
                } else {
                    old(self).device(id)
                },
    {
        match self.devices.take(device_id) {
            Some(d) => {
                let mut d = d;
                d.connected = connected;
                let key = String::from_str(device_id);
                self.devices.insert(key, d);
            },
            None => {},
        }
    }
}

} // verus!

verus! {

/// What is read back of the phones after a write: after adding a phone it is found
/// under its id; after removing an id nothing is found under it; other ids keep
/// their phones either way.
pub proof fn law_devices_read_after_write(
    before: DeviceManager,
    added: DeviceManager,
    removed: DeviceManager,
    d: DeviceInfo,
    gone: Seq<char>,
    other: Seq<char>,
)
    requires
        forall|id: Seq<char>|
            #[trigger] added.device(id) == if id == d.id@ {
                Some(d)
            } else {
                before.device(id)
            },
        forall|id: Seq<char>|
            #[trigger] removed.device(id) == if id == gone {
                None
            } else {
                before.device(id)
            },
    ensures
        added.device(d.id@) == Some(d),
        removed.device(gone) is None,
        other != d.id@ ==> added.device(other) == before.device(other),
        other != gone ==> removed.device(other) == before.device(other),
{
}

} // verus!
