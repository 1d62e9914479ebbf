//! Key/value settings handed to libobs objects (sources, encoders, outputs).
//!
//! A settings object behaves like an `obs_data_t`: every key holds at most one
//! value, and writing a key replaces the value it held before.
use vstd::prelude::*;

verus! {

/// A value stored under a settings key.
pub enum SettingValue {
    Int(i64),
    Bool(bool),
    Text(String),
    /// A path relative to the directory that holds the running executable;
    /// the application resolves it before handing it to libobs.
    ExePath(String),
}

/// The mathematical value of a [`SettingValue`].
pub enum SettingValueView {
    Int(i64),
    Bool(bool),
    Text(Seq<char>),
    ExePath(Seq<char>),
}

impl View for SettingValue {
    type V = SettingValueView;

    open spec fn view(&self) -> SettingValueView {
        match self {
            SettingValue::Int(i) => SettingValueView::Int(*i),
            SettingValue::Bool(b) => SettingValueView::Bool(*b),
            SettingValue::Text(s) => SettingValueView::Text(s@),
            SettingValue::ExePath(s) => SettingValueView::ExePath(s@),
        }
    }
}

impl SettingValue {
    /// A copy of the value with the same view.
    pub fn duplicate(&self) -> (r: SettingValue)
        ensures
            r@ == self@,
    {
        match self {
            SettingValue::Int(i) => SettingValue::Int(*i),
            SettingValue::Bool(b) => SettingValue::Bool(*b),
            SettingValue::Text(s) => SettingValue::Text(s.clone()),
            SettingValue::ExePath(s) => SettingValue::ExePath(s.clone()),
        }
    }
}

/// The key/value pairs of a settings object, in the order they were first written.
pub struct ObsSettings {
    entries: Vec<(String, SettingValue)>,
}

/// The keys of a list of entries, in order.
pub open spec fn entry_keys(entries: Seq<(String, SettingValue)>) -> Seq<Seq<char>> {
    entries.map_values(|e: (String, SettingValue)| e.0@)
}

/// No key occurs twice in a list of entries.
pub open spec fn keys_distinct(entries: Seq<(String, SettingValue)>) -> bool {
    forall|i: int, j: int|
        0 <= i < entries.len() && 0 <= j < entries.len() && i != j ==> #[trigger] entries[i].0@
            != #[trigger] entries[j].0@
}

/// The map that a list of entries with distinct keys describes.
pub open spec fn entries_map(entries: Seq<(String, SettingValue)>) -> Map<Seq<char>, SettingValueView>
    decreases entries.len(),
{
    if entries.len() == 0 {
        Map::empty()
    } else {
        let last = entries.last();
        entries_map(entries.drop_last()).insert(last.0@, last.1@)
    }
}

impl View for ObsSettings {
    type V = Map<Seq<char>, SettingValueView>;

    closed spec fn view(&self) -> Map<Seq<char>, SettingValueView> {
        entries_map(self.entries@)
    }
}

spec fn m_has(m: Map<Seq<char>, SettingValueView>, k: Seq<char>) -> bool {
    m.dom().contains(k)
}

/// The keys of a list of distinct-keyed entries are exactly the keys of its map.
proof fn lemma_key_order(entries: Seq<(String, SettingValue)>)
    requires
        keys_distinct(entries),
    ensures
        entry_keys(entries).no_duplicates(),
        entry_keys(entries).to_set() == entries_map(entries).dom(),
        entries_map(entries).len() == entry_keys(entries).len(),
{
    lemma_entries_map(entries);
    let ks = entry_keys(entries);
    let m = entries_map(entries);
    assert(ks.no_duplicates()) by {
        assert forall|i: int, j: int| 0 <= i < ks.len() && 0 <= j < ks.len() && i != j implies ks[i] != ks[j] by {
            assert(ks[i] == entries[i].0@);
            assert(ks[j] == entries[j].0@);
        }
    }
    assert forall|k: Seq<char>| #[trigger] ks.to_set().contains(k) <==> m.dom().contains(k) by {
        if ks.to_set().contains(k) {
            let i = choose|i: int| 0 <= i < ks.len() && ks[i] == k;
            assert(entries[i].0@ == k);
        }
        if m.dom().contains(k) {
            let i = choose|i: int| 0 <= i < entries.len() && #[trigger] entries[i].0@ == k;
            assert(ks[i] == k);
        }
    }
    assert(ks.to_set() =~= m.dom());
    ks.unique_seq_to_set();
}

/// Lookup in a list of entries agrees with the map it describes.
proof fn lemma_entries_map(entries: Seq<(String, SettingValue)>)
    requires
        keys_distinct(entries),
    ensures
        entries_map(entries).dom().finite(),
        forall|k: Seq<char>|
            entries_map(entries).dom().contains(k) <==> exists|i: int|
                0 <= i < entries.len() && #[trigger] entries[i].0@ == k,
        forall|i: int|
            0 <= i < entries.len() ==> #[trigger] entries_map(entries)[entries[i].0@]
                == entries[i].1@,
    decreases entries.len(),
{
    if entries.len() > 0 {
        let init = entries.drop_last();
        assert forall|i: int, j: int|
            0 <= i < init.len() && 0 <= j < init.len() && i != j implies #[trigger] init[i].0@
            != #[trigger] init[j].0@ by {
            assert(init[i] == entries[i]);
            assert(init[j] == entries[j]);
        }
        lemma_entries_map(init);
        let m = entries_map(entries);
        assert forall|k: Seq<char>| m.dom().contains(k) implies exists|i: int|
            0 <= i < entries.len() && #[trigger] entries[i].0@ == k by {
            if k == entries.last().0@ {
                assert(entries[entries.len() - 1].0@ == k);
            } else {
                let i = choose|i: int| 0 <= i < init.len() && #[trigger] init[i].0@ == k;
                assert(entries[i] == init[i]);
            }
        }
        assert forall|k: Seq<char>|
            (exists|i: int| 0 <= i < entries.len() && #[trigger] entries[i].0@ == k) implies m.dom().contains(
            k,
        ) by {
            let i = choose|i: int| 0 <= i < entries.len() && #[trigger] entries[i].0@ == k;
            if i < entries.len() - 1 {
                assert(init[i] == entries[i]);
            }
        }
        assert forall|i: int| 0 <= i < entries.len() implies #[trigger] m[entries[i].0@]
            == entries[i].1@ by {
            if i < entries.len() - 1 {
                assert(init[i] == entries[i]);
                assert(entries[i].0@ != entries[entries.len() - 1].0@);
            }
        }
    }
}

impl ObsSettings {
    /// The keys in the order in which they were first written.
    pub closed spec fn key_order(self) -> Seq<Seq<char>> {
        entry_keys(self.entries@)
    }

    #[verifier::type_invariant]
    closed spec fn keys_unique(self) -> bool {
        keys_distinct(self.entries@)
    }

    /// An empty settings object (`obs_data_create`).
    pub fn new() -> (s: ObsSettings)
        ensures
            s@ == Map::<Seq<char>, SettingValueView>::empty(),
    {
        let s = ObsSettings { entries: Vec::new() };
        proof {
            assert(s.entries@.len() == 0);
        }
        s
    }

    /// The position of `key` among the entries, if it is there.
    fn find(&self, key: &String) -> (r: Option<usize>)
        ensures
            match r {
                Some(i) => i < self.entries@.len() && self.entries@[i as int].0@ == key@,
                None => forall|i: int|
                    0 <= i < self.entries@.len() ==> #[trigger] self.entries@[i].0@ != key@,
            },
    {
        let mut i: usize = 0;
        while i < self.entries.len()
            invariant
                i <= self.entries@.len(),
                forall|j: int| 0 <= j < i ==> #[trigger] self.entries@[j].0@ != key@,
            decreases self.entries@.len() - i,
        {
            if self.entries[i].0 == *key {
                return Some(i);
            }
            i = i + 1;
        }
        None
    }

    /// Writes `value` under `key`, replacing what the key held before.
    /// A key written for the first time goes to the end of the key order.
    pub fn set(&mut self, key: &str, value: SettingValue)
        ensures
            final(self)@ == old(self)@.insert(key@, value@),
            final(self).key_order() == (if old(self)@.dom().contains(key@) {
                old(self).key_order()
            } else {
                old(self).key_order().push(key@)
            }),
    {
        proof {
            use_type_invariant(&*self);
            lemma_entries_map(self.entries@);
        }
        let k = String::from_str(key);
        let found = self.find(&k);
        let mut entries: Vec<(String, SettingValue)> = Vec::new();
        std::mem::swap(&mut entries, &mut self.entries);
        match found {
            Some(i) => {
                let ghost before = entries@;
                let ghost m = old(self)@;
                entries.set(i, (k, value));
                proof {
                    let after = entries@;
                    assert(after.map_values(|e: (String, SettingValue)| e.0@)
                        =~= before.map_values(|e: (String, SettingValue)| e.0@));
                    assert forall|a: int, b: int|
                        0 <= a < after.len() && 0 <= b < after.len() && a != b implies #[trigger] after[a].0@
                        != #[trigger] after[b].0@ by {
                        if a == i as int {
                            assert(before[b].0@ == after[b].0@);
                        } else if b == i as int {
                            assert(before[a].0@ == after[a].0@);
                        } else {
                            assert(before[a] == after[a]);
                            assert(before[b] == after[b]);
                        }
                    }
                    lemma_entries_map(after);
                    let m2 = entries_map(after);
                    let m1 = m.insert(key@, value@);
                    assert forall|q: Seq<char>| #[trigger] m2.dom().contains(q) <==> m1.dom().contains(q) by {
                        if m2.dom().contains(q) {
                            let j = choose|j: int| 0 <= j < after.len() && #[trigger] after[j].0@ == q;
                            if j != i as int {
                                assert(before[j] == after[j]);
                            }
                        }
                        if m1.dom().contains(q) && q != key@ {
                            let j = choose|j: int| 0 <= j < before.len() && #[trigger] before[j].0@ == q;
                            assert(before[j] == after[j]);
                        }
                        if q == key@ {
                            assert(after[i as int].0@ == q);
                        }
                    }
                    assert forall|q: Seq<char>| #[trigger] m2.dom().contains(q) implies m2[q] == m1[q] by {
                        let j = choose|j: int| 0 <= j < after.len() && #[trigger] after[j].0@ == q;
                        if j != i as int {
                            assert(before[j] == after[j]);
                        }
                    }
                    assert(m2 =~= m1);
                    assert(entry_keys(after) =~= entry_keys(before));
                    assert(m.dom().contains(key@)) by {
                        assert(before[i as int].0@ == key@);
                    }
                }
            },
            None => {
                let ghost before = entries@;
                entries.push((k, value));
                proof {
                    let after = entries@;
                    assert(after.drop_last() =~= before);
                    assert(entry_keys(after) =~= entry_keys(before).push(key@));
                    assert(!m_has(old(self)@, key@)) by {
                        if old(self)@.dom().contains(key@) {
                            let j = choose|j: int| 0 <= j < before.len() && #[trigger] before[j].0@ == key@;
                        }
                    }
                    assert forall|a: int, b: int|
                        0 <= a < after.len() && 0 <= b < after.len() && a != b implies #[trigger] after[a].0@
                        != #[trigger] after[b].0@ by {
                        if a < before.len() {
                            assert(after[a] == before[a]);
                        }
                        if b < before.len() {
                            assert(after[b] == before[b]);
                        }
                    }
                }
            },
        }
        self.entries = entries;
    }

    /// The value stored under `key`, if any (`obs_data_get_*`).
    pub fn get(&self, key: &str) -> (r: Option<&SettingValue>)
        ensures
            match r {
                Some(v) => self@.dom().contains(key@) && self@[key@] == v@,
                None => !self@.dom().contains(key@),
            },
    {
        proof {
            use_type_invariant(self);
            lemma_entries_map(self.entries@);
        }
        let k = String::from_str(key);
        match self.find(&k) {
            Some(i) => Some(&self.entries[i].1),
            None => None,
        }
    }

    /// The number of keys that hold a value.  The key order lists each of
    /// them exactly once.
    pub fn len(&self) -> (n: usize)
        ensures
            n == self.key_order().len(),
            n == self@.len(),
            self.key_order().no_duplicates(),
            self.key_order().to_set() == self@.dom(),
    {
        proof {
            use_type_invariant(self);
            lemma_key_order(self.entries@);
        }
        self.entries.len()
    }

    /// The `i`-th key in key order, with the value it holds.
    pub fn entry(&self, i: usize) -> (r: (&String, &SettingValue))
        requires
            i < self.key_order().len(),
        ensures
            r.0@ == self.key_order()[i as int],
            self@.dom().contains(r.0@),
            self@[r.0@] == r.1@,
    {
        proof {
            use_type_invariant(self);
            lemma_entries_map(self.entries@);
        }
        let e = &self.entries[i];
        (&e.0, &e.1)
    }

    /// Writes an integer (`obs_data_set_int`).
    pub fn set_int(&mut self, key: &str, value: i64)
        ensures
            final(self)@ == old(self)@.insert(key@, SettingValueView::Int(value)),
    {
        self.set(key, SettingValue::Int(value));
    }

    /// Writes a boolean (`obs_data_set_bool`).
    pub fn set_bool(&mut self, key: &str, value: bool)
        ensures
            final(self)@ == old(self)@.insert(key@, SettingValueView::Bool(value)),
    {
        self.set(key, SettingValue::Bool(value));
    }

    /// Writes a string (`obs_data_set_string`).
    pub fn set_string(&mut self, key: &str, value: &str)
        ensures
            final(self)@ == old(self)@.insert(key@, SettingValueView::Text(value@)),
    {
        self.set(key, SettingValue::Text(String::from_str(value)));
    }

    /// Writes a path relative to the executable's directory.
    pub fn set_exe_path(&mut self, key: &str, relative: &str)
        ensures
            final(self)@ == old(self)@.insert(key@, SettingValueView::ExePath(relative@)),
    {
        self.set(key, SettingValue::ExePath(String::from_str(relative)));
    }
}

/// Reading a key right after writing it gives the value written.
pub proof fn law_get_after_set(
    before: Map<Seq<char>, SettingValueView>,
    key: Seq<char>,
    value: SettingValueView,
)
    ensures
        before.insert(key, value).dom().contains(key),
        before.insert(key, value)[key] == value,
{
}

/// Writing a key leaves every other key as it was: present with the same
/// value, or absent.
pub proof fn law_set_keeps_other_keys(
    before: Map<Seq<char>, SettingValueView>,
    key: Seq<char>,
    value: SettingValueView,
    other: Seq<char>,
)
    requires
        other != key,
    ensures
        before.insert(key, value).dom().contains(other) == before.dom().contains(other),
        before.dom().contains(other) ==> before.insert(key, value)[other] == before[other],
{
}

/// Writing a key twice leaves only the second value.
pub proof fn law_last_write_wins(
    before: Map<Seq<char>, SettingValueView>,
    key: Seq<char>,
    first: SettingValueView,
    second: SettingValueView,
)
    ensures
        before.insert(key, first).insert(key, second) == before.insert(key, second),
{
    assert(before.insert(key, first).insert(key, second) =~= before.insert(key, second));
}

/// Writing a key again with the value it holds changes nothing.
pub proof fn law_rewrite_changes_nothing(before: Map<Seq<char>, SettingValueView>, key: Seq<char>)
    requires
        before.dom().contains(key),
    ensures
        before.insert(key, before[key]) == before,
{
    assert(before.insert(key, before[key]) =~= before);
}

} // verus!
