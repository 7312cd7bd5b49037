use vstd::prelude::*;

verus! {

/// A configuration value as the host hands it over: the shape of a JSON value,
/// with numbers limited to `i32`.
pub enum ConfigKeyValue {
    String(String),
    Number(i32),
    Bool(bool),
    Array(Vec<ConfigKeyValue>),
    Object(ConfigKeyMap),
    Null,
}

/// Configuration properties in insertion order. No key occurs twice.
pub struct ConfigKeyMap {
    entries: Vec<(String, ConfigKeyValue)>,
}

/// A map's entries, each key taken by its text.
pub type ConfigEntries = Seq<(Seq<char>, ConfigKeyValue)>;

pub open spec fn keys_distinct(m: ConfigEntries) -> bool {
    forall|i: int, j: int| 0 <= i < m.len() && 0 <= j < m.len() && i != j ==> m[i].0 != m[j].0
}

pub open spec fn has_key(m: ConfigEntries, key: Seq<char>) -> bool {
    exists|i: int| 0 <= i < m.len() && m[i].0 == key
}

/// The position of `key` among the entries (meaningful when `has_key`).
pub open spec fn key_index(m: ConfigEntries, key: Seq<char>) -> int {
    choose|i: int| 0 <= i < m.len() && m[i].0 == key
}

/// The value stored under `key`, if any.
pub open spec fn lookup(m: ConfigEntries, key: Seq<char>) -> Option<ConfigKeyValue> {
    if has_key(m, key) {
        Some(m[key_index(m, key)].1)
    } else {
        None
    }
}

/// The entries with the one stored under `key` taken out, the others keeping their order.
pub open spec fn without_key(m: ConfigEntries, key: Seq<char>) -> ConfigEntries {
    if has_key(m, key) {
        m.remove(key_index(m, key))
    } else {
        m
    }
}

/// The entries left once each of `keys` has been taken out, in turn.
pub open spec fn without_keys(m: ConfigEntries, keys: Seq<Seq<char>>) -> ConfigEntries
    decreases keys.len(),
{
    if keys.len() == 0 {
        m
    } else {
        without_key(without_keys(m, keys.drop_last()), keys.last())
    }
}

/// Taking a key out keeps the keys distinct.
pub proof fn lemma_without_key_distinct(m: ConfigEntries, key: Seq<char>)
    requires
        keys_distinct(m),
    ensures
        keys_distinct(without_key(m, key)),
        !has_key(without_key(m, key), key),
        without_key(m, key).len() == if has_key(m, key) { m.len() - 1 } else { m.len() as int },
{
    if has_key(m, key) {
        let i = key_index(m, key);
        let r = m.remove(i);
        assert forall|a: int, b: int| 0 <= a < r.len() && 0 <= b < r.len() && a != b implies r[a].0
            != r[b].0 by {
            let a0 = if a < i { a } else { a + 1 };
            let b0 = if b < i { b } else { b + 1 };
            assert(r[a] == m[a0]);
            assert(r[b] == m[b0]);
        }
        if has_key(r, key) {
            let j = choose|j: int| 0 <= j < r.len() && r[j].0 == key;
            let j0 = if j < i { j } else { j + 1 };
            assert(r[j] == m[j0]);
        }
    }
}

/// Taking one key out does not change what another key holds, nor whether it is there.
pub proof fn lemma_lookup_without_other(m: ConfigEntries, removed: Seq<char>, key: Seq<char>)
    requires
        keys_distinct(m),
        removed != key,
    ensures
        lookup(without_key(m, removed), key) == lookup(m, key),
        has_key(without_key(m, removed), key) == has_key(m, key),
{
    if has_key(m, removed) {
        let i = key_index(m, removed);
        let r = m.remove(i);
        if has_key(m, key) {
            let k = key_index(m, key);
            assert(k != i);
            let k1 = if k < i { k } else { k - 1 };
            assert(r[k1] == m[k]);
            assert(has_key(r, key));
            let j = key_index(r, key);
            let j0 = if j < i { j } else { j + 1 };
            assert(r[j] == m[j0]);
        } else {
            if has_key(r, key) {
                let j = key_index(r, key);
                let j0 = if j < i { j } else { j + 1 };
                assert(r[j] == m[j0]);
            }
        }
    }
}

/// Taking out a list of keys keeps the keys distinct.
pub proof fn lemma_without_keys_distinct(m: ConfigEntries, removed: Seq<Seq<char>>)
    requires
        keys_distinct(m),
    ensures
        keys_distinct(without_keys(m, removed)),
    decreases removed.len(),
{
    if removed.len() > 0 {
        lemma_without_keys_distinct(m, removed.drop_last());
        lemma_without_key_distinct(without_keys(m, removed.drop_last()), removed.last());
    }
}

/// Taking out a list of other keys does not change what a key holds.
pub proof fn lemma_lookup_without_others(m: ConfigEntries, removed: Seq<Seq<char>>, key: Seq<char>)
    requires
        keys_distinct(m),
        !removed.contains(key),
    ensures
        lookup(without_keys(m, removed), key) == lookup(m, key),
        has_key(without_keys(m, removed), key) == has_key(m, key),
    decreases removed.len(),
{
    if removed.len() > 0 {
        let front = removed.drop_last();
        assert(!front.contains(key)) by {
            if front.contains(key) {
                let j = choose|j: int| 0 <= j < front.len() && front[j] == key;
                assert(removed[j] == key);
            }
        }
        assert(removed[removed.len() - 1] != key);
        lemma_lookup_without_others(m, front, key);
        lemma_without_keys_distinct(m, front);
        lemma_lookup_without_other(without_keys(m, front), removed.last(), key);
    }
}

/// None of the keys taken out is left.
pub proof fn lemma_without_keys_absent(m: ConfigEntries, removed: Seq<Seq<char>>, key: Seq<char>)
    requires
        keys_distinct(m),
        removed.contains(key),
    ensures
        !has_key(without_keys(m, removed), key),
    decreases removed.len(),
{
    let front = removed.drop_last();
    lemma_without_keys_distinct(m, front);
    if removed.last() == key {
        lemma_without_key_distinct(without_keys(m, front), key);
    } else {
        let j = choose|j: int| 0 <= j < removed.len() && removed[j] == key;
        assert(front[j] == key);
        lemma_without_keys_absent(m, front, key);
        lemma_lookup_without_other(without_keys(m, front), removed.last(), key);
    }
}

impl View for ConfigKeyMap {
    type V = ConfigEntries;

    closed spec fn view(&self) -> ConfigEntries {
        self.entries@.map_values(|e: (String, ConfigKeyValue)| (e.0@, e.1))
    }
}

impl ConfigKeyMap {
    #[verifier::type_invariant]
    spec fn distinct(self) -> bool {
        keys_distinct(self@)
    }

    /// No key occurs twice.
    pub fn distinct_keys(&self)
        ensures
            keys_distinct(self@),
    {
        proof {
            use_type_invariant(self);
        }
    }

    /// An empty map.
    pub fn new() -> (m: Self)
        ensures
            m@ == Seq::<(Seq<char>, ConfigKeyValue)>::empty(),
    {
        let m = ConfigKeyMap { entries: Vec::new() };
        assert(m@ =~= Seq::<(Seq<char>, ConfigKeyValue)>::empty());
        m
    }

    /// The number of entries.
    pub fn len(&self) -> (n: usize)
        ensures
            n == self@.len(),
    {
        self.entries.len()
    }

    /// Finds the position of `key`.
    fn position(&self, key: &String) -> (r: Option<usize>)
        ensures
            match r {
                Some(i) => 0 <= i < self@.len() && self@[i as int].0 == key@ && has_key(self@, key@)
                    && key_index(self@, key@) == i,
                None => !has_key(self@, key@),
            },
    {
        proof {
            use_type_invariant(self);
        }
        let mut i: usize = 0;
        while i < self.entries.len()
            invariant
                0 <= i <= self.entries@.len(),
                self@.len() == self.entries@.len(),
                keys_distinct(self@),
                forall|j: int| 0 <= j < i ==> self@[j].0 != key@,
            decreases self.entries@.len() - i,
        {
            if self.entries[i].0 == *key {
                assert(self@[i as int].0 == key@);
                let ghost k = key_index(self@, key@);
                assert(self@[k].0 == key@);
                return Some(i);
            }
            i = i + 1;
        }
        None
    }

    /// Stores `value` under `key`. An existing key keeps its position and gets the new value;
    /// a new key goes last. Returns the value that was stored before.
    pub fn insert(&mut self, key: String, value: ConfigKeyValue) -> (previous: Option<ConfigKeyValue>)
        ensures
            previous == lookup(old(self)@, key@),
            has_key(old(self)@, key@) ==> final(self)@ == old(self)@.update(
                key_index(old(self)@, key@),
                (key@, value),
            ),
            !has_key(old(self)@, key@) ==> final(self)@ == old(self)@.push((key@, value)),
    {
        proof {
            use_type_invariant(&*self);
        }
        let ghost before = self@;
        match self.position(&key) {
            Some(i) => {
                let mut entries = Vec::new();
                std::mem::swap(&mut entries, &mut self.entries);
                let (k, v) = entries.remove(i);
                entries.insert(i, (k, value));
                let ghost after = entries@.map_values(|e: (String, ConfigKeyValue)| (e.0@, e.1));
                assert(after =~= before.update(i as int, (key@, value)));
                self.entries = entries;
                Some(v)
            },
            None => {
                let mut entries = Vec::new();
                std::mem::swap(&mut entries, &mut self.entries);
                entries.push((key, value));
                let ghost after = entries@.map_values(|e: (String, ConfigKeyValue)| (e.0@, e.1));
                assert(after =~= before.push((key@, value)));
                self.entries = entries;
                None
            },
        }
    }

    /// Takes the entry stored under `key` out of the map, keeping the order of the others.
    pub fn shift_remove(&mut self, key: &str) -> (removed: Option<ConfigKeyValue>)
        ensures
            removed == lookup(old(self)@, key@),
            final(self)@ == without_key(old(self)@, key@),
    {
        proof {
            use_type_invariant(&*self);
        }
        let ghost before = self@;
        let key = String::from_str(key);
        match self.position(&key) {
            Some(i) => {
                let mut entries = Vec::new();
                std::mem::swap(&mut entries, &mut self.entries);
                let (_, v) = entries.remove(i);
                let ghost after = entries@.map_values(|e: (String, ConfigKeyValue)| (e.0@, e.1));
                assert(after =~= before.remove(i as int));
                proof {
                    lemma_without_key_distinct(before, key@);
                }
                self.entries = entries;
                Some(v)
            },
            None => None,
        }
    }

    /// Gives up the entries, in order.
    pub fn into_entries(self) -> (entries: Vec<(String, ConfigKeyValue)>)
        ensures
            entries@.map_values(|e: (String, ConfigKeyValue)| (e.0@, e.1)) == self@,
    {
        self.entries
    }
}


/// The newline kind of dprint's global configuration.
#[derive(Clone, Copy, PartialEq, Eq, Debug, Structural)]
pub enum NewLineKind {
    Auto,
    LineFeed,
    CarriageReturnLineFeed,
}

/// The settings that dprint shares among its plugins.
#[derive(Clone, Copy, PartialEq, Eq, Debug, Structural)]
pub struct GlobalConfiguration {
    pub line_width: Option<u32>,
    pub use_tabs: Option<bool>,
    pub indent_width: Option<u8>,
    pub new_line_kind: Option<NewLineKind>,
}

impl Default for GlobalConfiguration {
    /// Every shared setting left unset.
    fn default() -> (g: GlobalConfiguration)
        ensures
            g.line_width is None && g.use_tabs is None && g.indent_width is None
                && g.new_line_kind is None,
    {
        GlobalConfiguration { line_width: None, use_tabs: None, indent_width: None, new_line_kind: None }
    }
}

/// A problem with one configuration property: the property, then the message.
pub type DiagnosticView = (Seq<char>, Seq<char>);

/// A problem with one configuration property.
#[derive(Clone, Debug)]
pub struct ConfigurationDiagnostic {
    pub property_name: String,
    pub message: String,
}

impl View for ConfigurationDiagnostic {
    type V = DiagnosticView;

    open spec fn view(&self) -> DiagnosticView {
        (self.property_name@, self.message@)
    }
}

pub open spec fn diagnostics_view(d: Seq<ConfigurationDiagnostic>) -> Seq<DiagnosticView> {
    d.map_values(|x: ConfigurationDiagnostic| x@)
}

/// A resolved configuration with the problems found on the way.
pub struct ResolveConfigurationResult<T> {
    pub diagnostics: Vec<ConfigurationDiagnostic>,
    pub config: T,
}

} // verus!
