//! The tweak registry: typed, name-addressed stores with first-touch defaults.
//!
//! A [`Registry`] owns one concurrent map per supported scalar type: one from
//! key to the bit pattern of a floating-point value, one from key to a
//! boolean. An entry is created on the first read of its key, seeded from the
//! default that the reader supplies; later reads ignore their default. An
//! unconditional write replaces the stored value of an existing entry and is
//! a silent no-op on a key that was never read.

use vstd::prelude::*;

verus! {

/// The value a read returns: the stored value if the key has an entry,
/// otherwise the caller's default.
pub open spec fn seeded_value<V>(m: Map<Seq<char>, V>, key: Seq<char>, default: V) -> V {
    if m.dom().contains(key) {
        m[key]
    } else {
        default
    }
}

/// The map after a read: unchanged if the key has an entry, otherwise with a
/// new entry holding the caller's default.
pub open spec fn seeded_map<V>(m: Map<Seq<char>, V>, key: Seq<char>, default: V) -> Map<
    Seq<char>,
    V,
> {
    if m.dom().contains(key) {
        m
    } else {
        m.insert(key, default)
    }
}

/// The map after an unconditional write: the stored value is replaced if the
/// key has an entry; a write to an absent key changes nothing.
pub open spec fn updated_map<V>(m: Map<Seq<char>, V>, key: Seq<char>, value: V) -> Map<
    Seq<char>,
    V,
> {
    if m.dom().contains(key) {
        m.insert(key, value)
    } else {
        m
    }
}

/// A snapshot lists each entry of the map exactly once, in no fixed order.
pub open spec fn lists_entries_of<V>(r: Seq<(String, V)>, m: Map<Seq<char>, V>) -> bool {
    &&& (forall|i: int| 0 <= i < r.len() ==> m.contains_pair(#[trigger] r[i].0@, r[i].1))
    &&& (forall|i: int, j: int| 0 <= i < j < r.len() ==> r[i].0@ != r[j].0@)
    &&& (forall|k: Seq<char>|
        #[trigger] m.dom().contains(k) ==> (exists|i: int| 0 <= i < r.len() && #[trigger] r[i].0@ == k))
}

#[verifier::external_type_specification]
#[verifier::external_body]
#[verifier::reject_recursive_types(K)]
#[verifier::reject_recursive_types(V)]
#[verifier::reject_recursive_types(S)]
pub struct ExDashMap<K, V, S>(dashmap::DashMap<K, V, S>);

/// The concurrent map holding float entries as bit patterns.
pub type FloatMap = dashmap::DashMap<String, u64>;

/// The concurrent map holding boolean entries.
pub type BoolMap = dashmap::DashMap<String, bool>;

/// A map with no entries, as the view of a freshly created float store.
pub open spec fn no_float_entries() -> Map<Seq<char>, u64> {
    Map::empty()
}

/// A map with no entries, as the view of a freshly created boolean store.
pub open spec fn no_bool_entries() -> Map<Seq<char>, bool> {
    Map::empty()
}

/// The entries a float-bits map currently holds, as a map from the key's
/// characters to the stored bit pattern.
pub uninterp spec fn float_map_entries(m: FloatMap) -> Map<Seq<char>, u64>;

/// The entries a boolean map currently holds, as a map from the key's
/// characters to the stored boolean.
pub uninterp spec fn bool_map_entries(m: BoolMap) -> Map<Seq<char>, bool>;

/// Relies on `dashmap::DashMap::new`: creates an empty map.
#[verifier::external_body]
fn new_float_map() -> (created: FloatMap)
    ensures
        float_map_entries(created) == no_float_entries(),
{
    dashmap::DashMap::new()
}

/// Relies on `dashmap::DashMap::new`: creates an empty map.
#[verifier::external_body]
fn new_bool_map() -> (created: BoolMap)
    ensures
        bool_map_entries(created) == no_bool_entries(),
{
    dashmap::DashMap::new()
}

/// Relies on `dashmap::DashMap::get`: returns the value stored at the key,
/// here copied out, or `None` when the key has no entry.
#[verifier::external_body]
fn float_map_get(m: &FloatMap, key: &str) -> (r: Option<u64>)
    ensures
        r == (if float_map_entries(*m).dom().contains(key@) {
            Some(float_map_entries(*m)[key@])
        } else {
            None::<u64>
        }),
{
    m.get(key).map(|v| *v)
}

/// Relies on `dashmap::DashMap::get`: returns the value stored at the key,
/// here copied out, or `None` when the key has no entry.
#[verifier::external_body]
fn bool_map_get(m: &BoolMap, key: &str) -> (r: Option<bool>)
    ensures
        r == (if bool_map_entries(*m).dom().contains(key@) {
            Some(bool_map_entries(*m)[key@])
        } else {
            None::<bool>
        }),
{
    m.get(key).map(|v| *v)
}

/// Relies on `dashmap::DashMap::insert`: stores the value at the key,
/// replacing any previously stored one.
#[verifier::external_body]
fn float_map_insert(m: &mut FloatMap, key: String, value: u64)
    ensures
        float_map_entries(*final(m)) == float_map_entries(*old(m)).insert(key@, value),
{
    m.insert(key, value);
}

/// Relies on `dashmap::DashMap::insert`: stores the value at the key,
/// replacing any previously stored one.
#[verifier::external_body]
fn bool_map_insert(m: &mut BoolMap, key: String, value: bool)
    ensures
        bool_map_entries(*final(m)) == bool_map_entries(*old(m)).insert(key@, value),
{
    m.insert(key, value);
}

/// Relies on `dashmap::DashMap::alter`: replaces the value stored at the key
/// if one is present, and does nothing otherwise.
#[verifier::external_body]
fn float_map_alter(m: &mut FloatMap, key: &str, value: u64)
    ensures
        float_map_entries(*final(m)) == updated_map(float_map_entries(*old(m)), key@, value),
{
    m.alter(key, |_, _| value);
}

/// Relies on `dashmap::DashMap::alter`: replaces the value stored at the key
/// if one is present, and does nothing otherwise.
#[verifier::external_body]
fn bool_map_alter(m: &mut BoolMap, key: &str, value: bool)
    ensures
        bool_map_entries(*final(m)) == updated_map(bool_map_entries(*old(m)), key@, value),
{
    m.alter(key, |_, _| value);
}

/// Relies on `dashmap::DashMap::iter`: yields each entry exactly once, in no
/// fixed order; here each key and value is copied out.
#[verifier::external_body]
fn float_map_pairs(m: &FloatMap) -> (r: Vec<(String, u64)>)
    ensures
        lists_entries_of(r@, float_map_entries(*m)),
{
    m.iter().map(|e| (e.key().clone(), *e.value())).collect()
}

/// Relies on `dashmap::DashMap::iter`: yields each entry exactly once, in no
/// fixed order; here each key and value is copied out.
#[verifier::external_body]
fn bool_map_pairs(m: &BoolMap) -> (r: Vec<(String, bool)>)
    ensures
        lists_entries_of(r@, bool_map_entries(*m)),
{
    m.iter().map(|e| (e.key().clone(), *e.value())).collect()
}

/// The process-wide store of tweakable values: one concurrent map per
/// supported scalar type. Floating-point values are carried as the `u64` bit
/// pattern the host obtains from them, so that the registry itself never
/// interprets them; booleans are stored directly. The two maps are
/// independent namespaces: a float entry and a boolean entry may share a key.
pub struct Registry {
    floats: FloatMap,
    bools: BoolMap,
}

impl Registry {
    /// The current float entries, keyed by the key's characters.
    pub closed spec fn float_entries(self) -> Map<Seq<char>, u64> {
        float_map_entries(self.floats)
    }

    /// The current boolean entries, keyed by the key's characters.
    pub closed spec fn bool_entries(self) -> Map<Seq<char>, bool> {
        bool_map_entries(self.bools)
    }

    /// Creates a registry with no entries of either type.
    pub fn new() -> (r: Registry)
        ensures
            r.float_entries() == Map::<Seq<char>, u64>::empty(),
            r.bool_entries() == Map::<Seq<char>, bool>::empty(),
    {
        Registry { floats: new_float_map(), bools: new_bool_map() }
    }

    /// Returns the float bits stored at `key`; if the key has no entry yet,
    /// first creates one holding `default_bits`. The default is honored only
    /// on that first touch and ignored on every later call.
    pub fn float_get_or_insert(&mut self, key: &str, default_bits: u64) -> (r: u64)
        ensures
            r == seeded_value(old(self).float_entries(), key@, default_bits),
            final(self).float_entries() == seeded_map(
                old(self).float_entries(),
                key@,
                default_bits,
            ),
            final(self).bool_entries() == old(self).bool_entries(),
    {
        match float_map_get(&self.floats, key) {
            Some(v) => v,
            None => {
                float_map_insert(&mut self.floats, key.to_owned(), default_bits);
                default_bits
            },
        }
    }

    /// Returns the boolean stored at `key`; if the key has no entry yet,
    /// first creates one holding `default`. The default is honored only on
    /// that first touch and ignored on every later call.
    pub fn bool_get_or_insert(&mut self, key: &str, default: bool) -> (r: bool)
        ensures
            r == seeded_value(old(self).bool_entries(), key@, default),
            final(self).bool_entries() == seeded_map(old(self).bool_entries(), key@, default),
            final(self).float_entries() == old(self).float_entries(),
    {
        match bool_map_get(&self.bools, key) {
            Some(v) => v,
            None => {
                bool_map_insert(&mut self.bools, key.to_owned(), default);
                default
            },
        }
    }

    /// Overwrites the float entry at `key` with `value_bits` if one exists;
    /// a set on a key that was never read is a silent no-op.
    pub fn set_float(&mut self, key: &str, value_bits: u64)
        ensures
            final(self).float_entries() == updated_map(
                old(self).float_entries(),
                key@,
                value_bits,
            ),
            final(self).bool_entries() == old(self).bool_entries(),
    {
        float_map_alter(&mut self.floats, key, value_bits);
    }

    /// Overwrites the boolean entry at `key` with `value` if one exists; a
    /// set on a key that was never read is a silent no-op.
    pub fn set_bool(&mut self, key: &str, value: bool)
        ensures
            final(self).bool_entries() == updated_map(old(self).bool_entries(), key@, value),
            final(self).float_entries() == old(self).float_entries(),
    {
        bool_map_alter(&mut self.bools, key, value);
    }

    /// A read-only enumeration of the current float entries, one pair per
    /// entry, in no fixed order.
    pub fn float_snapshot(&self) -> (r: Vec<(String, u64)>)
        ensures
            lists_entries_of(r@, self.float_entries()),
    {
        float_map_pairs(&self.floats)
    }

    /// A read-only enumeration of the current boolean entries, one pair per
    /// entry, in no fixed order.
    pub fn bool_snapshot(&self) -> (r: Vec<(String, bool)>)
        ensures
            lists_entries_of(r@, self.bool_entries()),
    {
        bool_map_pairs(&self.bools)
    }

    /// Declares a float tweakable: binds a key and a compiled-in default to a
    /// handle. Declaration touches no map; the entry is created only on the
    /// first read through the handle.
    pub fn declare_float(&self, key: String, default_bits: u64) -> (h: FloatHandle)
        ensures
            h.key@ == key@,
            h.default_bits == default_bits,
    {
        FloatHandle { key, default_bits }
    }

    /// Declares a boolean tweakable: binds a key and a compiled-in default to
    /// a handle. Declaration touches no map; the entry is created only on the
    /// first read through the handle.
    pub fn declare_bool(&self, key: String, default: bool) -> (h: BoolHandle)
        ensures
            h.key@ == key@,
            h.default == default,
    {
        BoolHandle { key, default }
    }
}

/// A process-wide identifier for one float tweakable: the key it reads and
/// the default that seeds the entry on the first read. A handle owns no
/// value; every read queries the registry anew, so updates made through the
/// control plane are visible on the next read.
pub struct FloatHandle {
    /// The key this handle reads.
    pub key: String,
    /// The bit pattern of the compiled-in default value.
    pub default_bits: u64,
}

/// A process-wide identifier for one boolean tweakable: the key it reads and
/// the default that seeds the entry on the first read.
pub struct BoolHandle {
    /// The key this handle reads.
    pub key: String,
    /// The compiled-in default value.
    pub default: bool,
}

impl FloatHandle {
    /// The current value of this tweakable: the stored float bits, or the
    /// handle's default on the first read of its key, which then seeds the
    /// entry.
    pub fn value(&self, registry: &mut Registry) -> (r: u64)
        ensures
            r == seeded_value(old(registry).float_entries(), self.key@, self.default_bits),
            final(registry).float_entries() == seeded_map(
                old(registry).float_entries(),
                self.key@,
                self.default_bits,
            ),
            final(registry).bool_entries() == old(registry).bool_entries(),
    {
        registry.float_get_or_insert(self.key.as_str(), self.default_bits)
    }
}

impl BoolHandle {
    /// The current value of this tweakable: the stored boolean, or the
    /// handle's default on the first read of its key, which then seeds the
    /// entry.
    pub fn value(&self, registry: &mut Registry) -> (r: bool)
        ensures
            r == seeded_value(old(registry).bool_entries(), self.key@, self.default),
            final(registry).bool_entries() == seeded_map(
                old(registry).bool_entries(),
                self.key@,
                self.default,
            ),
            final(registry).float_entries() == old(registry).float_entries(),
    {
        registry.bool_get_or_insert(self.key.as_str(), self.default)
    }
}

} // verus!
