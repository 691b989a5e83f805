//! Laws of the registry's first-touch and set-on-existing semantics, stated
//! over the spec-level transitions that the registry's contracts use.

use crate::registry::{seeded_map, seeded_value, updated_map};
use vstd::prelude::*;

verus! {

/// Law: a default is honored only on the first touch of a key. Once a read
/// has seeded the key with `d1`, a later read with any default `d2` returns
/// the stored value and changes nothing; in particular, on a key that had no
/// entry, both reads return `d1`.
pub proof fn lemma_default_only_on_first_touch<V>(
    m: Map<Seq<char>, V>,
    k: Seq<char>,
    d1: V,
    d2: V,
)
    ensures
        seeded_value(seeded_map(m, k, d1), k, d2) == seeded_value(m, k, d1),
        seeded_map(seeded_map(m, k, d1), k, d2) == seeded_map(m, k, d1),
        !m.dom().contains(k) ==> seeded_value(m, k, d1) == d1 && seeded_value(
            seeded_map(m, k, d1),
            k,
            d2,
        ) == d1,
{
}

/// Law: seeding a key creates exactly one entry for it and is idempotent.
/// After one read, the key's entry holds the value that the read returned;
/// any number of later reads, with any defaults, return that same value and
/// leave the map as it is, so no entry is lost or duplicated.
pub proof fn lemma_seeding_creates_one_stable_entry<V>(
    m: Map<Seq<char>, V>,
    k: Seq<char>,
    d: V,
    d2: V,
)
    ensures
        seeded_map(m, k, d).dom() =~= m.dom().insert(k),
        seeded_map(m, k, d)[k] == seeded_value(m, k, d),
        seeded_map(seeded_map(m, k, d), k, d2) == seeded_map(m, k, d),
        seeded_value(seeded_map(m, k, d), k, d2) == seeded_value(m, k, d),
        forall|k2: Seq<char>|
            k2 != k ==> (#[trigger] seeded_map(m, k, d).dom().contains(k2) <==> m.dom().contains(
                k2,
            )),
{
}

/// Law: a set on a key that was never read is a no-op. The map is exactly
/// the one from before the call, and a later read with default `d` still
/// returns `d`, not the value that the set carried.
pub proof fn lemma_set_on_unread_key_is_noop<V>(m: Map<Seq<char>, V>, k: Seq<char>, v: V, d: V)
    requires
        !m.dom().contains(k),
    ensures
        updated_map(m, k, v) == m,
        seeded_value(updated_map(m, k, v), k, d) == d,
{
}

/// Law: a set on a key previously seeded by a read stores the new value; a
/// later read, with any default, returns that value.
pub proof fn lemma_set_after_seed_updates<V>(
    m: Map<Seq<char>, V>,
    k: Seq<char>,
    d: V,
    v: V,
    d2: V,
)
    ensures
        updated_map(seeded_map(m, k, d), k, v).dom().contains(k),
        updated_map(seeded_map(m, k, d), k, v)[k] == v,
        seeded_value(updated_map(seeded_map(m, k, d), k, v), k, d2) == v,
{
}

} // verus!
