//! The control plane's decisions, separated from its transport.
//!
//! The host's listener parses each set-route request body into a key and a
//! value, or into nothing when the body is malformed, and hands the outcome
//! here. A parsed update is applied to the registry and acknowledged; a
//! malformed one changes nothing and is answered with a client error. A set
//! on a key that was never read is applied as the registry's silent no-op
//! and still acknowledged: the protocol does not distinguish that case.

use crate::registry::{updated_map, Registry};
use vstd::prelude::*;

verus! {

/// The status code that acknowledges an applied update.
pub const STATUS_OK: u16 = 200;

/// The status code that reports a malformed request body.
pub const STATUS_BAD_REQUEST: u16 = 400;

/// Decides one float set-route request. `request` is the parsed body: the
/// key and the value's bit pattern, or `None` when the body was malformed.
/// A parsed update is applied and acknowledged, whether or not the key has
/// an entry; a malformed one leaves the registry unchanged and is refused.
pub fn apply_float_update(registry: &mut Registry, request: Option<(String, u64)>) -> (status:
    u16)
    ensures
        (match request {
            Some(kv) => final(registry).float_entries() == updated_map(
                old(registry).float_entries(),
                kv.0@,
                kv.1,
            ) && status == STATUS_OK,
            None => final(registry).float_entries() == old(registry).float_entries() && status
                == STATUS_BAD_REQUEST,
        }),
        final(registry).bool_entries() == old(registry).bool_entries(),
{
    match request {
        Some((key, value_bits)) => {
            registry.set_float(key.as_str(), value_bits);
            STATUS_OK
        },
        None => STATUS_BAD_REQUEST,
    }
}

/// Decides one boolean set-route request, as [`apply_float_update`] does for
/// floats.
pub fn apply_bool_update(registry: &mut Registry, request: Option<(String, bool)>) -> (status:
    u16)
    ensures
        (match request {
            Some(kv) => final(registry).bool_entries() == updated_map(
                old(registry).bool_entries(),
                kv.0@,
                kv.1,
            ) && status == STATUS_OK,
            None => final(registry).bool_entries() == old(registry).bool_entries() && status
                == STATUS_BAD_REQUEST,
        }),
        final(registry).float_entries() == old(registry).float_entries(),
{
    match request {
        Some((key, value)) => {
            registry.set_bool(key.as_str(), value);
            STATUS_OK
        },
        None => STATUS_BAD_REQUEST,
    }
}

} // verus!
