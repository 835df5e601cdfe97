//! Capability negotiation rules for device setup.
//!
//! Feature sets and downlevel capability flags are driver bitmasks, carried
//! here as plain 64-bit masks; the shader model is an ordered level.  These
//! rules decide what is requested from the driver and whether an adapter
//! meets the requirements; failing them is fatal at startup, with no retry.

use vstd::prelude::*;

verus! {

/// The feature set actually requested from the driver: every required
/// feature, plus those optional features the adapter offers.
pub fn requested_features(required: u64, optional: u64, adapter: u64) -> (r: u64)
    ensures
        r == (optional & adapter) | required,
{
    (optional & adapter) | required
}

/// Whether the adapter offers every required feature.
pub fn supports_features(adapter: u64, required: u64) -> (r: bool)
    ensures
        r == (adapter & required == required),
{
    adapter & required == required
}

/// The required features the adapter does not offer: the diagnostic
/// reported when the feature check fails.
pub fn missing_features(adapter: u64, required: u64) -> (r: u64)
    ensures
        r == required & (adapter ^ u64::MAX),
{
    required & (adapter ^ u64::MAX)
}

/// Whether the adapter's shader-model level reaches the required level.
pub fn meets_shader_model(adapter_level: u8, required_level: u8) -> (r: bool)
    ensures
        r == (adapter_level >= required_level),
{
    adapter_level >= required_level
}

/// Whether the adapter offers every required downlevel capability flag.
pub fn supports_downlevel_flags(adapter_flags: u64, required_flags: u64) -> (r: bool)
    ensures
        r == (adapter_flags & required_flags == required_flags),
{
    adapter_flags & required_flags == required_flags
}

/// The requested feature set always contains every required feature, and
/// nothing outside the required features and the adapter's own offer: no
/// optional feature is requested that the adapter does not have.
pub proof fn lemma_requested_features_sound(required: u64, optional: u64, adapter: u64)
    ensures
        ((optional & adapter) | required) & required == required,
        ((optional & adapter) | required) & (adapter | required) == ((optional & adapter)
            | required),
{
    assert(((optional & adapter) | required) & required == required) by (bit_vector);
    assert(((optional & adapter) | required) & (adapter | required) == ((optional & adapter)
        | required)) by (bit_vector);
}

} // verus!
