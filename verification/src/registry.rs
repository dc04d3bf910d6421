//! The fixed set of device model codes that the flashing sequence accepts.
//!
//! Membership is an exact match against an enumerated set; there are no
//! model-code ranges. A model outside this set stops the sequence before any
//! firmware byte is written (see the session's model-validation phase).

use vstd::prelude::*;

verus! {

/// The model codes of the supported devices.
pub open spec fn model_supported(model: u16) -> bool {
    ||| model == 60062
    ||| model == 60065
    ||| model == 60066
    ||| model == 60121
    ||| model == 60125
    ||| model == 60181
    ||| model == 60241
}

/// Exact-match membership test against the model registry.
pub fn is_supported_model(model: u16) -> (r: bool)
    ensures
        r == model_supported(model),
{
    model == 60062 || model == 60065 || model == 60066 || model == 60121 || model == 60125
        || model == 60181 || model == 60241
}

} // verus!
