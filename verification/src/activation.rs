//! The activation functions, which are those of `candle_nn`.
//!
//! A configuration names its activation function, and this crate hands the
//! name on as it came. It never looks into one.

use candle_nn::Activation;
use vstd::prelude::*;

verus! {

/// `candle_nn::Activation`: an activation function. Opaque to the verifier.
#[verifier::external_type_specification]
#[verifier::external_body]
pub struct ExActivation(Activation);

} // verus!
