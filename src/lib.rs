// Queueing of outline draws: for each view, which entities are outlined, in
// which phase, and with which pipeline specialization key.
//
// key:        the specialization key and its axes
// layers:     render-layer masks and the view filter
// float_bits: `x == 0.0` and `x < 1.0` decided on `f32::to_bits` patterns
// queue:      the stencil and volume queues
// laws:       what holds of every queue result
use vstd::prelude::*;

pub mod float_bits;
pub mod key;
pub mod laws;
pub mod layers;
pub mod queue;

verus! {

} // verus!
