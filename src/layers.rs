use vstd::prelude::*;

verus! {

/// Number of render layers a mask can hold.
pub const TOTAL_LAYERS: u32 = 32;

/// A set of render layers, one bit per layer.
#[derive(Clone, Copy, Debug, PartialEq, Eq, Hash, Structural)]
pub struct LayerMask {
    pub bits: u32,
}

/// Whether a view with the given (optional) mask shows an entity with mask `m`.
/// A view without a mask shows every entity.
pub open spec fn view_accepts(view_mask: Option<LayerMask>, m: LayerMask) -> bool {
    match view_mask {
        None => true,
        Some(v) => v.bits & m.bits != 0,
    }
}

impl LayerMask {
    /// The mask holding the single layer `n`.
    pub fn layer(n: u32) -> (r: LayerMask)
        requires
            n < TOTAL_LAYERS,
        ensures
            r.bits == 1u32 << n,
    {
        LayerMask { bits: 1u32 << n }
    }

    /// The mask holding every layer.
    pub fn all() -> (r: LayerMask)
        ensures
            r.bits == u32::MAX,
    {
        LayerMask { bits: u32::MAX }
    }

    /// The mask holding no layer.
    pub fn none() -> (r: LayerMask)
        ensures
            r.bits == 0,
    {
        LayerMask { bits: 0 }
    }

    /// The mask holding the layers of `self` and layer `n`.
    pub fn with(self, n: u32) -> (r: LayerMask)
        requires
            n < TOTAL_LAYERS,
        ensures
            r.bits == self.bits | (1u32 << n),
    {
        LayerMask { bits: self.bits | (1u32 << n) }
    }

    /// Whether the two masks share a layer.
    pub fn intersects(&self, other: &LayerMask) -> (r: bool)
        ensures
            r == (self.bits & other.bits != 0),
    {
        self.bits & other.bits != 0
    }
}

/// Whether a view with mask `view_mask` shows an entity with mask `m`;
/// a view without a mask shows every entity.
pub fn view_shows(view_mask: Option<LayerMask>, m: LayerMask) -> (r: bool)
    ensures
        r == view_accepts(view_mask, m),
{
    match view_mask {
        None => true,
        Some(v) => v.intersects(&m),
    }
}

} // verus!
