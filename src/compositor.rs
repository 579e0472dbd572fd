use vstd::prelude::*;

verus! {

/// Offset added to both layer indices of the fade, so that layer 0 still shows.
pub const FADE_OFFSET: u32 = 5;

/// The opacity of a layer as the fraction `numerator / denominator`.
#[derive(Clone, Copy, Debug, PartialEq, Eq, Structural)]
pub struct LayerWeight {
    pub numerator: u64,
    pub denominator: u64,
}

/// Weight of layer `z` seen from layer `current`: `(z + K) / (current + K)` up to the
/// current layer, nothing above it.
pub open spec fn weight_of(z: u32, current: u32) -> LayerWeight {
    LayerWeight {
        numerator: if z <= current {
            (z + FADE_OFFSET) as u64
        } else {
            0
        },
        denominator: (current + FADE_OFFSET) as u64,
    }
}

impl LayerWeight {
    /// The layer is drawn at full strength.
    pub fn is_full(&self) -> (r: bool)
        ensures
            r == (self.numerator == self.denominator),
    {
        self.numerator == self.denominator
    }

    /// The layer is not drawn at all.
    pub fn is_hidden(&self) -> (r: bool)
        ensures
            r == (self.numerator == 0),
    {
        self.numerator == 0
    }
}

/// Weight of layer `z` seen from layer `current`.
pub fn layer_weight(z: u32, current: u32) -> (r: LayerWeight)
    ensures
        r == weight_of(z, current),
{
    let k = FADE_OFFSET as u64;
    let numerator = if z <= current {
        z as u64 + k
    } else {
        0
    };
    LayerWeight { numerator, denominator: current as u64 + k }
}

/// Weights of layers `0 .. depth` seen from layer `current`, by layer.
pub fn update_visibility(depth: u32, current: u32) -> (r: Vec<LayerWeight>)
    ensures
        r@.len() == depth,
        forall|z: int| 0 <= z < depth ==> #[trigger] r@[z] == weight_of(z as u32, current),
{
    let mut r: Vec<LayerWeight> = Vec::new();
    let mut z: u32 = 0;
    while z < depth
        invariant
            z <= depth,
            r@.len() == z,
            forall|k: int| 0 <= k < z ==> #[trigger] r@[k] == weight_of(k as u32, current),
        decreases depth - z,
    {
        r.push(layer_weight(z, current));
        z = z + 1;
    }
    r
}

} // verus!
