//! The 4-D tensor shape model.
//!
//! A tensor value itself belongs to the external numerical runtime; what this
//! core reasons about is its shape, the read-only metadata
//! `[batch, height, width, channels]` that decides which operators are legal
//! and what every operator produces. `TensorShape` carries a shape at run
//! time; `ShapeModel` is its mathematical view, over unbounded integers.
use vstd::prelude::*;

verus! {

use crate::arith::{spec_div_ceil, div_ceil_usize};

/// A tensor shape as the evaluator handles it: `[batch, height, width,
/// channels]`, with `height` and `width` the spatial axes.
#[derive(Clone, Copy, PartialEq, Eq, Structural, Debug)]
pub struct TensorShape {
    pub batch: usize,
    pub height: usize,
    pub width: usize,
    pub channels: usize,
}

/// The mathematical view of a `TensorShape`.
pub ghost struct ShapeModel {
    pub batch: int,
    pub height: int,
    pub width: int,
    pub channels: int,
}

impl View for TensorShape {
    type V = ShapeModel;

    open spec fn view(&self) -> ShapeModel {
        ShapeModel {
            batch: self.batch as int,
            height: self.height as int,
            width: self.width as int,
            channels: self.channels as int,
        }
    }
}

/// A shape every axis of which is populated: the only shapes a forward pass
/// produces or consumes.
pub open spec fn shape_wf(t: ShapeModel) -> bool {
    &&& t.batch >= 1
    &&& t.height >= 1
    &&& t.width >= 1
    &&& t.channels >= 1
}

/// The shape left by an operator that only rewrites the channel axis, as a
/// same-padding convolution does.
pub open spec fn spec_with_channels(t: ShapeModel, channels: int) -> ShapeModel {
    ShapeModel { channels, ..t }
}

/// The shape left by spatial max-reduction by `(factor_h, factor_w)`: each
/// spatial axis shrinks to the ceiling of its quotient, so a trailing partial
/// window still yields one output position.
pub open spec fn spec_downsample(t: ShapeModel, factor_h: int, factor_w: int) -> ShapeModel {
    ShapeModel {
        height: spec_div_ceil(t.height, factor_h),
        width: spec_div_ceil(t.width, factor_w),
        ..t
    }
}

/// The shape left by nearest-neighbour upsampling by integer factors
/// `(sh, sw)`: each spatial axis is multiplied.
pub open spec fn spec_upsample(t: ShapeModel, sh: int, sw: int) -> ShapeModel {
    ShapeModel { height: t.height * sh, width: t.width * sw, ..t }
}

/// The shape left by cropping margins `(left, top, right, bottom)` off the
/// spatial axes.
pub open spec fn spec_crop(t: ShapeModel, left: int, top: int, right: int, bottom: int) -> ShapeModel {
    ShapeModel { height: t.height - top - bottom, width: t.width - left - right, ..t }
}

/// The shape left by channel-axis concatenation of two tensors with equal
/// batch and spatial axes.
pub open spec fn spec_concat(a: ShapeModel, b: ShapeModel) -> ShapeModel {
    ShapeModel { channels: a.channels + b.channels, ..a }
}

/// The low half of a centered split of an excess `d`: what a centered crop
/// removes at the top or left.
pub open spec fn spec_margin_low(d: int) -> int {
    d / 2
}

/// The high half of a centered split of an excess `d`: what a centered crop
/// removes at the bottom or right. When `d` is odd this side takes the
/// extra unit.
pub open spec fn spec_margin_high(d: int) -> int {
    d - d / 2
}

impl TensorShape {
    /// Downsampling, on machine integers.
    pub fn downsample(&self, factor_h: usize, factor_w: usize) -> (r: TensorShape)
        requires
            factor_h >= 1,
            factor_w >= 1,
        ensures
            r@ == spec_downsample(self@, factor_h as int, factor_w as int),
    {
        TensorShape {
            height: div_ceil_usize(self.height, factor_h),
            width: div_ceil_usize(self.width, factor_w),
            ..*self
        }
    }

    /// Upsampling by integer factors `(sw, sh)`, on machine integers.
    pub fn upsample(&self, sw: usize, sh: usize) -> (r: TensorShape)
        requires
            self@.height * sh <= usize::MAX,
            self@.width * sw <= usize::MAX,
        ensures
            r@ == spec_upsample(self@, sh as int, sw as int),
    {
        TensorShape { height: self.height * sh, width: self.width * sw, ..*self }
    }

    /// Cropping margins off the spatial axes, on machine integers.
    pub fn crop(&self, left: usize, top: usize, right: usize, bottom: usize) -> (r: TensorShape)
        requires
            top + bottom <= self@.height,
            left + right <= self@.width,
        ensures
            r@ == spec_crop(self@, left as int, top as int, right as int, bottom as int),
    {
        TensorShape {
            height: self.height - top - bottom,
            width: self.width - left - right,
            ..*self
        }
    }

    /// Channel-axis concatenation, the outer branch (`self`) first.
    pub fn concat(&self, other: &TensorShape) -> (r: TensorShape)
        requires
            self@.batch == other@.batch,
            self@.height == other@.height,
            self@.width == other@.width,
            self@.channels + other@.channels <= usize::MAX,
        ensures
            r@ == spec_concat(self@, other@),
    {
        TensorShape { channels: self.channels + other.channels, ..*self }
    }
}

/// Centered split of an excess `d` into `(low, high)` margins.
pub fn split_margin(d: usize) -> (m: (usize, usize))
    ensures
        m.0 == spec_margin_low(d as int),
        m.1 == spec_margin_high(d as int),
        m.0 + m.1 == d,
        m.0 <= m.1,
{
    let low = d / 2;
    (low, d - low)
}

/// Alignment law. For a deepest-level tensor of spatial size `(h, w)`
/// upsampled by any integer factors `(sh, sw)` whose products cover an outer
/// size `(outer_h, outer_w)`, the centered crop margins are each
/// non-negative, the margins of each axis sum exactly to that axis's excess
/// (`top + bottom == h * sh - outer_h`, `left + right == w * sw - outer_w`),
/// and cropping by them brings the spatial size exactly back to
/// `(outer_h, outer_w)`.
pub proof fn lemma_alignment(t: ShapeModel, sh: int, sw: int, outer_h: int, outer_w: int)
    requires
        outer_h >= 0,
        outer_w >= 0,
        outer_h <= t.height * sh,
        outer_w <= t.width * sw,
    ensures
        ({
            let up = spec_upsample(t, sh, sw);
            let dh = up.height - outer_h;
            let dw = up.width - outer_w;
            &&& spec_margin_low(dh) >= 0
            &&& spec_margin_high(dh) >= 0
            &&& spec_margin_low(dw) >= 0
            &&& spec_margin_high(dw) >= 0
            &&& spec_margin_low(dh) + spec_margin_high(dh) == dh
            &&& spec_margin_low(dw) + spec_margin_high(dw) == dw
            &&& spec_crop(
                up,
                spec_margin_low(dw),
                spec_margin_low(dh),
                spec_margin_high(dw),
                spec_margin_high(dh),
            ) == (ShapeModel { height: outer_h, width: outer_w, ..t })
        }),
{
}

} // verus!
