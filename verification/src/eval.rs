//! The aligned forward evaluation of a stage tree over a tensor shape.
//!
//! At every level the evaluator applies the two entry convolutions, and if
//! the stage has a deeper child: downsamples, evaluates the child, upsamples
//! by per-axis ceiling factors so the result covers the outer size, crops
//! the overshoot away with centered margins, and concatenates the outer
//! branch with the realigned inner branch before the merge and exit
//! convolutions. The contracts prove the same-padding property: whatever
//! the depth, the output keeps the input's batch and spatial axes.
use vstd::prelude::*;

verus! {

use crate::arith::{spec_div_ceil, div_ceil_usize, lemma_div_ceil_bounds};
use crate::shape::{
    TensorShape, ShapeModel, shape_wf, spec_with_channels, spec_downsample, spec_upsample,
    spec_crop, spec_concat, spec_margin_low, spec_margin_high, split_margin, lemma_alignment,
};
use crate::topology::{UNet, wf, is_build, build_fits, lemma_build_wf};

/// The shape a forward pass leaves at one stage, deepest level first: the
/// entry convolutions, then (below the leaf) downsample, recursive
/// evaluation, upsample-to-cover, centered crop-to-match and channel
/// concatenation, then the merge and exit convolutions.
pub open spec fn spec_eval(s: UNet, t: ShapeModel) -> ShapeModel
    decreases s,
{
    let x = spec_with_channels(
        spec_with_channels(t, s.entry_conv.out_channels as int),
        s.entry_conv2.out_channels as int,
    );
    let merged = match s.inner {
        Some(inner) => {
            let x0 = spec_downsample(x, inner.pool.factor_h as int, inner.pool.factor_w as int);
            let x1 = spec_eval(*inner.child, x0);
            let sh = spec_div_ceil(x.height, x1.height);
            let sw = spec_div_ceil(x.width, x1.width);
            let x2 = spec_upsample(x1, sh, sw);
            let dh = x2.height - x.height;
            let dw = x2.width - x.width;
            let x3 = spec_crop(
                x2,
                spec_margin_low(dw),
                spec_margin_low(dh),
                spec_margin_high(dw),
                spec_margin_high(dh),
            );
            spec_concat(x, x3)
        },
        None => x,
    };
    spec_with_channels(
        spec_with_channels(merged, s.merge_conv.out_channels as int),
        s.exit_conv.out_channels as int,
    )
}

/// Same-padding law: over any well-formed stage tree, the evaluated shape
/// keeps the input's batch and spatial axes, and its channel axis is what
/// the exit convolution produces — at every recursion depth.
pub proof fn lemma_same_padding(s: UNet, t: ShapeModel)
    requires
        wf(s),
        t.height >= 1,
        t.width >= 1,
    ensures
        spec_eval(s, t).batch == t.batch,
        spec_eval(s, t).height == t.height,
        spec_eval(s, t).width == t.width,
        spec_eval(s, t).channels == s.exit_conv.out_channels,
    decreases s,
{
    match s.inner {
        Some(inner) => {
            let x = spec_with_channels(
                spec_with_channels(t, s.entry_conv.out_channels as int),
                s.entry_conv2.out_channels as int,
            );
            let x0 = spec_downsample(x, inner.pool.factor_h as int, inner.pool.factor_w as int);
            lemma_div_ceil_bounds(x.height, inner.pool.factor_h as int);
            lemma_div_ceil_bounds(x.width, inner.pool.factor_w as int);
            lemma_same_padding(*inner.child, x0);
            let x1 = spec_eval(*inner.child, x0);
            let sh = spec_div_ceil(x.height, x1.height);
            let sw = spec_div_ceil(x.width, x1.width);
            lemma_div_ceil_bounds(x.height, x1.height);
            lemma_div_ceil_bounds(x.width, x1.width);
            lemma_alignment(x1, sh, sw, x.height, x.width);
        },
        None => {},
    }
}

/// Depth-0 equivalence law: a leaf stage evaluates as the flat
/// four-convolution pipeline — entry, entry2, merge, exit — with no
/// downsampling, upsampling, cropping or concatenation anywhere in the
/// shape's path.
pub proof fn lemma_depth0_flat(s: UNet, t: ShapeModel)
    requires
        s.inner is None,
    ensures
        spec_eval(s, t) == spec_with_channels(
            spec_with_channels(
                spec_with_channels(
                    spec_with_channels(t, s.entry_conv.out_channels as int),
                    s.entry_conv2.out_channels as int,
                ),
                s.merge_conv.out_channels as int,
            ),
            s.exit_conv.out_channels as int,
        ),
{
}

/// Same-padding law over a freshly built tree, at every depth: evaluating
/// the tree that `(inputs, outputs, depth, width, kernel)` builds keeps the
/// input's batch and spatial axes and produces `outputs` channels.
pub proof fn lemma_build_eval_same_padding(
    s: UNet,
    t: ShapeModel,
    inputs: usize,
    outputs: usize,
    depth: usize,
    width: usize,
    kernel: usize,
)
    requires
        is_build(s, inputs, outputs, depth, width, kernel),
        inputs >= 1,
        outputs >= 1,
        width >= 1,
        kernel >= 1,
        build_fits(width as int, depth as nat),
        t.height >= 1,
        t.width >= 1,
    ensures
        spec_eval(s, t).batch == t.batch,
        spec_eval(s, t).height == t.height,
        spec_eval(s, t).width == t.width,
        spec_eval(s, t).channels == outputs,
{
    lemma_build_wf(s, inputs, outputs, depth, width, kernel);
    lemma_same_padding(s, t);
}

impl UNet {
    /// Evaluates the stage tree over an input shape, returning the output
    /// shape of a forward pass. The output keeps the input's batch, height
    /// and width (the same-padding property), and carries the channels of
    /// the root's exit convolution; a spatial bound leaves room for the
    /// upsampling overshoot before it is cropped away.
    pub fn eval(&self, input: TensorShape) -> (out: TensorShape)
        requires
            wf(*self),
            shape_wf(input@),
            input@.channels == self.entry_conv.in_channels,
            2 * input@.height <= usize::MAX,
            2 * input@.width <= usize::MAX,
        ensures
            out@ == spec_eval(*self, input@),
            out@.batch == input@.batch,
            out@.height == input@.height,
            out@.width == input@.width,
            out@.channels == self.exit_conv.out_channels,
            shape_wf(out@),
        decreases *self,
    {
        let x = self.entry_conv.apply(&input);
        let x = self.entry_conv2.apply(&x);
        let merged = match &self.inner {
            Some(inner) => {
                let x0 = inner.pool.apply(&x);
                proof {
                    lemma_div_ceil_bounds(x@.height, inner.pool.factor_h as int);
                    lemma_div_ceil_bounds(x@.width, inner.pool.factor_w as int);
                }
                let x1 = inner.child.eval(x0);
                proof {
                    lemma_div_ceil_bounds(x@.height, x1@.height);
                    lemma_div_ceil_bounds(x@.width, x1@.width);
                    lemma_alignment(
                        x1@,
                        spec_div_ceil(x@.height, x1@.height),
                        spec_div_ceil(x@.width, x1@.width),
                        x@.height,
                        x@.width,
                    );
                }
                let sh = div_ceil_usize(x.height, x1.height);
                let sw = div_ceil_usize(x.width, x1.width);
                let x2 = x1.upsample(sw, sh);
                let vertical = split_margin(x2.height - x.height);
                let horizontal = split_margin(x2.width - x.width);
                let x3 = x2.crop(horizontal.0, vertical.0, horizontal.1, vertical.1);
                x.concat(&x3)
            },
            None => x,
        };
        let y = self.merge_conv.apply(&merged);
        self.exit_conv.apply(&y)
    }
}

} // verus!
