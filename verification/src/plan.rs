//! The operation plan of a forward pass.
//!
//! The external runtime executes operators; this core decides which
//! operators occur and in what shape-dependent order. `UNet::plan` lays that
//! order out explicitly: the exact sequence of convolutions, activations,
//! downsampling, upsampling, cropping and concatenation that evaluating a
//! stage tree over a given input shape performs, with every upsampling
//! factor and crop margin already resolved against the shapes.
use vstd::prelude::*;

verus! {

use crate::arith::{spec_div_ceil, div_ceil_usize, lemma_div_ceil_bounds};
use crate::shape::{
    TensorShape, ShapeModel, shape_wf, spec_with_channels, spec_downsample, spec_upsample,
    spec_margin_low, spec_margin_high, split_margin, lemma_alignment,
};
use crate::topology::{ConvConfig, PoolConfig, UNet, wf};
use crate::eval::spec_eval;

/// One operator application of a forward pass, in the order the runtime is
/// asked to perform it.
#[derive(Clone, Copy, PartialEq, Eq, Structural, Debug)]
pub enum Op {
    /// A 2-D convolution with this configuration.
    Conv(ConvConfig),
    /// The elementwise activation.
    Activation,
    /// Spatial max-reduction with this configuration.
    Downsample(PoolConfig),
    /// Nearest-neighbour upsampling by these per-axis integer factors.
    Upsample { sh: usize, sw: usize },
    /// A rectangular crop by these margins.
    Crop { left: usize, top: usize, right: usize, bottom: usize },
    /// Channel-axis concatenation of the outer branch with the realigned
    /// inner branch, outer branch first.
    Concat,
}

/// Which of the two observed evaluation variants to plan: with an
/// activation after every convolution, or with none. Both are valid
/// configurations of the same topology.
#[derive(Clone, Copy, PartialEq, Eq, Structural, Debug)]
pub struct EvalConfig {
    pub activation: bool,
}

impl Default for EvalConfig {
    /// The default variant follows every convolution with an activation.
    fn default() -> (d: EvalConfig)
        ensures
            d == (EvalConfig { activation: true }),
    {
        EvalConfig { activation: true }
    }
}

/// The plan fragment of one convolution: the convolution itself, followed by
/// an activation when the configuration asks for one.
pub open spec fn conv_ops(c: ConvConfig, cfg: EvalConfig) -> Seq<Op> {
    if cfg.activation {
        seq![Op::Conv(c), Op::Activation]
    } else {
        seq![Op::Conv(c)]
    }
}

/// The full operation plan of evaluating `s` over the shape `t`: entry
/// convolutions; below the leaf a downsample, the child's whole plan, the
/// upsample-to-cover, the centered crop-to-match and the concatenation; then
/// the merge and exit convolutions.
pub open spec fn spec_plan(s: UNet, t: ShapeModel, cfg: EvalConfig) -> Seq<Op>
    decreases s,
{
    let x = spec_with_channels(
        spec_with_channels(t, s.entry_conv.out_channels as int),
        s.entry_conv2.out_channels as int,
    );
    let mid = match s.inner {
        Some(inner) => {
            let x0 = spec_downsample(x, inner.pool.factor_h as int, inner.pool.factor_w as int);
            let x1 = spec_eval(*inner.child, x0);
            let sh = spec_div_ceil(x.height, x1.height);
            let sw = spec_div_ceil(x.width, x1.width);
            let x2 = spec_upsample(x1, sh, sw);
            let dh = x2.height - x.height;
            let dw = x2.width - x.width;
            seq![Op::Downsample(inner.pool)] + spec_plan(*inner.child, x0, cfg) + seq![
                Op::Upsample { sh: sh as usize, sw: sw as usize },
                Op::Crop {
                    left: spec_margin_low(dw) as usize,
                    top: spec_margin_low(dh) as usize,
                    right: spec_margin_high(dw) as usize,
                    bottom: spec_margin_high(dh) as usize,
                },
                Op::Concat,
            ]
        },
        None => Seq::empty(),
    };
    conv_ops(s.entry_conv, cfg) + conv_ops(s.entry_conv2, cfg) + mid + conv_ops(
        s.merge_conv,
        cfg,
    ) + conv_ops(s.exit_conv, cfg)
}

/// Depth-0 plan law: the plan of a leaf stage is the flat four-convolution
/// pipeline — entry, entry2, merge, exit, each with its configured
/// activation — and holds no downsample, upsample, crop or concatenation.
pub proof fn lemma_depth0_plan_flat(s: UNet, t: ShapeModel, cfg: EvalConfig)
    requires
        s.inner is None,
    ensures
        spec_plan(s, t, cfg) =~= conv_ops(s.entry_conv, cfg) + conv_ops(s.entry_conv2, cfg)
            + conv_ops(s.merge_conv, cfg) + conv_ops(s.exit_conv, cfg),
{
}

impl UNet {
    /// Lays out the operation plan of a forward pass of this stage tree over
    /// the input shape, with every upsampling factor and crop margin
    /// resolved, and returns it together with the output shape.
    pub fn plan(&self, input: TensorShape, cfg: EvalConfig) -> (r: (Vec<Op>, TensorShape))
        requires
            wf(*self),
            shape_wf(input@),
            input@.channels == self.entry_conv.in_channels,
            2 * input@.height <= usize::MAX,
            2 * input@.width <= usize::MAX,
        ensures
            r.0@ == spec_plan(*self, input@, cfg),
            r.1@ == spec_eval(*self, input@),
        decreases *self,
    {
        let mut ops: Vec<Op> = Vec::new();
        ops.push(Op::Conv(self.entry_conv));
        if cfg.activation {
            ops.push(Op::Activation);
        }
        ops.push(Op::Conv(self.entry_conv2));
        if cfg.activation {
            ops.push(Op::Activation);
        }
        let x = self.entry_conv2.apply(&self.entry_conv.apply(&input));
        let merged = match &self.inner {
            Some(inner) => {
                ops.push(Op::Downsample(inner.pool));
                let x0 = inner.pool.apply(&x);
                proof {
                    lemma_div_ceil_bounds(x@.height, inner.pool.factor_h as int);
                    lemma_div_ceil_bounds(x@.width, inner.pool.factor_w as int);
                }
                let child = inner.child.plan(x0, cfg);
                let mut child_ops = child.0;
                let x1 = child.1;
                ops.append(&mut child_ops);
                proof {
                    crate::eval::lemma_same_padding(*inner.child, x0@);
                    lemma_div_ceil_bounds(x@.height, x1@.height);
                    lemma_div_ceil_bounds(x@.width, x1@.width);
                    lemma_alignment(
                        x1@,
                        spec_div_ceil(x@.height, x1@.height),
                        spec_div_ceil(x@.width, x1@.width),
                        x@.height,
                        x@.width,
                    );
                }
                let sh = div_ceil_usize(x.height, x1.height);
                let sw = div_ceil_usize(x.width, x1.width);
                let x2 = x1.upsample(sw, sh);
                let vertical = split_margin(x2.height - x.height);
                let horizontal = split_margin(x2.width - x.width);
                ops.push(Op::Upsample { sh, sw });
                ops.push(
                    Op::Crop {
                        left: horizontal.0,
                        top: vertical.0,
                        right: horizontal.1,
                        bottom: vertical.1,
                    },
                );
                ops.push(Op::Concat);
                let x3 = x2.crop(horizontal.0, vertical.0, horizontal.1, vertical.1);
                x.concat(&x3)
            },
            None => x,
        };
        ops.push(Op::Conv(self.merge_conv));
        if cfg.activation {
            ops.push(Op::Activation);
        }
        ops.push(Op::Conv(self.exit_conv));
        if cfg.activation {
            ops.push(Op::Activation);
        }
        let y = self.exit_conv.apply(&self.merge_conv.apply(&merged));
        proof {
            assert(ops@ =~= spec_plan(*self, input@, cfg));
        }
        (ops, y)
    }
}

} // verus!
