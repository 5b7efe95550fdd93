//! The recursive encoder-decoder topology.
//!
//! A `UNet` value is one stage of the tree: two entry convolutions, an
//! optional pooled deeper child, a merge convolution that consumes the skip
//! connection, and an exit convolution. `UNet::new` builds the whole tree to
//! a requested depth, doubling the channel width at every level.
use vstd::prelude::*;

verus! {

use crate::arith::{pow2, lemma_pow2_pos};
use crate::shape::{TensorShape, spec_with_channels, spec_downsample};

/// The configuration of one 2-D convolution operator: how many channels it
/// consumes and produces, and its kernel extent. The learnable kernel
/// weights themselves live in the external runtime.
#[derive(Clone, Copy, PartialEq, Eq, Structural, Debug)]
pub struct ConvConfig {
    pub in_channels: usize,
    pub out_channels: usize,
    pub kernel_h: usize,
    pub kernel_w: usize,
}

/// The configuration of one spatial max-reduction operator: its reduction
/// factor per spatial axis. It has no learnable parameters.
#[derive(Clone, Copy, PartialEq, Eq, Structural, Debug)]
pub struct PoolConfig {
    pub factor_h: usize,
    pub factor_w: usize,
}

impl Default for PoolConfig {
    /// The default pooling configuration: reduction factor 2 per spatial
    /// axis.
    fn default() -> (d: PoolConfig)
        ensures
            d == (PoolConfig { factor_h: 2, factor_w: 2 }),
    {
        PoolConfig { factor_h: 2, factor_w: 2 }
    }
}

/// The link from a stage to the next deeper stage: the downsampling operator
/// and the child it feeds.
pub struct Inner {
    pub pool: PoolConfig,
    pub child: Box<UNet>,
}

/// One stage of the recursive topology; the root stage owns the whole tree.
/// A stage with `inner == None` is the deepest leaf.
pub struct UNet {
    pub entry_conv: ConvConfig,
    pub entry_conv2: ConvConfig,
    pub inner: Option<Inner>,
    pub merge_conv: ConvConfig,
    pub exit_conv: ConvConfig,
}

/// A square convolution configuration from `in_c` to `out_c` channels.
pub open spec fn conv_cfg(in_c: usize, out_c: usize, k: usize) -> ConvConfig {
    ConvConfig { in_channels: in_c, out_channels: out_c, kernel_h: k, kernel_w: k }
}

/// Every channel and kernel count of a convolution is positive; a
/// non-positive one is a fatal configuration error.
pub open spec fn conv_valid(c: ConvConfig) -> bool {
    &&& c.in_channels >= 1
    &&& c.out_channels >= 1
    &&& c.kernel_h >= 1
    &&& c.kernel_w >= 1
}

/// `s` is exactly the stage tree that building with these parameters
/// produces: entry convolutions `inputs -> width -> width`, below a positive
/// depth a factor-2 pool and a child built with doubled width and outputs,
/// a merge convolution fed by the skip connection, and an exit convolution
/// `width -> outputs`.
pub open spec fn is_build(
    s: UNet,
    inputs: usize,
    outputs: usize,
    depth: usize,
    width: usize,
    kernel: usize,
) -> bool
    decreases depth,
{
    &&& s.entry_conv == conv_cfg(inputs, width, kernel)
    &&& s.entry_conv2 == conv_cfg(width, width, kernel)
    &&& match s.inner {
        Some(inner) => {
            &&& depth > 0
            &&& inner.pool == (PoolConfig { factor_h: 2, factor_w: 2 })
            &&& is_build(
                *inner.child,
                width,
                (width * 2) as usize,
                (depth - 1) as usize,
                (width * 2) as usize,
                kernel,
            )
        },
        None => depth == 0,
    }
    &&& s.merge_conv == conv_cfg(
        if depth > 0 {
            (width * 3) as usize
        } else {
            width
        },
        width,
        kernel,
    )
    &&& s.exit_conv == conv_cfg(width, outputs, kernel)
}

/// Structural well-formedness of a stage tree: every convolution is valid,
/// the channel counts chain up (entry width feeds entry2, merge and exit;
/// the merge convolution consumes the local width plus whatever the child
/// returns), and pooling factors are positive.
pub open spec fn wf(s: UNet) -> bool
    decreases s,
{
    let width = s.entry_conv.out_channels;
    &&& conv_valid(s.entry_conv)
    &&& conv_valid(s.entry_conv2)
    &&& conv_valid(s.merge_conv)
    &&& conv_valid(s.exit_conv)
    &&& s.entry_conv2.in_channels == width
    &&& s.entry_conv2.out_channels == width
    &&& s.merge_conv.out_channels == width
    &&& s.exit_conv.in_channels == width
    &&& match s.inner {
        Some(inner) => {
            &&& inner.pool.factor_h >= 1
            &&& inner.pool.factor_w >= 1
            &&& wf(*inner.child)
            &&& inner.child.entry_conv.in_channels == width
            &&& s.merge_conv.in_channels == width + inner.child.exit_conv.out_channels
        },
        None => s.merge_conv.in_channels == width,
    }
}

/// The recursion depth of a stage tree: the number of inner links from the
/// root to the leaf. Fixed at construction, never mutated.
pub open spec fn spec_depth(s: UNet) -> nat
    decreases s,
{
    match s.inner {
        Some(inner) => 1 + spec_depth(*inner.child),
        None => 0,
    }
}

/// The widest channel counts a build with this width and depth produces
/// (three times the doubled-`depth`-times width) fit in a machine integer.
pub open spec fn build_fits(width: int, depth: nat) -> bool {
    3 * width * (pow2(depth) as int) <= usize::MAX
}

/// A built tree is well formed, its depth is the requested depth, and its
/// outermost convolutions consume `inputs` and produce `outputs`.
pub proof fn lemma_build_wf(
    s: UNet,
    inputs: usize,
    outputs: usize,
    depth: usize,
    width: usize,
    kernel: usize,
)
    requires
        is_build(s, inputs, outputs, depth, width, kernel),
        inputs >= 1,
        outputs >= 1,
        width >= 1,
        kernel >= 1,
        build_fits(width as int, depth as nat),
    ensures
        wf(s),
        spec_depth(s) == depth,
        s.entry_conv.in_channels == inputs,
        s.exit_conv.out_channels == outputs,
    decreases depth,
{
    match s.inner {
        Some(inner) => {
            let p = pow2(depth as nat) as int;
            let p1 = pow2((depth - 1) as nat) as int;
            lemma_pow2_pos((depth - 1) as nat);
            assert(p == 2 * p1);
            assert(3 * width <= 3 * width * p && 2 * width <= 3 * width * p)
                by (nonlinear_arith)
                requires
                    width >= 1,
                    p >= 2,
                    p == 2 * p1,
                    p1 >= 1;
            assert(3 * (2 * width) * p1 == 3 * width * p) by (nonlinear_arith)
                requires
                    p == 2 * p1;
            lemma_build_wf(
                *inner.child,
                width,
                (width * 2) as usize,
                (depth - 1) as usize,
                (width * 2) as usize,
                kernel,
            );
        },
        None => {},
    }
}

/// Channel-count law: the merge convolution of a built stage takes exactly
/// the local width plus the child's output channels when an inner link is
/// present, and the local width alone when it is not.
pub proof fn lemma_merge_channels(
    s: UNet,
    inputs: usize,
    outputs: usize,
    depth: usize,
    width: usize,
    kernel: usize,
)
    requires
        is_build(s, inputs, outputs, depth, width, kernel),
        width >= 1,
        build_fits(width as int, depth as nat),
    ensures
        match s.inner {
            Some(inner) => s.merge_conv.in_channels == width
                + inner.child.exit_conv.out_channels,
            None => s.merge_conv.in_channels == width,
        },
{
    match s.inner {
        Some(inner) => {
            reveal_with_fuel(is_build, 2);
            let p = pow2(depth as nat) as int;
            lemma_pow2_pos((depth - 1) as nat);
            assert(p == 2 * pow2((depth - 1) as nat));
            assert(3 * width <= 3 * width * p && 2 * width <= 3 * width * p)
                by (nonlinear_arith)
                requires
                    width >= 1,
                    p >= 1;
        },
        None => {},
    }
}

/// Topology idempotence law: two trees built from identical parameters are
/// value-equal, down to every channel, kernel and pooling configuration.
pub proof fn lemma_build_idempotent(
    s1: UNet,
    s2: UNet,
    inputs: usize,
    outputs: usize,
    depth: usize,
    width: usize,
    kernel: usize,
)
    requires
        is_build(s1, inputs, outputs, depth, width, kernel),
        is_build(s2, inputs, outputs, depth, width, kernel),
    ensures
        s1 == s2,
    decreases depth,
{
    match (s1.inner, s2.inner) {
        (Some(i1), Some(i2)) => {
            lemma_build_idempotent(
                *i1.child,
                *i2.child,
                width,
                (width * 2) as usize,
                (depth - 1) as usize,
                (width * 2) as usize,
                kernel,
            );
        },
        _ => {},
    }
}

impl ConvConfig {
    /// Whether every channel and kernel count is positive; a convolution
    /// failing this is a fatal configuration error.
    pub fn is_valid(&self) -> (r: bool)
        ensures
            r == conv_valid(*self),
    {
        self.in_channels >= 1 && self.out_channels >= 1 && self.kernel_h >= 1
            && self.kernel_w >= 1
    }

    /// The shape a same-padding convolution with this configuration leaves:
    /// batch and spatial axes kept, channel axis rewritten to
    /// `out_channels`.
    pub fn apply(&self, t: &TensorShape) -> (r: TensorShape)
        requires
            t@.channels == self.in_channels,
        ensures
            r@ == spec_with_channels(t@, self.out_channels as int),
    {
        TensorShape { channels: self.out_channels, ..*t }
    }
}

impl PoolConfig {
    /// The shape this spatial max-reduction leaves: each spatial axis
    /// shrinks to the ceiling of its quotient by the reduction factor.
    pub fn apply(&self, t: &TensorShape) -> (r: TensorShape)
        requires
            self.factor_h >= 1,
            self.factor_w >= 1,
        ensures
            r@ == spec_downsample(t@, self.factor_h as int, self.factor_w as int),
    {
        t.downsample(self.factor_h, self.factor_w)
    }
}

impl UNet {
    /// Builds the stage tree for the given configuration: entry convolutions
    /// `inputs -> width -> width`; below a positive depth, a factor-2 pool
    /// and a child built from `(width, width * 2, depth - 1, width * 2)`; a
    /// merge convolution consuming the concatenated skip connection; and an
    /// exit convolution `width -> outputs`.
    pub fn new(
        inputs: usize,
        outputs: usize,
        depth: usize,
        width: usize,
        kernelsize: usize,
    ) -> (s: UNet)
        requires
            inputs >= 1,
            outputs >= 1,
            width >= 1,
            kernelsize >= 1,
            build_fits(width as int, depth as nat),
        ensures
            is_build(s, inputs, outputs, depth, width, kernelsize),
            wf(s),
            spec_depth(s) == depth,
            s.entry_conv.in_channels == inputs,
            s.exit_conv.out_channels == outputs,
        decreases depth,
    {
        let entry_conv = ConvConfig {
            in_channels: inputs,
            out_channels: width,
            kernel_h: kernelsize,
            kernel_w: kernelsize,
        };
        let entry_conv2 = ConvConfig {
            in_channels: width,
            out_channels: width,
            kernel_h: kernelsize,
            kernel_w: kernelsize,
        };
        let exit_conv = ConvConfig {
            in_channels: width,
            out_channels: outputs,
            kernel_h: kernelsize,
            kernel_w: kernelsize,
        };
        let s = if depth > 0 {
            proof {
                let p = pow2(depth as nat) as int;
                let p1 = pow2((depth - 1) as nat) as int;
                lemma_pow2_pos((depth - 1) as nat);
                assert(p == 2 * p1);
                assert(3 * width <= 3 * width * p && 2 * width <= 3 * width * p)
                    by (nonlinear_arith)
                    requires
                        width >= 1,
                        p >= 2,
                        p == 2 * p1,
                        p1 >= 1;
                assert(3 * (2 * width) * p1 == 3 * width * p) by (nonlinear_arith)
                    requires
                        p == 2 * p1;
            }
            let w2 = width * 2;
            let child = UNet::new(width, w2, depth - 1, w2, kernelsize);
            UNet {
                entry_conv,
                entry_conv2,
                inner: Some(
                    Inner { pool: PoolConfig::default(), child: Box::new(child) },
                ),
                merge_conv: ConvConfig {
                    in_channels: width * 3,
                    out_channels: width,
                    kernel_h: kernelsize,
                    kernel_w: kernelsize,
                },
                exit_conv,
            }
        } else {
            UNet {
                entry_conv,
                entry_conv2,
                inner: None,
                merge_conv: ConvConfig {
                    in_channels: width,
                    out_channels: width,
                    kernel_h: kernelsize,
                    kernel_w: kernelsize,
                },
                exit_conv,
            }
        };
        proof {
            lemma_build_wf(s, inputs, outputs, depth, width, kernelsize);
        }
        s
    }

    /// Decides well-formedness of the whole tree, so that a configuration
    /// error — a non-positive count, or a merge convolution that does not
    /// consume exactly the local width plus the child's output channels —
    /// surfaces before any evaluation.
    pub fn check_wf(&self) -> (r: bool)
        ensures
            r == wf(*self),
        decreases *self,
    {
        let width = self.entry_conv.out_channels;
        let chain_ok = self.entry_conv.is_valid() && self.entry_conv2.is_valid()
            && self.merge_conv.is_valid() && self.exit_conv.is_valid()
            && self.entry_conv2.in_channels == width && self.entry_conv2.out_channels == width
            && self.merge_conv.out_channels == width && self.exit_conv.in_channels == width;
        match &self.inner {
            Some(inner) => {
                chain_ok && inner.pool.factor_h >= 1 && inner.pool.factor_w >= 1
                    && inner.child.check_wf() && inner.child.entry_conv.in_channels == width
                    && self.merge_conv.in_channels >= width
                    && self.merge_conv.in_channels - width == inner.child.exit_conv.out_channels
            },
            None => chain_ok && self.merge_conv.in_channels == width,
        }
    }

    /// Whether two stage trees carry the same configuration throughout:
    /// every channel count, kernel extent and pooling factor equal, level by
    /// level.
    pub fn same_config(&self, other: &UNet) -> (r: bool)
        ensures
            r <==> *self == *other,
        decreases *self,
    {
        let convs_eq = self.entry_conv == other.entry_conv
            && self.entry_conv2 == other.entry_conv2
            && self.merge_conv == other.merge_conv
            && self.exit_conv == other.exit_conv;
        match (&self.inner, &other.inner) {
            (Some(i1), Some(i2)) => {
                convs_eq && i1.pool == i2.pool && i1.child.same_config(&i2.child)
            },
            (None, None) => convs_eq,
            _ => false,
        }
    }
}

} // verus!
