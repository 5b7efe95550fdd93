use unet_topology::plan::{EvalConfig, Op};
use unet_topology::shape::TensorShape;
use unet_topology::topology::{ConvConfig, UNet};

fn shape(batch: usize, height: usize, width: usize, channels: usize) -> TensorShape {
    TensorShape { batch, height, width, channels }
}

fn conv(in_channels: usize, out_channels: usize, k: usize) -> ConvConfig {
    ConvConfig { in_channels, out_channels, kernel_h: k, kernel_w: k }
}

#[test]
fn default_config_applies_activations() {
    assert_eq!(EvalConfig::default(), EvalConfig { activation: true });
}

#[test]
fn depth_zero_plan_is_the_flat_pipeline() {
    let net = UNet::new(2, 3, 0, 8, 3);
    let (ops, out) = net.plan(shape(1, 40, 30, 2), EvalConfig { activation: false });
    assert_eq!(
        ops,
        vec![
            Op::Conv(conv(2, 8, 3)),
            Op::Conv(conv(8, 8, 3)),
            Op::Conv(conv(8, 8, 3)),
            Op::Conv(conv(8, 3, 3)),
        ]
    );
    assert_eq!(out, shape(1, 40, 30, 3));
}

#[test]
fn activations_follow_every_convolution_when_configured() {
    let net = UNet::new(2, 3, 0, 8, 3);
    let (ops, _) = net.plan(shape(1, 40, 30, 2), EvalConfig { activation: true });
    assert_eq!(ops.len(), 8);
    for (i, op) in ops.iter().enumerate() {
        if i % 2 == 0 {
            assert!(matches!(op, Op::Conv(_)));
        } else {
            assert_eq!(*op, Op::Activation);
        }
    }
}

#[test]
fn odd_scenario_plan_resolves_factors_and_margins() {
    // Outer size 65: the inner branch comes back at 33, the resolved
    // upsampling factor is 2 per axis, and the centered crop takes one unit
    // off the bottom and the right.
    let net = UNet::new(1, 1, 1, 8, 3);
    let (ops, out) = net.plan(shape(1, 65, 65, 1), EvalConfig { activation: false });
    assert_eq!(
        ops,
        vec![
            Op::Conv(conv(1, 8, 3)),
            Op::Conv(conv(8, 8, 3)),
            Op::Downsample(unet_topology::topology::PoolConfig { factor_h: 2, factor_w: 2 }),
            Op::Conv(conv(8, 16, 3)),
            Op::Conv(conv(16, 16, 3)),
            Op::Conv(conv(16, 16, 3)),
            Op::Conv(conv(16, 16, 3)),
            Op::Upsample { sh: 2, sw: 2 },
            Op::Crop { left: 0, top: 0, right: 1, bottom: 1 },
            Op::Concat,
            Op::Conv(conv(24, 8, 3)),
            Op::Conv(conv(8, 1, 3)),
        ]
    );
    assert_eq!(out, shape(1, 65, 65, 1));
}

#[test]
fn even_scenario_plan_has_zero_margins() {
    let net = UNet::new(1, 1, 1, 8, 3);
    let (ops, out) = net.plan(shape(1, 64, 64, 1), EvalConfig { activation: false });
    assert!(ops.contains(&Op::Upsample { sh: 2, sw: 2 }));
    assert!(ops.contains(&Op::Crop { left: 0, top: 0, right: 0, bottom: 0 }));
    assert_eq!(out, shape(1, 64, 64, 1));
}

#[test]
fn plan_output_shape_matches_eval() {
    let input = shape(2, 100, 77, 3);
    for depth in 0..4 {
        let net = UNet::new(3, 2, depth, 4, 3);
        let (_, out) = net.plan(input, EvalConfig::default());
        assert_eq!(out, net.eval(input));
    }
}
