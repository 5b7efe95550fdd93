use unet_topology::topology::{ConvConfig, PoolConfig, UNet};

fn conv(in_channels: usize, out_channels: usize, k: usize) -> ConvConfig {
    ConvConfig { in_channels, out_channels, kernel_h: k, kernel_w: k }
}

#[test]
fn default_pool_config_is_factor_two() {
    let pool = PoolConfig::default();
    assert_eq!(pool.factor_h, 2);
    assert_eq!(pool.factor_w, 2);
}

#[test]
fn depth_zero_build_is_a_flat_stage() {
    let net = UNet::new(1, 1, 0, 8, 3);
    assert_eq!(net.entry_conv, conv(1, 8, 3));
    assert_eq!(net.entry_conv2, conv(8, 8, 3));
    assert!(net.inner.is_none());
    assert_eq!(net.merge_conv, conv(8, 8, 3));
    assert_eq!(net.exit_conv, conv(8, 1, 3));
}

#[test]
fn depth_one_build_doubles_width_in_the_child() {
    let net = UNet::new(1, 1, 1, 8, 3);
    assert_eq!(net.entry_conv, conv(1, 8, 3));
    assert_eq!(net.entry_conv2, conv(8, 8, 3));
    let inner = net.inner.as_ref().expect("depth 1 must have an inner link");
    assert_eq!(inner.pool.factor_h, 2);
    assert_eq!(inner.pool.factor_w, 2);
    let child = &inner.child;
    assert_eq!(child.entry_conv, conv(8, 16, 3));
    assert_eq!(child.entry_conv2, conv(16, 16, 3));
    assert!(child.inner.is_none());
    assert_eq!(child.merge_conv, conv(16, 16, 3));
    assert_eq!(child.exit_conv, conv(16, 16, 3));
    assert_eq!(net.merge_conv, conv(24, 8, 3));
    assert_eq!(net.exit_conv, conv(8, 1, 3));
}

#[test]
fn merge_conv_consumes_width_plus_child_outputs() {
    let net = UNet::new(3, 5, 2, 4, 3);
    let inner = net.inner.as_ref().expect("depth 2 must have an inner link");
    // width 4 plus the child's 8 output channels.
    assert_eq!(net.merge_conv.in_channels, 4 + inner.child.exit_conv.out_channels);
    assert_eq!(net.merge_conv.in_channels, 12);
    let grandchild = inner.child.inner.as_ref().expect("child of depth 2 has a child");
    // width 8 plus the grandchild's 16 output channels.
    assert_eq!(inner.child.merge_conv.in_channels, 8 + grandchild.child.exit_conv.out_channels);
    assert_eq!(inner.child.merge_conv.in_channels, 24);
    // the leaf consumes its width alone.
    assert_eq!(grandchild.child.merge_conv.in_channels, 16);
}

#[test]
fn built_trees_are_well_formed() {
    assert!(UNet::new(1, 1, 0, 8, 3).check_wf());
    assert!(UNet::new(3, 5, 3, 4, 5).check_wf());
}

#[test]
fn broken_merge_channels_fail_the_configuration_check() {
    let mut net = UNet::new(1, 1, 1, 8, 3);
    // A merge convolution that does not consume the local width plus the
    // child's output channels is a configuration error.
    net.merge_conv.in_channels = 8 + 8;
    assert!(!net.check_wf());
    let mut leaf = UNet::new(1, 1, 0, 8, 3);
    leaf.entry_conv.kernel_h = 0;
    assert!(!leaf.check_wf());
}

#[test]
fn build_twice_is_value_equal() {
    let a = UNet::new(1, 1, 3, 8, 3);
    let b = UNet::new(1, 1, 3, 8, 3);
    assert!(a.same_config(&b));
    assert!(b.same_config(&a));
}

#[test]
fn different_parameters_build_different_trees() {
    let a = UNet::new(1, 1, 1, 8, 3);
    let wider = UNet::new(1, 1, 1, 16, 3);
    let deeper = UNet::new(1, 1, 2, 8, 3);
    let bigger_kernel = UNet::new(1, 1, 1, 8, 5);
    assert!(!a.same_config(&wider));
    assert!(!a.same_config(&deeper));
    assert!(!a.same_config(&bigger_kernel));
}
