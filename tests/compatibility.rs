use platform_aware_features::{AtLeast, AtMost, Feature, FeatureType, QuantifierType, Registry};

fn exactly(dimension: usize, val: i32) -> Feature {
    Feature::Quantifier { dimension, kind: QuantifierType::Value, val }
}

fn gpu_registry() -> (Registry, Feature, Feature, Feature) {
    let mut reg = Registry::new();
    let gpu = reg.insert_feature("GPU".to_string(), "acc_model".to_string(), None).unwrap();
    let nvidia = reg
        .insert_feature("NVIDIA_GPU".to_string(), "acc_model".to_string(), Some(gpu))
        .unwrap();
    let ada = reg
        .insert_feature("NVIDIA_GPU_Ada".to_string(), "acc_model".to_string(), Some(nvidia))
        .unwrap();
    (reg, gpu, nvidia, ada)
}

#[test]
fn quantifier_at_least_five_satisfies_at_least_three() {
    let reg = Registry::new();
    assert!(AtLeast { val: 5 }.in_dimension(0).subtypeof(&AtLeast { val: 3 }.in_dimension(0), &reg));
}

#[test]
fn quantifier_at_least_three_fails_at_least_five() {
    let reg = Registry::new();
    assert!(!AtLeast { val: 3 }.in_dimension(0).subtypeof(&AtLeast { val: 5 }.in_dimension(0), &reg));
}

#[test]
fn quantifier_at_most_three_satisfies_at_most_five() {
    let reg = Registry::new();
    assert!(AtMost { val: 3 }.in_dimension(0).subtypeof(&AtMost { val: 5 }.in_dimension(0), &reg));
}

#[test]
fn quantifier_exactly_four_satisfies_at_least_two() {
    let reg = Registry::new();
    assert!(exactly(0, 4).subtypeof(&AtLeast { val: 2 }.in_dimension(0), &reg));
}

#[test]
fn quantifier_exactly_four_fails_at_most_two() {
    let reg = Registry::new();
    assert!(!exactly(0, 4).subtypeof(&AtMost { val: 2 }.in_dimension(0), &reg));
}

#[test]
fn quantifier_table_remaining_cells() {
    let reg = Registry::new();
    let at_least = |v: i32| AtLeast { val: v }.in_dimension(0);
    let at_most = |v: i32| AtMost { val: v }.in_dimension(0);
    assert!(!at_least(1).subtypeof(&at_most(100), &reg));
    assert!(at_least(7).subtypeof(&exactly(0, 7), &reg));
    assert!(!at_least(6).subtypeof(&exactly(0, 7), &reg));
    assert!(!at_most(1).subtypeof(&at_least(0), &reg));
    assert!(at_most(7).subtypeof(&exactly(0, 7), &reg));
    assert!(!at_most(8).subtypeof(&exactly(0, 7), &reg));
    assert!(exactly(0, 3).subtypeof(&at_most(3), &reg));
    assert!(exactly(0, 3).subtypeof(&exactly(0, 3), &reg));
    assert!(!exactly(0, 3).subtypeof(&exactly(0, 4), &reg));
}

#[test]
fn different_dimensions_never_compatible() {
    let reg = Registry::new();
    assert!(!exactly(0, 4).subtypeof(&exactly(1, 4), &reg));
    let (reg, gpu, _, _) = gpu_registry();
    let mut reg = reg;
    let avx = reg.insert_feature("AVX".to_string(), "cpu_simd".to_string(), None).unwrap();
    assert!(!avx.subtypeof(&gpu, &reg));
}

#[test]
fn different_kinds_never_compatible() {
    let (reg, gpu, _, _) = gpu_registry();
    let d = gpu.feature_class(&reg).unwrap();
    let n = exactly(d, 1);
    assert!(!gpu.subtypeof(&n, &reg));
    assert!(!n.subtypeof(&gpu, &reg));
}

#[test]
fn reflexivity_on_each_kind() {
    let (reg, gpu, nvidia, ada) = gpu_registry();
    for f in [gpu, nvidia, ada, exactly(0, -2), AtLeast { val: 9 }.in_dimension(0), AtMost { val: 9 }.in_dimension(0)] {
        assert!(f.subtypeof(&f, &reg));
    }
}

#[test]
fn qualifier_chain_is_transitive() {
    let (reg, gpu, nvidia, ada) = gpu_registry();
    assert!(ada.subtypeof(&nvidia, &reg));
    assert!(nvidia.subtypeof(&gpu, &reg));
    assert!(ada.subtypeof(&gpu, &reg));
    assert!(!gpu.subtypeof(&nvidia, &reg));
    assert!(!nvidia.subtypeof(&ada, &reg));
}

#[test]
fn siblings_are_incomparable() {
    let (mut reg, gpu, nvidia, _) = gpu_registry();
    let amd = reg.insert_feature("AMD_GPU".to_string(), "acc_model".to_string(), Some(gpu)).unwrap();
    assert!(!amd.subtypeof(&nvidia, &reg));
    assert!(!nvidia.subtypeof(&amd, &reg));
    assert!(amd.subtypeof(&gpu, &reg));
}

#[test]
fn unknown_handle_is_compatible_with_nothing() {
    let (reg, gpu, _, _) = gpu_registry();
    let dangling = Feature::Qualifier { id: 99 };
    assert!(!dangling.subtypeof(&dangling, &reg));
    assert!(!dangling.subtypeof(&gpu, &reg));
    assert!(!gpu.subtypeof(&dangling, &reg));
    assert_eq!(dangling.feature_class(&reg), None);
}

#[test]
fn top_values() {
    assert!(AtLeast { val: 0 }.in_dimension(0).is_top());
    assert!(!AtLeast { val: 1 }.in_dimension(0).is_top());
    assert!(AtMost { val: i32::MAX }.in_dimension(0).is_top());
    assert!(!AtMost { val: i32::MAX - 1 }.in_dimension(0).is_top());
    assert!(!exactly(0, 0).is_top());
    assert!(!Feature::Qualifier { id: 0 }.is_top());
}

#[test]
fn accessors() {
    let (reg, gpu, nvidia, ada) = gpu_registry();
    assert_eq!(gpu.feature_type(), FeatureType::Qualifier);
    assert_eq!(gpu.quantifier_type(), None);
    assert_eq!(gpu.val(), None);
    assert_eq!(ada.supertype(&reg), Some(nvidia));
    assert_eq!(nvidia.supertype(&reg), Some(gpu));
    assert_eq!(gpu.supertype(&reg), None);
    let q = AtMost { val: 12 }.in_dimension(3);
    assert_eq!(q.feature_type(), FeatureType::Quantifier);
    assert_eq!(q.quantifier_type(), Some(QuantifierType::AtMost));
    assert_eq!(q.val(), Some(12));
    assert_eq!(q.feature_class(&reg), Some(3));
    assert_eq!(q.supertype(&reg), None);
    assert_eq!(gpu.feature_class(&reg), reg.parameter(&"acc_model".to_string()));
}
