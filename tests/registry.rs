use platform_aware_features::{Feature, QuantifierType, Registry};

#[test]
fn parameters_are_recognized_once() {
    let mut reg = Registry::new();
    let a = reg.insert_parameter("cpu_simd".to_string());
    let b = reg.insert_parameter("acc_model".to_string());
    let c = reg.insert_parameter("cpu_simd".to_string());
    assert_eq!(a, 0);
    assert_eq!(b, 1);
    assert_eq!(c, 0);
    assert_eq!(reg.parameter_count(), 2);
    assert_eq!(reg.parameter(&"acc_model".to_string()), Some(1));
    assert_eq!(reg.parameter(&"mem_gb".to_string()), None);
}

#[test]
fn feature_registration_recognizes_its_dimension() {
    let mut reg = Registry::new();
    let avx = reg.insert_feature("AVX".to_string(), "cpu_simd".to_string(), None);
    assert_eq!(avx, Some(Feature::Qualifier { id: 0 }));
    assert_eq!(reg.parameter_count(), 1);
    assert_eq!(reg.parameter(&"cpu_simd".to_string()), Some(0));
    let avx2 = reg.insert_feature("AVX2".to_string(), "cpu_simd".to_string(), avx);
    assert_eq!(avx2, Some(Feature::Qualifier { id: 1 }));
    assert_eq!(reg.parameter_count(), 1);
    assert_eq!(reg.supertype_of(1), Some(0));
    assert_eq!(reg.supertype_of(0), None);
    assert_eq!(reg.supertype_of(7), None);
}

#[test]
fn supertype_of_another_dimension_is_refused() {
    let mut reg = Registry::new();
    let gpu = reg.insert_feature("GPU".to_string(), "acc_model".to_string(), None);
    let bad = reg.insert_feature("AVX".to_string(), "cpu_simd".to_string(), gpu);
    assert_eq!(bad, None);
    assert_eq!(reg.parameter_count(), 1);
    assert_eq!(reg.lookup_feature(&"AVX".to_string()), None);
}

#[test]
fn unknown_or_numeric_supertype_is_refused() {
    let mut reg = Registry::new();
    let dangling = Some(Feature::Qualifier { id: 4 });
    assert_eq!(reg.insert_feature("X".to_string(), "d".to_string(), dangling), None);
    let number = Some(Feature::Quantifier { dimension: 0, kind: QuantifierType::Value, val: 1 });
    assert_eq!(reg.insert_feature("Y".to_string(), "d".to_string(), number), None);
    assert_eq!(reg.parameter_count(), 0);
}

#[test]
fn lookup_finds_latest_registration() {
    let mut reg = Registry::new();
    let first = reg.insert_feature("GPU".to_string(), "acc_model".to_string(), None).unwrap();
    let other = reg.insert_feature("CPU".to_string(), "acc_model".to_string(), None).unwrap();
    assert_eq!(reg.lookup_feature(&"GPU".to_string()), Some(first));
    assert_eq!(reg.lookup_feature(&"CPU".to_string()), Some(other));
    let second = reg.insert_feature("GPU".to_string(), "acc_model".to_string(), None).unwrap();
    assert_ne!(first, second);
    assert_eq!(reg.lookup_feature(&"GPU".to_string()), Some(second));
    assert_eq!(reg.lookup_feature(&"TPU".to_string()), None);
}

#[test]
fn is_a_walks_the_chain() {
    let mut reg = Registry::new();
    let a = reg.insert_feature("A".to_string(), "d".to_string(), None);
    let b = reg.insert_feature("B".to_string(), "d".to_string(), a);
    let _c = reg.insert_feature("C".to_string(), "d".to_string(), b);
    assert!(reg.is_a(2, 0));
    assert!(reg.is_a(2, 1));
    assert!(reg.is_a(1, 1));
    assert!(!reg.is_a(0, 2));
    assert!(!reg.is_a(5, 5));
}

#[test]
fn hierarchy_is_registered_root_first() {
    let mut reg = Registry::new();
    reg.insert_feature("AVX".to_string(), "cpu_simd".to_string(), None).unwrap();
    let chain = vec!["GPU".to_string(), "NVIDIA_GPU".to_string(), "NVIDIA_GPU_Ada".to_string()];
    let made = reg.insert_hierarchy(chain, "acc_model".to_string());
    assert_eq!(
        made,
        vec![Feature::Qualifier { id: 1 }, Feature::Qualifier { id: 2 }, Feature::Qualifier { id: 3 }]
    );
    assert_eq!(reg.supertype_of(1), None);
    assert_eq!(reg.supertype_of(2), Some(1));
    assert_eq!(reg.supertype_of(3), Some(2));
    assert_eq!(reg.lookup_feature(&"NVIDIA_GPU_Ada".to_string()), Some(made[2]));
    assert_eq!(reg.parameter_count(), 2);
    assert!(made[2].subtypeof(&made[0], &reg));
    assert!(!made[0].subtypeof(&made[2], &reg));
    assert_eq!(reg.insert_hierarchy(Vec::new(), "other".to_string()), Vec::new());
    assert_eq!(reg.parameter_count(), 2);
}
