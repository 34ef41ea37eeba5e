use controller::system_feature::{
    default_boot_trap_mask, thermal_critical_temp_threshold, thermal_overheating_temp_threshold,
    FeatureTraits, ThermalThresholds,
};

fn feature_a() -> FeatureTraits {
    FeatureTraits {
        boot_trap_mask: 0x01,
        thermal_thresholds: Some(ThermalThresholds { overheating_milli_c: 40000, critical_milli_c: 55000 }),
        thermal_critical: false,
    }
}

fn feature_b() -> FeatureTraits {
    FeatureTraits { boot_trap_mask: 0x02, thermal_thresholds: None, thermal_critical: false }
}

#[test]
fn test_feature_list_single_thermal() {
    let features = vec![feature_a(), feature_b()];
    assert_eq!(thermal_overheating_temp_threshold(&features), 40000);
    assert_eq!(thermal_critical_temp_threshold(&features), 55000);
}

#[test]
fn test_feature_list_no_thermal() {
    let features = vec![feature_b(), feature_b()];
    assert_eq!(thermal_overheating_temp_threshold(&features), 45000);
    assert_eq!(thermal_critical_temp_threshold(&features), 60000);
}

#[test]
fn test_feature_list_combines_boot_traps() {
    let features = vec![feature_a(), feature_b()];
    assert_eq!(default_boot_trap_mask(&features), 0x03);
}
