use hw_dcmi::error::{map_status, ErrorCategory, Operation};

#[test]
fn success_code_maps_to_ok() {
    assert!(map_status(Operation::GetMemoryInfo, 0).is_ok());
}

#[test]
fn invalid_parameter_code_maps_to_its_category() {
    let err = map_status(Operation::CreateVirtualChip, -8001).unwrap_err();
    assert_eq!(err.op, Operation::CreateVirtualChip);
    assert_eq!(err.code, -8001);
    assert_eq!(err.category, ErrorCategory::InvalidParameter);
}

#[test]
fn permission_denied_code_maps_to_its_category() {
    let err = map_status(Operation::SetVChipRecoverMode, -8002).unwrap_err();
    assert_eq!(err.code, -8002);
    assert_eq!(err.category, ErrorCategory::PermissionDenied);
}

#[test]
fn busy_code_maps_to_its_category() {
    let err = map_status(Operation::CreateVirtualChip, -8003).unwrap_err();
    assert_eq!(err.code, -8003);
    assert_eq!(err.category, ErrorCategory::Busy);
}

#[test]
fn not_found_code_maps_to_its_category() {
    let err = map_status(Operation::DestroyVirtualChip, -8004).unwrap_err();
    assert_eq!(err.code, -8004);
    assert_eq!(err.category, ErrorCategory::NotFound);
}

#[test]
fn internal_code_maps_to_its_category() {
    let err = map_status(Operation::GetChips, -8005).unwrap_err();
    assert_eq!(err.code, -8005);
    assert_eq!(err.category, ErrorCategory::Internal);
}

#[test]
fn documented_failure_codes_keep_distinct_categories() {
    let codes = [-8001, -8002, -8003, -8004, -8005];
    let mut seen: Vec<ErrorCategory> = Vec::new();
    for code in codes {
        let category = map_status(Operation::Init, code).unwrap_err().category;
        assert!(!seen.contains(&category));
        seen.push(category);
    }
}
