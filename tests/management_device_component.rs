use smbioslib::{Handle, SMBiosManagementDeviceComponent, SMBiosStructParts};

#[test]
fn management_device_component_unit_test() {
    let struct_type35 = vec![
        0x23, 0x0B, 0x29, 0x00, 0x01, 0x26, 0x00, 0x27, 0x00, 0x28, 0x00, 0x44, 0x65, 0x66,
        0x61, 0x75, 0x6C, 0x74, 0x20, 0x73, 0x74, 0x72, 0x69, 0x6E, 0x67, 0x00, 0x00,
    ];

    let parts = SMBiosStructParts::new(struct_type35.as_slice());
    let test_struct = SMBiosManagementDeviceComponent::new(&parts);

    assert_eq!(
        test_struct.description(),
        Some("Default string".to_string())
    );
}

#[test]
fn management_device_component_handles() {
    let bytes = vec![
        0x23, 0x0B, 0x29, 0x00, 0x01, 0x26, 0x00, 0x27, 0x00, 0xFF, 0xFF, 0x41, 0x00, 0x00,
    ];
    let parts = SMBiosStructParts::new(bytes.as_slice());
    let component = SMBiosManagementDeviceComponent::new(&parts);
    assert_eq!(component.management_device_handle(), Some(Handle(38)));
    assert_eq!(component.component_handle(), Some(Handle(39)));
    assert_eq!(component.threshold_handle(), Some(Handle(0xFFFF)));
    assert_eq!(component.parts().header.handle(), Handle(0x29));
}
