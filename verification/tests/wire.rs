use http_server_bridge::wire::{
    register_dto_from_v2, DeviceType, ProtocolType, ProtocolTypeV2, RegisterDto, RegisterDtoV2,
};

#[test]
fn registration_from_v2_renames_fields() {
    let v2 = RegisterDtoV2 {
        alias: "Desk".to_string(),
        version: "2.0".to_string(),
        device_model: None,
        device_type: Some(DeviceType::Desktop),
        fingerprint: "abc".to_string(),
        port: 1234,
        protocol: ProtocolTypeV2::Http,
        download: false,
    };
    let dto = register_dto_from_v2(v2);
    assert_eq!(
        dto,
        RegisterDto {
            alias: "Desk".to_string(),
            version: "2.0".to_string(),
            device_model: None,
            device_type: Some(DeviceType::Desktop),
            token: "abc".to_string(),
            port: 1234,
            protocol: ProtocolType::Http,
            has_web_interface: false,
        }
    );
}

#[test]
fn registration_from_v2_keeps_https_and_download() {
    let v2 = RegisterDtoV2 {
        alias: "Srv".to_string(),
        version: "2.1".to_string(),
        device_model: Some("Box".to_string()),
        device_type: Some(DeviceType::Headless),
        fingerprint: "zz".to_string(),
        port: 443,
        protocol: ProtocolTypeV2::Https,
        download: true,
    };
    let dto = register_dto_from_v2(v2);
    assert_eq!(dto.protocol, ProtocolType::Https);
    assert!(dto.has_web_interface);
    assert_eq!(dto.device_model.as_deref(), Some("Box"));
    assert_eq!(dto.device_type, Some(DeviceType::Headless));
    assert_eq!(dto.port, 443);
}

#[test]
fn registration_clone_is_equal() {
    let dto = RegisterDto {
        alias: "a".to_string(),
        version: "v".to_string(),
        device_model: Some("m".to_string()),
        device_type: None,
        token: "t".to_string(),
        port: 1,
        protocol: ProtocolType::Http,
        has_web_interface: true,
    };
    assert_eq!(dto.clone(), dto);
}
