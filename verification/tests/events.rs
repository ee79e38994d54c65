use http_server_bridge::event::{RsHttpServerEvent, RsHttpServerEventKind, RsHttpServerSessionEndReason};
use http_server_bridge::forward::{
    internal_event_to_rs, v2_event_to_rs, web_send_event_to_rs, InternalEvent, ServerEventV2,
    SessionEndReasonV2, WebSendEvent,
};
use http_server_bridge::request::{FileUploadTarget, PrepareUploadDecision};
use http_server_bridge::wire::{
    DeviceType, FileDto, FileMetadata, ProtocolType, ProtocolTypeV2, RegisterDto, RegisterDtoV2,
};
use std::collections::HashMap;
use tokio::sync::oneshot;

fn v2_info() -> RegisterDtoV2 {
    RegisterDtoV2 {
        alias: "Peer".to_string(),
        version: "2.1".to_string(),
        device_model: Some("Pixel".to_string()),
        device_type: Some(DeviceType::Mobile),
        fingerprint: "fp-123".to_string(),
        port: 53317,
        protocol: ProtocolTypeV2::Https,
        download: true,
    }
}

fn dto(info: RegisterDtoV2) -> RegisterDto {
    RegisterDto {
        alias: info.alias,
        version: info.version,
        device_model: info.device_model,
        device_type: info.device_type,
        token: info.fingerprint,
        port: info.port,
        protocol: ProtocolType::Https,
        has_web_interface: info.download,
    }
}

fn file(size: u64) -> FileDto {
    FileDto {
        id: "f1".to_string(),
        file_name: "photo.jpg".to_string(),
        size,
        file_type: "image/jpeg".to_string(),
        sha256: None,
        preview: None,
        metadata: Some(FileMetadata { modified: Some("2024-01-01T00:00:00Z".to_string()), accessed: None }),
    }
}

#[test]
fn show_event_accessors() {
    let e = internal_event_to_rs(InternalEvent::Show { args: vec!["a".to_string(), "b".to_string()] });
    assert_eq!(e.kind(), RsHttpServerEventKind::Show);
    assert_eq!(e.args(), Some(vec!["a".to_string(), "b".to_string()]));
    assert_eq!(e.ip(), None);
    assert_eq!(e.info(), None);
    assert!(e.files().is_none());
    assert_eq!(e.session_id(), None);
    assert_eq!(e.file_id(), None);
    assert_eq!(e.file(), None);
    assert_eq!(e.reason(), None);
    assert_eq!(e.user_agent(), None);
}

#[test]
fn register_event_converts_registration() {
    let e = v2_event_to_rs(ServerEventV2::Register { ip: "192.168.1.5".to_string(), info: v2_info() });
    assert_eq!(e.kind(), RsHttpServerEventKind::Register);
    assert_eq!(e.ip(), Some("192.168.1.5".to_string()));
    let info = e.info().unwrap();
    assert_eq!(info, dto(v2_info()));
    assert_eq!(info.token, "fp-123");
    assert!(info.has_web_interface);
    assert_eq!(info.protocol, ProtocolType::Https);
    assert_eq!(e.args(), None);
}

#[test]
fn prepare_upload_event_carries_request() {
    let (tx, mut rx) = oneshot::channel();
    let mut files = HashMap::new();
    files.insert("f1".to_string(), file(12));
    let mut e = v2_event_to_rs(ServerEventV2::PrepareUpload {
        ip: "10.0.0.2".to_string(),
        info: v2_info(),
        files: files.clone(),
        decision_tx: tx,
    });
    assert_eq!(e.kind(), RsHttpServerEventKind::PrepareUpload);
    assert_eq!(e.ip(), Some("10.0.0.2".to_string()));
    assert_eq!(e.info(), Some(dto(v2_info())));
    assert_eq!(e.files(), Some(files));
    let mut request = e.take_prepare_upload_request().unwrap();
    assert!(e.take_prepare_upload_request().is_none());
    assert_eq!(e.kind(), RsHttpServerEventKind::PrepareUpload);
    request.decline().unwrap();
    assert!(matches!(rx.try_recv().ok().unwrap(), PrepareUploadDecision::Decline));
}

#[test]
fn file_upload_event_announces_file_size() {
    let (tx, mut rx) = oneshot::channel();
    let mut e = v2_event_to_rs(ServerEventV2::FileUpload {
        session_id: "s1".to_string(),
        file_id: "f1".to_string(),
        file: file(4096),
        target_tx: tx,
    });
    assert_eq!(e.kind(), RsHttpServerEventKind::FileUpload);
    assert_eq!(e.session_id(), Some("s1".to_string()));
    assert_eq!(e.file_id(), Some("f1".to_string()));
    assert_eq!(e.file(), Some(file(4096)));
    assert!(e.take_prepare_upload_request().is_none());
    let mut request = e.take_file_upload_request().unwrap();
    assert!(e.take_file_upload_request().is_none());
    assert_eq!(request.file_size(), 4096);
    request.save_to_path("/p".to_string()).ok().unwrap();
    assert!(matches!(rx.try_recv().ok().unwrap(), FileUploadTarget::Path { .. }));
}

#[test]
fn session_end_reasons_map() {
    let e = v2_event_to_rs(ServerEventV2::SessionEnd {
        session_id: "s".to_string(),
        reason: SessionEndReasonV2::Finished,
    });
    assert_eq!(e.kind(), RsHttpServerEventKind::SessionEnd);
    assert_eq!(e.reason(), Some(RsHttpServerSessionEndReason::Finished));
    assert_eq!(e.session_id(), Some("s".to_string()));
    let e = v2_event_to_rs(ServerEventV2::SessionEnd {
        session_id: "s".to_string(),
        reason: SessionEndReasonV2::Cancelled,
    });
    assert_eq!(e.reason(), Some(RsHttpServerSessionEndReason::Cancelled));
}

#[test]
fn prepare_download_event_carries_user_agent() {
    let (tx, mut rx) = oneshot::channel();
    let mut e = web_send_event_to_rs(WebSendEvent::PrepareDownload {
        ip: "10.0.0.9".to_string(),
        session_id: "w1".to_string(),
        user_agent: Some("Firefox".to_string()),
        decision_tx: tx,
    });
    assert_eq!(e.kind(), RsHttpServerEventKind::PrepareDownload);
    assert_eq!(e.ip(), Some("10.0.0.9".to_string()));
    assert_eq!(e.session_id(), Some("w1".to_string()));
    assert_eq!(e.user_agent(), Some("Firefox".to_string()));
    assert_eq!(e.info(), None);
    let mut request = e.take_prepare_download_request().unwrap();
    assert!(e.take_prepare_download_request().is_none());
    request.accept().unwrap();
    assert_eq!(rx.try_recv(), Ok(true));

    let (tx, _rx) = oneshot::channel();
    let e = web_send_event_to_rs(WebSendEvent::PrepareDownload {
        ip: "1.1.1.1".to_string(),
        session_id: "w2".to_string(),
        user_agent: None,
        decision_tx: tx,
    });
    assert_eq!(e.user_agent(), None);
}

#[test]
fn file_download_event_carries_request() {
    let (tx, mut rx) = oneshot::channel();
    let mut e = web_send_event_to_rs(WebSendEvent::FileDownload {
        session_id: "w1".to_string(),
        file_id: "f1".to_string(),
        file: file(3),
        content_tx: tx,
    });
    assert_eq!(e.kind(), RsHttpServerEventKind::FileDownload);
    assert_eq!(e.file_id(), Some("f1".to_string()));
    assert_eq!(e.file(), Some(file(3)));
    assert_eq!(e.ip(), None);
    let mut request = e.take_file_download_request().unwrap();
    assert!(e.take_file_download_request().is_none());
    request.provide_path("/x".to_string()).unwrap();
    assert!(rx.try_recv().is_ok());
}

#[test]
fn takes_on_other_kinds_give_nothing() {
    let mut e = RsHttpServerEvent::Show { args: vec![] };
    assert!(e.take_prepare_upload_request().is_none());
    assert!(e.take_file_upload_request().is_none());
    assert!(e.take_prepare_download_request().is_none());
    assert!(e.take_file_download_request().is_none());
    assert_eq!(e.args(), Some(vec![]));
}
