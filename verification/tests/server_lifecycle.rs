use http_server_bridge::error::HttpServerError;
use http_server_bridge::server::{
    create_http_server, RsHttpServerInfo, RsHttpServerInternalConfig, RsHttpServerTlsConfig,
    RsHttpServerV2Config, RsHttpServerWebSendConfig, RsHttpServerWebSendI18n,
};
use http_server_bridge::event::RsHttpServerEvent;
use std::collections::HashMap;

fn test_info() -> RsHttpServerInfo {
    RsHttpServerInfo {
        alias: "test".to_string(),
        version: "2.1".to_string(),
        device_model: None,
        device_type: None,
        token: "test-token".to_string(),
    }
}

fn i18n() -> RsHttpServerWebSendI18n {
    RsHttpServerWebSendI18n {
        waiting: "Waiting".to_string(),
        enter_pin: "Enter PIN".to_string(),
        invalid_pin: "Invalid PIN".to_string(),
        too_many_attempts: "Too many attempts".to_string(),
        rejected: "Rejected".to_string(),
        files: "Files".to_string(),
        file_name: "File name".to_string(),
        size: "Size".to_string(),
    }
}

#[test]
fn starts_and_stops_server() {
    let mut server = create_http_server();
    let plan = server
        .start(
            53317,
            None,
            test_info(),
            None,
            Some(RsHttpServerV2Config { pin: None }),
            None,
        )
        .unwrap();
    assert_eq!(plan.port, 53317);
    assert!(plan.tls.is_none());
    assert_eq!(plan.info.alias, "test");
    assert_eq!(plan.info.version, "2.1");
    assert_eq!(plan.info.token, "test-token");
    assert!(plan.internal.is_none());
    assert!(plan.web_send.is_none());
    let (v2, _events) = plan.v2.unwrap();
    assert_eq!(v2.pin, None);
    let mut stop_rx = plan.stop_rx;
    server.started(plan.stop_tx);
    server.stop();
    assert_eq!(stop_rx.try_recv(), Ok(()));
}

#[test]
fn start_carries_every_configured_part() {
    let server = create_http_server();
    let plan = server
        .start(
            8080,
            Some(RsHttpServerTlsConfig { cert: "CERT".to_string(), private_key: "KEY".to_string() }),
            test_info(),
            Some(RsHttpServerInternalConfig { show_token: "show".to_string() }),
            Some(RsHttpServerV2Config { pin: Some("1234".to_string()) }),
            Some(RsHttpServerWebSendConfig { files: HashMap::new(), pin: None, i18n: i18n() }),
        )
        .unwrap();
    let tls = plan.tls.unwrap();
    assert_eq!(tls.cert, "CERT");
    assert_eq!(tls.private_key, "KEY");
    assert_eq!(plan.internal.as_ref().unwrap().0.show_token, "show");
    assert_eq!(plan.v2.as_ref().unwrap().0.pin.as_deref(), Some("1234"));
    let (web, _tx) = plan.web_send.unwrap();
    assert!(web.files.is_empty());
    assert_eq!(web.i18n.too_many_attempts, "Too many attempts");
}

#[test]
fn forwarder_handles_feed_the_listener() {
    let mut server = create_http_server();
    let plan = server
        .start(1, None, test_info(), Some(RsHttpServerInternalConfig { show_token: "t".to_string() }), None, None)
        .unwrap();
    let mut events = server.listen().unwrap();
    let (_config, tx) = plan.internal.unwrap();
    tx.try_send(RsHttpServerEvent::Show { args: vec!["--hidden".to_string()] }).ok().unwrap();
    let event = events.try_recv().unwrap();
    assert_eq!(event.args(), Some(vec!["--hidden".to_string()]));
}

#[test]
fn second_start_is_refused_while_running() {
    let mut server = create_http_server();
    let plan = server.start(1, None, test_info(), None, None, None).unwrap();
    server.started(plan.stop_tx);
    let again = server.start(1, None, test_info(), None, None, None);
    assert_eq!(again.err(), Some(HttpServerError::AlreadyStarted));
    assert_eq!(HttpServerError::AlreadyStarted.message(), "HTTP server already started");
}

#[test]
fn start_after_stop_is_refused() {
    let mut server = create_http_server();
    server.stop();
    let r = server.start(1, None, test_info(), None, None, None);
    assert_eq!(r.err(), Some(HttpServerError::AlreadyStopped));
    server.stop();
    let r = server.start(1, None, test_info(), None, None, None);
    assert_eq!(r.err().unwrap().message(), "HTTP server already stopped");
}

#[test]
fn start_after_run_and_stop_is_refused_as_stopped() {
    let mut server = create_http_server();
    let plan = server.start(1, None, test_info(), None, None, None).unwrap();
    server.started(plan.stop_tx);
    server.stop();
    let r = server.start(1, None, test_info(), None, None, None);
    assert_eq!(r.err(), Some(HttpServerError::AlreadyStopped));
}

#[test]
fn listen_is_granted_once() {
    let mut server = create_http_server();
    assert!(server.listen().is_ok());
    let second = server.listen();
    assert_eq!(second.err(), Some(HttpServerError::EventsAlreadyListened));
    assert_eq!(
        HttpServerError::EventsAlreadyListened.message(),
        "HTTP server events already listened to"
    );
}

#[test]
fn stop_ends_the_event_stream() {
    let mut server = create_http_server();
    let mut events = server.listen().unwrap();
    server.stop();
    assert!(matches!(
        events.try_recv(),
        Err(tokio::sync::mpsc::error::TryRecvError::Disconnected)
    ));
}

#[test]
fn listen_still_works_after_stop() {
    let mut server = create_http_server();
    server.stop();
    assert!(server.listen().is_ok());
}

#[test]
fn stop_signal_reaches_running_server_once() {
    let mut server = create_http_server();
    let plan = server.start(1, None, test_info(), None, None, None).unwrap();
    let mut stop_rx = plan.stop_rx;
    server.started(plan.stop_tx);
    server.signal_stop();
    assert_eq!(stop_rx.try_recv(), Ok(()));
    // The server no longer runs, so it may be started again.
    assert!(server.start(1, None, test_info(), None, None, None).is_ok());
}
