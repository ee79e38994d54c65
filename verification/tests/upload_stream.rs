use bytes::Bytes;
use http_server_bridge::error::{decimal_string, HttpServerError};
use http_server_bridge::request::{FileUploadTarget, RsHttpServerFileUploadRequest};
use http_server_bridge::upload::UploadStream;
use tokio::sync::oneshot;

fn stream_for(expected: u64) -> (UploadStream, oneshot::Receiver<Result<(), String>>) {
    let (tx, rx) = oneshot::channel();
    (UploadStream::new(expected, tx), rx)
}

#[test]
fn chunks_adding_up_succeed() {
    let (mut stream, mut report) = stream_for(5);
    assert_eq!(stream.on_chunk(Bytes::from(vec![1u8, 2])), Some(vec![1u8, 2]));
    assert_eq!(stream.on_chunk(Bytes::from(vec![3u8, 4, 5])), Some(vec![3u8, 4, 5]));
    assert_eq!(stream.received(), 5);
    assert!(!stream.has_failed());
    assert_eq!(stream.complete(), Ok(()));
    assert_eq!(report.try_recv(), Ok(Ok(())));
}

#[test]
fn short_stream_fails_with_counts() {
    let (mut stream, mut report) = stream_for(10);
    assert_eq!(stream.on_chunk(Bytes::from(vec![0u8; 4])), Some(vec![0u8; 4]));
    let r = stream.complete();
    assert_eq!(r, Err(HttpServerError::Transfer("Expected 10 bytes, received 4".to_string())));
    assert_eq!(report.try_recv(), Ok(Err("Expected 10 bytes, received 4".to_string())));
}

#[test]
fn overlong_stream_stops_at_first_excess() {
    let (mut stream, mut report) = stream_for(3);
    assert_eq!(stream.on_chunk(Bytes::from(vec![9u8, 9])), Some(vec![9u8, 9]));
    assert_eq!(stream.on_chunk(Bytes::from(vec![7u8, 7, 7])), None);
    assert!(stream.has_failed());
    assert_eq!(stream.received(), 5);
    // Later chunks are not counted.
    assert_eq!(stream.on_chunk(Bytes::from(vec![1u8])), None);
    assert_eq!(stream.received(), 5);
    let r = stream.complete();
    let text = "Expected 3 bytes, received at least 5".to_string();
    assert_eq!(r, Err(HttpServerError::Transfer(text.clone())));
    assert_eq!(report.try_recv(), Ok(Err(text)));
}

#[test]
fn listener_gone_fails_the_stream() {
    let (mut stream, mut report) = stream_for(4);
    assert_eq!(stream.on_chunk(Bytes::from(vec![1u8, 1])), Some(vec![1u8, 1]));
    stream.listener_closed();
    assert!(stream.has_failed());
    let text = "File-upload stream listener closed".to_string();
    assert_eq!(stream.complete(), Err(HttpServerError::Transfer(text.clone())));
    assert_eq!(report.try_recv(), Ok(Err(text)));
}

#[test]
fn empty_file_with_no_chunks_succeeds() {
    let (mut stream, mut report) = stream_for(0);
    assert_eq!(stream.complete(), Ok(()));
    assert_eq!(report.try_recv(), Ok(Ok(())));
}

#[test]
fn result_is_given_even_when_server_left() {
    let (mut stream, report) = stream_for(1);
    drop(report);
    assert_eq!(stream.on_chunk(Bytes::from(vec![5u8])), Some(vec![5u8]));
    assert_eq!(stream.complete(), Ok(()));
}

#[test]
fn receive_hands_out_stream_target() {
    let (tx, mut rx) = oneshot::channel();
    let mut request = RsHttpServerFileUploadRequest::new(2, tx);
    let (mut chunks, mut stream) = request.receive().ok().unwrap();
    let (binary_tx, mut result_rx) = match rx.try_recv().ok().unwrap() {
        FileUploadTarget::Stream { binary_tx, result_rx } => (binary_tx, result_rx),
        _ => panic!("expected a stream target"),
    };
    binary_tx.try_send(Bytes::from_static(b"hi")).unwrap();
    drop(binary_tx);
    let chunk = chunks.try_recv().unwrap();
    assert_eq!(stream.on_chunk(chunk), Some(b"hi".to_vec()));
    assert!(chunks.try_recv().is_err());
    assert_eq!(stream.complete(), Ok(()));
    assert_eq!(result_rx.try_recv(), Ok(Ok(())));
    assert_eq!(request.receive().err(), Some(HttpServerError::FileUploadAnswered));
}

#[test]
fn second_completion_reports_nothing_more() {
    let (mut stream, mut report) = stream_for(2);
    assert_eq!(stream.complete(), Err(HttpServerError::Transfer("Expected 2 bytes, received 0".to_string())));
    assert_eq!(report.try_recv(), Ok(Err("Expected 2 bytes, received 0".to_string())));
    assert_eq!(stream.complete(), Err(HttpServerError::Transfer("Expected 2 bytes, received 0".to_string())));
}

#[test]
fn fits_bounds_the_count() {
    let (mut stream, _report) = stream_for(u64::MAX);
    let chunk = Bytes::from(vec![0u8; 3]);
    assert!(stream.fits(&chunk));
    assert_eq!(stream.on_chunk(chunk), Some(vec![0u8; 3]));
    assert_eq!(stream.received(), 3);
    let (stream, _report) = stream_for(1);
    assert!(stream.fits(&Bytes::from(vec![0u8; 10])));
}

#[test]
fn decimal_rendering() {
    assert_eq!(decimal_string(0), "0");
    assert_eq!(decimal_string(7), "7");
    assert_eq!(decimal_string(10), "10");
    assert_eq!(decimal_string(1234567890), "1234567890");
    assert_eq!(decimal_string(u64::MAX), u64::MAX.to_string());
}
