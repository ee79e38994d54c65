use http_server_bridge::error::HttpServerError;
use http_server_bridge::request::{
    flatten_file_result, FileContent, FileUploadTarget, PrepareUploadDecision,
    RsHttpServerFileDownloadRequest, RsHttpServerFileUploadRequest,
    RsHttpServerPrepareDownloadRequest, RsHttpServerPrepareUploadRequest,
};
use std::collections::HashSet;
use tokio::sync::oneshot;

#[test]
fn prepare_upload_accept_delivers_file_ids() {
    let (tx, mut rx) = oneshot::channel();
    let mut request = RsHttpServerPrepareUploadRequest::new(tx);
    let ids: HashSet<String> = ["a".to_string(), "b".to_string()].into_iter().collect();
    assert_eq!(request.accept(ids.clone()), Ok(()));
    match rx.try_recv().unwrap() {
        PrepareUploadDecision::Accept(got) => assert_eq!(got, ids),
        PrepareUploadDecision::Decline => panic!("expected accept"),
    }
}

#[test]
fn prepare_upload_answers_once() {
    let (tx, mut rx) = oneshot::channel();
    let mut request = RsHttpServerPrepareUploadRequest::new(tx);
    assert_eq!(request.decline(), Ok(()));
    assert!(matches!(rx.try_recv().unwrap(), PrepareUploadDecision::Decline));
    assert_eq!(request.accept(HashSet::new()), Err(HttpServerError::PrepareUploadAnswered));
    assert_eq!(request.decline(), Err(HttpServerError::PrepareUploadAnswered));
    assert_eq!(
        HttpServerError::PrepareUploadAnswered.message(),
        "Prepare-upload request already answered"
    );
}

#[test]
fn prepare_upload_to_gone_peer_is_closed() {
    let (tx, rx) = oneshot::channel();
    drop(rx);
    let mut request = RsHttpServerPrepareUploadRequest::new(tx);
    assert_eq!(request.decline(), Err(HttpServerError::PrepareUploadClosed));
    assert_eq!(HttpServerError::PrepareUploadClosed.message(), "Prepare-upload request closed");
    // The failed attempt used the request up.
    assert_eq!(request.decline(), Err(HttpServerError::PrepareUploadAnswered));
}

#[test]
fn prepare_download_accept_and_decline() {
    let (tx, mut rx) = oneshot::channel();
    let mut request = RsHttpServerPrepareDownloadRequest::new(tx);
    assert_eq!(request.accept(), Ok(()));
    assert_eq!(rx.try_recv(), Ok(true));
    assert_eq!(request.decline(), Err(HttpServerError::PrepareDownloadAnswered));

    let (tx, mut rx) = oneshot::channel();
    let mut request = RsHttpServerPrepareDownloadRequest::new(tx);
    assert_eq!(request.decline(), Ok(()));
    assert_eq!(rx.try_recv(), Ok(false));
    assert_eq!(
        HttpServerError::PrepareDownloadAnswered.message(),
        "Prepare-download request already answered"
    );
}

#[test]
fn prepare_download_to_gone_peer_is_closed() {
    let (tx, rx) = oneshot::channel::<bool>();
    drop(rx);
    let mut request = RsHttpServerPrepareDownloadRequest::new(tx);
    assert_eq!(request.accept(), Err(HttpServerError::PrepareDownloadClosed));
    assert_eq!(HttpServerError::PrepareDownloadClosed.message(), "Prepare-download request closed");
}

#[test]
fn save_to_path_hands_out_path_and_reports() {
    let (tx, mut rx) = oneshot::channel();
    let mut request = RsHttpServerFileUploadRequest::new(10, tx);
    assert_eq!(request.file_size(), 10);
    let mut result_rx = request.save_to_path("/tmp/out.bin".to_string()).ok().unwrap();
    match rx.try_recv().ok().unwrap() {
        FileUploadTarget::Path { path, result_tx } => {
            assert_eq!(path, "/tmp/out.bin");
            result_tx.send(Err("disk full".to_string())).unwrap();
        }
        _ => panic!("expected a path target"),
    }
    let outcome = result_rx.try_recv().map_err(|_| ());
    let outcome = match outcome {
        Ok(v) => v,
        Err(()) => panic!("no report"),
    };
    let r = flatten_file_result(Ok(outcome));
    assert_eq!(r, Err(HttpServerError::Transfer("disk full".to_string())));
    assert_eq!(r.unwrap_err().message(), "disk full");
    assert_eq!(
        request.save_to_path("/tmp/again".to_string()).err(),
        Some(HttpServerError::FileUploadAnswered)
    );
    assert_eq!(
        HttpServerError::FileUploadAnswered.message(),
        "File-upload request already answered"
    );
}

#[test]
fn flatten_file_result_cases() {
    assert_eq!(flatten_file_result(Ok(Ok(()))), Ok(()));
    let (tx, rx) = oneshot::channel::<Result<(), String>>();
    drop(tx);
    let rt = tokio::runtime::Builder::new_current_thread().build().unwrap();
    let recv_error = rt.block_on(rx).unwrap_err();
    assert_eq!(
        flatten_file_result(Err(recv_error)),
        Err(HttpServerError::FileUploadResultClosed)
    );
    assert_eq!(
        HttpServerError::FileUploadResultClosed.message(),
        "File-upload result channel closed"
    );
}

#[test]
fn file_upload_to_gone_peer_is_closed() {
    let (tx, rx) = oneshot::channel::<FileUploadTarget>();
    drop(rx);
    let mut request = RsHttpServerFileUploadRequest::new(3, tx);
    assert_eq!(request.save_to_path("x".to_string()).err(), Some(HttpServerError::FileUploadClosed));
    assert_eq!(HttpServerError::FileUploadClosed.message(), "File-upload request closed");
    assert_eq!(request.receive().err(), Some(HttpServerError::FileUploadAnswered));
}

#[test]
fn file_descriptors_are_refused_off_android() {
    let (tx, mut rx) = oneshot::channel::<FileUploadTarget>();
    let mut request = RsHttpServerFileUploadRequest::new(3, tx);
    assert_eq!(
        request.save_to_file_descriptor(4, false).err(),
        Some(HttpServerError::FileDescriptorsUnsupported)
    );
    assert!(rx.try_recv().is_err());
    // The request is still open.
    assert!(request.save_to_path("p".to_string()).is_ok());

    let (tx, mut rx) = oneshot::channel::<FileContent>();
    let mut request = RsHttpServerFileDownloadRequest::new(tx);
    assert_eq!(request.provide_file_descriptor(4, false), Err(HttpServerError::FileDescriptorsUnsupported));
    assert!(rx.try_recv().is_err());
    assert_eq!(request.provide_path("q".to_string()), Ok(()));
    assert_eq!(
        HttpServerError::FileDescriptorsUnsupported.message(),
        "File descriptors are only supported on Android"
    );
}

#[test]
fn file_descriptors_are_handed_on_android() {
    let (tx, mut rx) = oneshot::channel::<FileUploadTarget>();
    let mut request = RsHttpServerFileUploadRequest::new(3, tx);
    let mut result_rx = request.save_to_file_descriptor(7, true).ok().unwrap();
    match rx.try_recv().ok().unwrap() {
        FileUploadTarget::Fd { fd, result_tx } => {
            assert_eq!(fd, 7);
            result_tx.send(Ok(())).unwrap();
        }
        _ => panic!("expected a descriptor target"),
    }
    let outcome = match result_rx.try_recv() {
        Ok(v) => v,
        Err(_) => panic!("no report"),
    };
    assert_eq!(flatten_file_result(Ok(outcome)), Ok(()));
    assert_eq!(
        request.save_to_file_descriptor(7, true).err(),
        Some(HttpServerError::FileUploadAnswered)
    );

    let (tx, mut rx) = oneshot::channel::<FileContent>();
    let mut request = RsHttpServerFileDownloadRequest::new(tx);
    assert_eq!(request.provide_file_descriptor(9, true), Ok(()));
    match rx.try_recv().ok().unwrap() {
        FileContent::Fd(fd) => assert_eq!(fd, 9),
        _ => panic!("expected a descriptor"),
    }
    assert_eq!(request.provide_file_descriptor(9, true), Err(HttpServerError::FileDownloadAnswered));
}

#[test]
fn provide_path_answers_once() {
    let (tx, mut rx) = oneshot::channel();
    let mut request = RsHttpServerFileDownloadRequest::new(tx);
    assert_eq!(request.provide_path("/srv/a.txt".to_string()), Ok(()));
    match rx.try_recv().ok().unwrap() {
        FileContent::Path(p) => assert_eq!(p, "/srv/a.txt"),
        _ => panic!("expected a path"),
    }
    assert_eq!(request.provide_path("b".to_string()), Err(HttpServerError::FileDownloadAnswered));
    assert_eq!(
        HttpServerError::FileDownloadAnswered.message(),
        "File-download request already answered"
    );
}

#[test]
fn provide_bytes_streams_exactly_those_bytes() {
    let (tx, mut rx) = oneshot::channel();
    let mut request = RsHttpServerFileDownloadRequest::new(tx);
    assert_eq!(request.provide_bytes(vec![1, 2, 3]), Ok(()));
    match rx.try_recv().ok().unwrap() {
        FileContent::Stream(mut stream) => {
            let chunk = stream.try_recv().unwrap();
            assert_eq!(&chunk[..], &[1u8, 2, 3][..]);
            assert!(matches!(
                stream.try_recv(),
                Err(tokio::sync::mpsc::error::TryRecvError::Disconnected)
            ));
        }
        _ => panic!("expected a stream"),
    }
}

#[test]
fn provide_stream_to_gone_peer_is_closed() {
    let (tx, rx) = oneshot::channel::<FileContent>();
    drop(rx);
    let mut request = RsHttpServerFileDownloadRequest::new(tx);
    let (_btx, brx) = tokio::sync::mpsc::channel::<bytes::Bytes>(1);
    assert_eq!(request.provide_stream(brx), Err(HttpServerError::FileDownloadClosed));
    assert_eq!(HttpServerError::FileDownloadClosed.message(), "File-download request closed");
    assert_eq!(request.provide_bytes(vec![]), Err(HttpServerError::FileDownloadAnswered));
    assert_eq!(
        HttpServerError::DownloadBufferFailed.message(),
        "Failed to buffer download content"
    );
}
