//! The requests that the server hands to the Dart side with an event. Each
//! waits for one answer, which goes back to the server over a one-shot
//! channel; a request answers at most once, and keeps the evidence of the
//! `send` call it made: the channel and the value that call was given.
use crate::channel::{
    bytes_contents, bytes_from_vec, hand_over, mpsc_pair, oneshot_pair, queue, Handoff, MpscPair,
    OneshotPair, Queued,
};
use crate::error::HttpServerError;
use crate::upload::UploadStream;
use bytes::Bytes;
use std::collections::HashSet;
use tokio::sync::mpsc;
use tokio::sync::oneshot;
use vstd::prelude::*;

verus! {

/// Capacity of the channel that carries the bytes of a streamed upload.
pub const FILE_CHANNEL_CAPACITY: usize = 16;

/// The answer to a prepare-upload request.
pub enum PrepareUploadDecision {
    /// Accept the files with these ids.
    Accept(HashSet<String>),
    /// Refuse the whole upload.
    Decline,
}

/// Where the server shall put an uploaded file.
pub enum FileUploadTarget {
    /// Save the file at this path; the server reports on `result_tx` how
    /// saving ended.
    Path { path: String, result_tx: oneshot::Sender<Result<(), String>> },
    /// Save the file into this open file descriptor (Android); the server
    /// reports on `result_tx` how saving ended.
    Fd { fd: i32, result_tx: oneshot::Sender<Result<(), String>> },
    /// Stream the file's bytes into `binary_tx`; the library reports on
    /// `result_rx`'s sender how the stream ended.
    Stream {
        binary_tx: mpsc::Sender<Bytes>,
        result_rx: oneshot::Receiver<Result<(), String>>,
    },
}

/// What the server shall send for a downloaded file.
pub enum FileContent {
    /// The file at this path.
    Path(String),
    /// The file behind this open file descriptor (Android).
    Fd(i32),
    /// The bytes that arrive on this channel.
    Stream(mpsc::Receiver<Bytes>),
}

/// What answering a one-shot request may give: a request answered before
/// refuses with `refused`; otherwise the answer is delivered, or the peer
/// no longer waits for it and the error is `closed`.
pub open spec fn reply_admits(
    was_answered: bool,
    r: Result<(), HttpServerError>,
    refused: HttpServerError,
    closed: HttpServerError,
) -> bool {
    if was_answered {
        r == Err::<(), HttpServerError>(refused)
    } else {
        r == Ok::<(), HttpServerError>(()) || r == Err::<(), HttpServerError>(closed)
    }
}

/// What answering hands over: a request that still held its channel hands
/// `value` to that very channel (and records it); a request answered
/// before hands nothing.
pub open spec fn hands<T>(
    channel: Option<oneshot::Sender<T>>,
    before: Option<(oneshot::Sender<T>, T)>,
    after: Option<(oneshot::Sender<T>, T)>,
    value: T,
) -> bool {
    match channel {
        Some(tx) => after == Some((tx, value)),
        None => after == before,
    }
}

/// The Dart side's handle on a prepare-upload request.
pub struct RsHttpServerPrepareUploadRequest {
    decision_tx: Option<oneshot::Sender<PrepareUploadDecision>>,
    handed: Option<Handoff<PrepareUploadDecision>>,
}

impl RsHttpServerPrepareUploadRequest {
    /// The channel the answer goes to, while no answer was given.
    pub closed spec fn reply_channel(&self) -> Option<oneshot::Sender<PrepareUploadDecision>> {
        self.decision_tx
    }

    /// The channel and the decision its `send` was given, once answered.
    pub closed spec fn handed(&self) -> Option<
        (oneshot::Sender<PrepareUploadDecision>, PrepareUploadDecision),
    > {
        match self.handed {
            Some(h) => Some(h.record()),
            None => None,
        }
    }

    /// Whether the `send` that answered reported success.
    pub closed spec fn delivered(&self) -> bool {
        match self.handed {
            Some(h) => h.delivered(),
            None => false,
        }
    }

    /// Whether an answer was given (or attempted).
    pub open spec fn is_answered(&self) -> bool {
        self.reply_channel() is None
    }

    /// A request whose answer goes to `decision_tx`.
    pub fn new(decision_tx: oneshot::Sender<PrepareUploadDecision>) -> (r: Self)
        ensures
            r.reply_channel() == Some(decision_tx),
            r.handed() is None,
    {
        RsHttpServerPrepareUploadRequest { decision_tx: Some(decision_tx), handed: None }
    }

    /// Accepts the files with the given ids: `Accept(file_ids)` is sent
    /// to the server.
    pub fn accept(&mut self, file_ids: HashSet<String>) -> (r: Result<(), HttpServerError>)
        ensures
            final(self).is_answered(),
            !old(self).is_answered() ==> (r is Ok <==> final(self).delivered()),
            reply_admits(
                old(self).is_answered(),
                r,
                HttpServerError::PrepareUploadAnswered,
                HttpServerError::PrepareUploadClosed,
            ),
            hands(
                old(self).reply_channel(),
                old(self).handed(),
                final(self).handed(),
                PrepareUploadDecision::Accept(file_ids),
            ),
    {
        self.respond(PrepareUploadDecision::Accept(file_ids))
    }

    /// Declines the upload: `Decline` is sent on the request's channel.
    pub fn decline(&mut self) -> (r: Result<(), HttpServerError>)
        ensures
            final(self).is_answered(),
            !old(self).is_answered() ==> (r is Ok <==> final(self).delivered()),
            reply_admits(
                old(self).is_answered(),
                r,
                HttpServerError::PrepareUploadAnswered,
                HttpServerError::PrepareUploadClosed,
            ),
            hands(
                old(self).reply_channel(),
                old(self).handed(),
                final(self).handed(),
                PrepareUploadDecision::Decline,
            ),
    {
        self.respond(PrepareUploadDecision::Decline)
    }

    fn respond(&mut self, decision: PrepareUploadDecision) -> (r: Result<(), HttpServerError>)
        ensures
            final(self).is_answered(),
            !old(self).is_answered() ==> (r is Ok <==> final(self).delivered()),
            reply_admits(
                old(self).is_answered(),
                r,
                HttpServerError::PrepareUploadAnswered,
                HttpServerError::PrepareUploadClosed,
            ),
            hands(old(self).reply_channel(), old(self).handed(), final(self).handed(), decision),
    {
        match self.decision_tx.take() {
            None => Err(HttpServerError::PrepareUploadAnswered),
            Some(tx) => {
                let (sent, handoff) = hand_over(tx, decision);
                self.handed = Some(handoff);
                match sent {
                    Ok(()) => Ok(()),
                    Err(_) => Err(HttpServerError::PrepareUploadClosed),
                }
            },
        }
    }
}

/// The upload target that saving at `path` hands over.
pub open spec fn is_path_target(target: FileUploadTarget, path: String) -> bool {
    target matches FileUploadTarget::Path { path: p, .. } && p == path
}

/// The upload target that saving into `fd` hands over.
pub open spec fn is_fd_target(target: FileUploadTarget, fd: i32) -> bool {
    target matches FileUploadTarget::Fd { fd: f, .. } && f == fd
}

/// Whether an upload target asks for the bytes as a stream.
pub open spec fn is_stream_target(target: FileUploadTarget) -> bool {
    target is Stream
}

/// What giving an upload target hands over: a request that still held its
/// channel hands a target satisfying `wanted` to that very channel; a
/// request answered before hands nothing.
pub open spec fn hands_target(
    channel: Option<oneshot::Sender<FileUploadTarget>>,
    before: Option<(oneshot::Sender<FileUploadTarget>, FileUploadTarget)>,
    after: Option<(oneshot::Sender<FileUploadTarget>, FileUploadTarget)>,
    wanted: spec_fn(FileUploadTarget) -> bool,
) -> bool {
    match channel {
        Some(tx) => after matches Some((t, target)) && t == tx && wanted(target),
        None => after == before,
    }
}

/// The Dart side's handle on one file of an accepted upload.
pub struct RsHttpServerFileUploadRequest {
    file_size: u64,
    target_tx: Option<oneshot::Sender<FileUploadTarget>>,
    handed: Option<Handoff<FileUploadTarget>>,
    result_pair: Option<OneshotPair<Result<(), String>>>,
    byte_pair: Option<MpscPair<Bytes>>,
}

/// The outcome of giving a target, as seen by `reply_admits`.
pub open spec fn unit_outcome<V>(r: Result<V, HttpServerError>) -> Result<(), HttpServerError> {
    match r {
        Ok(_) => Ok(()),
        Err(e) => Err(e),
    }
}

impl RsHttpServerFileUploadRequest {
    /// The channel the target goes to, while none was given.
    pub closed spec fn reply_channel(&self) -> Option<oneshot::Sender<FileUploadTarget>> {
        self.target_tx
    }

    /// The channel and the target its `send` was given, once answered.
    pub closed spec fn handed(&self) -> Option<(oneshot::Sender<FileUploadTarget>, FileUploadTarget)> {
        match self.handed {
            Some(h) => Some(h.record()),
            None => None,
        }
    }

    /// Whether the `send` that answered reported success.
    pub closed spec fn delivered(&self) -> bool {
        match self.handed {
            Some(h) => h.delivered(),
            None => false,
        }
    }

    /// Whether a target was given (or attempted).
    pub open spec fn is_answered(&self) -> bool {
        self.reply_channel() is None
    }

    /// The two ends of the one-shot channel made for the server's report
    /// on this file, once made: they are the ends of one channel.
    pub closed spec fn result_channel(&self) -> Option<
        (oneshot::Sender<Result<(), String>>, oneshot::Receiver<Result<(), String>>),
    > {
        match self.result_pair {
            Some(p) => Some((p.sender(), p.receiver())),
            None => None,
        }
    }

    /// The two ends of the channel made for the streamed bytes, once made:
    /// they are the ends of one channel.
    pub closed spec fn byte_channel(&self) -> Option<(mpsc::Sender<Bytes>, mpsc::Receiver<Bytes>)> {
        match self.byte_pair {
            Some(p) => Some((p.sender(), p.receiver())),
            None => None,
        }
    }

    /// The size that the file was announced with.
    pub closed spec fn announced_size(&self) -> u64 {
        self.file_size
    }

    /// A request for a file of `file_size` bytes whose target goes to
    /// `target_tx`.
    pub fn new(file_size: u64, target_tx: oneshot::Sender<FileUploadTarget>) -> (r: Self)
        ensures
            r.reply_channel() == Some(target_tx),
            r.announced_size() == file_size,
            r.handed() is None,
            r.result_channel() is None,
            r.byte_channel() is None,
    {
        RsHttpServerFileUploadRequest {
            file_size,
            target_tx: Some(target_tx),
            handed: None,
            result_pair: None,
            byte_pair: None,
        }
    }

    /// The size that the file was announced with.
    pub fn file_size(&self) -> (n: u64)
        ensures
            n == self.announced_size(),
    {
        self.file_size
    }

    /// Asks the server to save the file at `path`: a `Path` target with
    /// this path is handed over. On success, the receiver reports how
    /// saving ended; `flatten_file_result` turns that report into the final
    /// result.
    pub fn save_to_path(&mut self, path: String) -> (r: Result<
        oneshot::Receiver<Result<(), String>>,
        HttpServerError,
    >)
        ensures
            final(self).is_answered(),
            !old(self).is_answered() ==> (r is Ok <==> final(self).delivered()),
            final(self).announced_size() == old(self).announced_size(),
            reply_admits(
                old(self).is_answered(),
                unit_outcome(r),
                HttpServerError::FileUploadAnswered,
                HttpServerError::FileUploadClosed,
            ),
            hands_target(
                old(self).reply_channel(),
                old(self).handed(),
                final(self).handed(),
                |t: FileUploadTarget| is_path_target(t, path),
            ),
            !old(self).is_answered() ==> {
                &&& final(self).result_channel() matches Some((rtx, rrx))
                &&& final(self).handed() matches Some((_, target))
                &&& target matches FileUploadTarget::Path { result_tx: t, .. }
                &&& t == rtx
                &&& r matches Ok(rx) ==> rx == rrx
            },
            old(self).is_answered() ==> final(self).result_channel() == old(self).result_channel(),
    {
        let ghost wanted = path;
        let target_tx = self.take_target()?;
        let (result_tx, result_rx, pair) = oneshot_pair();
        self.result_pair = Some(pair);
        let target = FileUploadTarget::Path { path, result_tx };
        assert(is_path_target(target, wanted));
        let (sent, handoff) = hand_over(target_tx, target);
        self.handed = Some(handoff);
        match sent {
            Ok(()) => Ok(result_rx),
            Err(_) => Err(HttpServerError::FileUploadClosed),
        }
    }

    /// Asks the server to save the file into the open descriptor `fd`,
    /// which only Android supports (`fd_supported` says whether this
    /// platform is Android). Where supported, an `Fd` target with this
    /// descriptor is handed over, as `save_to_path` hands a path; where
    /// not, the request is refused and stays as it was.
    pub fn save_to_file_descriptor(&mut self, fd: i32, fd_supported: bool) -> (r: Result<
        oneshot::Receiver<Result<(), String>>,
        HttpServerError,
    >)
        ensures
            !fd_supported ==> (r matches Err(e) && e == HttpServerError::FileDescriptorsUnsupported
                && *final(self) == *old(self)),
            fd_supported ==> {
                &&& final(self).is_answered()
                &&& !old(self).is_answered() ==> (r is Ok <==> final(self).delivered())
                &&& final(self).announced_size() == old(self).announced_size()
                &&& reply_admits(
                    old(self).is_answered(),
                    unit_outcome(r),
                    HttpServerError::FileUploadAnswered,
                    HttpServerError::FileUploadClosed,
                )
                &&& hands_target(
                    old(self).reply_channel(),
                    old(self).handed(),
                    final(self).handed(),
                    |t: FileUploadTarget| is_fd_target(t, fd),
                )
                &&& !old(self).is_answered() ==> {
                    &&& final(self).result_channel() matches Some((rtx, rrx))
                    &&& final(self).handed() matches Some((_, target))
                    &&& target matches FileUploadTarget::Fd { result_tx: t, .. }
                    &&& t == rtx
                    &&& r matches Ok(rx) ==> rx == rrx
                }
                &&& old(self).is_answered() ==> final(self).result_channel() == old(self).result_channel()
            },
    {
        if !fd_supported {
            return Err(HttpServerError::FileDescriptorsUnsupported);
        }
        let target_tx = self.take_target()?;
        let (result_tx, result_rx, pair) = oneshot_pair();
        self.result_pair = Some(pair);
        let target = FileUploadTarget::Fd { fd, result_tx };
        let (sent, handoff) = hand_over(target_tx, target);
        self.handed = Some(handoff);
        match sent {
            Ok(()) => Ok(result_rx),
            Err(_) => Err(HttpServerError::FileUploadClosed),
        }
    }

    /// Asks the server to stream the file's bytes to the library: a
    /// `Stream` target is handed over. On success it gives the channel the
    /// bytes arrive on and the stream state that accounts for them, fresh
    /// for the announced size and holding the channel its result is
    /// reported on.
    pub fn receive(&mut self) -> (r: Result<(mpsc::Receiver<Bytes>, UploadStream), HttpServerError>)
        ensures
            final(self).is_answered(),
            !old(self).is_answered() ==> (r is Ok <==> final(self).delivered()),
            final(self).announced_size() == old(self).announced_size(),
            reply_admits(
                old(self).is_answered(),
                unit_outcome(r),
                HttpServerError::FileUploadAnswered,
                HttpServerError::FileUploadClosed,
            ),
            hands_target(
                old(self).reply_channel(),
                old(self).handed(),
                final(self).handed(),
                |t: FileUploadTarget| is_stream_target(t),
            ),
            r matches Ok((_, stream)) ==> {
                &&& stream@ == crate::upload::fresh_upload(old(self).announced_size() as int)
                &&& stream.report_channel() is Some
                &&& stream.reported() is None
            },
            !old(self).is_answered() ==> {
                &&& final(self).byte_channel() matches Some((btx, brx))
                &&& final(self).result_channel() matches Some((rtx, rrx))
                &&& final(self).handed() matches Some((_, target))
                &&& target == (FileUploadTarget::Stream { binary_tx: btx, result_rx: rrx })
                &&& r matches Ok((chunks, stream)) ==> {
                    &&& chunks == brx
                    &&& stream.report_channel() == Some(rtx)
                    &&& stream@ == crate::upload::fresh_upload(old(self).announced_size() as int)
                    &&& stream.reported() is None
                }
            },
    {
        let target_tx = self.take_target()?;
        let (binary_tx, binary_rx, bytes_pair) = mpsc_pair::<Bytes>(FILE_CHANNEL_CAPACITY);
        let (result_tx, result_rx, report_pair) = oneshot_pair::<Result<(), String>>();
        self.byte_pair = Some(bytes_pair);
        self.result_pair = Some(report_pair);
        let target = FileUploadTarget::Stream { binary_tx, result_rx };
        let (sent, handoff) = hand_over(target_tx, target);
        self.handed = Some(handoff);
        match sent {
            Ok(()) => Ok((binary_rx, UploadStream::new(self.file_size, result_tx))),
            Err(_) => Err(HttpServerError::FileUploadClosed),
        }
    }

    fn take_target(&mut self) -> (r: Result<oneshot::Sender<FileUploadTarget>, HttpServerError>)
        ensures
            final(self).is_answered(),
            final(self).announced_size() == old(self).announced_size(),
            final(self).handed() == old(self).handed(),
            final(self).delivered() == old(self).delivered(),
            final(self).result_channel() == old(self).result_channel(),
            final(self).byte_channel() == old(self).byte_channel(),
            match old(self).reply_channel() {
                Some(tx) => r == Ok::<oneshot::Sender<FileUploadTarget>, HttpServerError>(tx),
                None => r == Err::<oneshot::Sender<FileUploadTarget>, HttpServerError>(
                    HttpServerError::FileUploadAnswered,
                ),
            },
    {
        match self.target_tx.take() {
            Some(tx) => Ok(tx),
            None => Err(HttpServerError::FileUploadAnswered),
        }
    }
}

/// The final result of saving a file, from what the server reported: a
/// dropped report channel and a reported failure are both errors.
pub open spec fn spec_flatten_file_result(
    outcome: Result<Result<(), String>, oneshot::error::RecvError>,
) -> Result<(), HttpServerError> {
    match outcome {
        Err(_) => Err(HttpServerError::FileUploadResultClosed),
        Ok(Err(reason)) => Err(HttpServerError::Transfer(reason)),
        Ok(Ok(())) => Ok(()),
    }
}

/// Turns the server's report on a save into the final result.
pub fn flatten_file_result(outcome: Result<Result<(), String>, oneshot::error::RecvError>) -> (r:
    Result<(), HttpServerError>)
    ensures
        r == spec_flatten_file_result(outcome),
{
    match outcome {
        Err(_) => Err(HttpServerError::FileUploadResultClosed),
        Ok(Err(reason)) => Err(HttpServerError::Transfer(reason)),
        Ok(Ok(())) => Ok(()),
    }
}

/// The Dart side's handle on a prepare-download request.
pub struct RsHttpServerPrepareDownloadRequest {
    decision_tx: Option<oneshot::Sender<bool>>,
    handed: Option<Handoff<bool>>,
}

impl RsHttpServerPrepareDownloadRequest {
    /// The channel the answer goes to, while no answer was given.
    pub closed spec fn reply_channel(&self) -> Option<oneshot::Sender<bool>> {
        self.decision_tx
    }

    /// The channel and the answer its `send` was given, once answered.
    pub closed spec fn handed(&self) -> Option<(oneshot::Sender<bool>, bool)> {
        match self.handed {
            Some(h) => Some(h.record()),
            None => None,
        }
    }

    /// Whether the `send` that answered reported success.
    pub closed spec fn delivered(&self) -> bool {
        match self.handed {
            Some(h) => h.delivered(),
            None => false,
        }
    }

    /// Whether an answer was given (or attempted).
    pub open spec fn is_answered(&self) -> bool {
        self.reply_channel() is None
    }

    /// A request whose answer goes to `decision_tx`.
    pub fn new(decision_tx: oneshot::Sender<bool>) -> (r: Self)
        ensures
            r.reply_channel() == Some(decision_tx),
            r.handed() is None,
    {
        RsHttpServerPrepareDownloadRequest { decision_tx: Some(decision_tx), handed: None }
    }

    /// Lets the peer download: `true` is sent on the request's channel.
    pub fn accept(&mut self) -> (r: Result<(), HttpServerError>)
        ensures
            final(self).is_answered(),
            !old(self).is_answered() ==> (r is Ok <==> final(self).delivered()),
            reply_admits(
                old(self).is_answered(),
                r,
                HttpServerError::PrepareDownloadAnswered,
                HttpServerError::PrepareDownloadClosed,
            ),
            hands(old(self).reply_channel(), old(self).handed(), final(self).handed(), true),
    {
        self.respond(true)
    }

    /// Refuses the download: `false` is sent on the request's channel.
    pub fn decline(&mut self) -> (r: Result<(), HttpServerError>)
        ensures
            final(self).is_answered(),
            !old(self).is_answered() ==> (r is Ok <==> final(self).delivered()),
            reply_admits(
                old(self).is_answered(),
                r,
                HttpServerError::PrepareDownloadAnswered,
                HttpServerError::PrepareDownloadClosed,
            ),
            hands(old(self).reply_channel(), old(self).handed(), final(self).handed(), false),
    {
        self.respond(false)
    }

    fn respond(&mut self, accepted: bool) -> (r: Result<(), HttpServerError>)
        ensures
            final(self).is_answered(),
            !old(self).is_answered() ==> (r is Ok <==> final(self).delivered()),
            reply_admits(
                old(self).is_answered(),
                r,
                HttpServerError::PrepareDownloadAnswered,
                HttpServerError::PrepareDownloadClosed,
            ),
            hands(old(self).reply_channel(), old(self).handed(), final(self).handed(), accepted),
    {
        match self.decision_tx.take() {
            None => Err(HttpServerError::PrepareDownloadAnswered),
            Some(tx) => {
                let (sent, handoff) = hand_over(tx, accepted);
                self.handed = Some(handoff);
                match sent {
                    Ok(()) => Ok(()),
                    Err(_) => Err(HttpServerError::PrepareDownloadClosed),
                }
            },
        }
    }
}

/// The Dart side's handle on one file that a peer downloads.
pub struct RsHttpServerFileDownloadRequest {
    content_tx: Option<oneshot::Sender<FileContent>>,
    handed: Option<Handoff<FileContent>>,
    buffered: Option<(MpscPair<Bytes>, Queued<Bytes>)>,
}

impl RsHttpServerFileDownloadRequest {
    /// The channel the content goes to, while none was given.
    pub closed spec fn reply_channel(&self) -> Option<oneshot::Sender<FileContent>> {
        self.content_tx
    }

    /// The channel and the content its `send` was given, once answered.
    pub closed spec fn handed(&self) -> Option<(oneshot::Sender<FileContent>, FileContent)> {
        match self.handed {
            Some(h) => Some(h.record()),
            None => None,
        }
    }

    /// Whether the `send` that answered reported success.
    pub closed spec fn delivered(&self) -> bool {
        match self.handed {
            Some(h) => h.delivered(),
            None => false,
        }
    }

    /// The bytes that `try_send` put into the stream that `provide_bytes`
    /// handed over.
    pub closed spec fn buffered(&self) -> Option<Seq<u8>> {
        match self.buffered {
            Some((_, q)) => Some(bytes_contents(q.value())),
            None => None,
        }
    }

    /// The two ends of the one-slot channel that `provide_bytes` made (they
    /// are the ends of one channel), and the sender through which the bytes
    /// were put into a channel.
    pub closed spec fn buffer_channel(&self) -> Option<
        (mpsc::Sender<Bytes>, mpsc::Receiver<Bytes>, mpsc::Sender<Bytes>),
    > {
        match self.buffered {
            Some((p, q)) => Some((p.sender(), p.receiver(), q.sender())),
            None => None,
        }
    }

    /// Whether content was given (or attempted).
    pub open spec fn is_answered(&self) -> bool {
        self.reply_channel() is None
    }

    /// A request whose content goes to `content_tx`.
    pub fn new(content_tx: oneshot::Sender<FileContent>) -> (r: Self)
        ensures
            r.reply_channel() == Some(content_tx),
            r.handed() is None,
            r.buffered() is None,
            r.buffer_channel() is None,
    {
        RsHttpServerFileDownloadRequest {
            content_tx: Some(content_tx),
            handed: None,
            buffered: None,
        }
    }

    /// Serves the file at `path`: `Path(path)` is sent on the request's channel.
    pub fn provide_path(&mut self, path: String) -> (r: Result<(), HttpServerError>)
        ensures
            final(self).is_answered(),
            !old(self).is_answered() ==> (r is Ok <==> final(self).delivered()),
            final(self).buffered() == old(self).buffered(),
            final(self).buffer_channel() == old(self).buffer_channel(),
            reply_admits(
                old(self).is_answered(),
                r,
                HttpServerError::FileDownloadAnswered,
                HttpServerError::FileDownloadClosed,
            ),
            hands(
                old(self).reply_channel(),
                old(self).handed(),
                final(self).handed(),
                FileContent::Path(path),
            ),
    {
        self.send_content(FileContent::Path(path))
    }

    /// Serves the file behind the open descriptor `fd`, which only Android
    /// supports (`fd_supported` says whether this platform is Android).
    /// Where supported, `Fd(fd)` is sent on the request's channel; where not, the
    /// request is refused and stays as it was.
    pub fn provide_file_descriptor(&mut self, fd: i32, fd_supported: bool) -> (r: Result<
        (),
        HttpServerError,
    >)
        ensures
            !fd_supported ==> r == Err::<(), HttpServerError>(
                HttpServerError::FileDescriptorsUnsupported,
            ) && *final(self) == *old(self),
            fd_supported ==> {
                &&& final(self).is_answered()
                &&& !old(self).is_answered() ==> (r is Ok <==> final(self).delivered())
                &&& final(self).buffered() == old(self).buffered()
                &&& final(self).buffer_channel() == old(self).buffer_channel()
                &&& reply_admits(
                    old(self).is_answered(),
                    r,
                    HttpServerError::FileDownloadAnswered,
                    HttpServerError::FileDownloadClosed,
                )
                &&& hands(
                    old(self).reply_channel(),
                    old(self).handed(),
                    final(self).handed(),
                    FileContent::Fd(fd),
                )
            },
    {
        if !fd_supported {
            return Err(HttpServerError::FileDescriptorsUnsupported);
        }
        self.send_content(FileContent::Fd(fd))
    }

    /// Serves the given bytes: they are put into a fresh channel of one
    /// slot, whose receiving end is sent on the request's channel as the content.
    /// A request answered before refuses at once. If the bytes cannot be
    /// put into the channel, the request stays as it was.
    pub fn provide_bytes(&mut self, data: Vec<u8>) -> (r: Result<(), HttpServerError>)
        ensures
            old(self).is_answered() ==> r == Err::<(), HttpServerError>(
                HttpServerError::FileDownloadAnswered,
            ) && *final(self) == *old(self),
            !old(self).is_answered() && r == Err::<(), HttpServerError>(
                HttpServerError::DownloadBufferFailed,
            ) ==> *final(self) == *old(self),
            !old(self).is_answered() && r != Err::<(), HttpServerError>(
                HttpServerError::DownloadBufferFailed,
            ) ==> {
                &&& final(self).is_answered()
                &&& (r is Ok <==> final(self).delivered())
                &&& (r == Ok::<(), HttpServerError>(()) || r == Err::<(), HttpServerError>(
                    HttpServerError::FileDownloadClosed,
                ))
                &&& final(self).handed() matches Some((t, content))
                &&& Some(t) == old(self).reply_channel()
                &&& final(self).buffered() == Some(data@)
                &&& final(self).buffer_channel() matches Some((btx, brx, through))
                &&& through == btx
                &&& content == FileContent::Stream(brx)
            },
    {
        if self.content_tx.is_none() {
            return Err(HttpServerError::FileDownloadAnswered);
        }
        let (queued, pair, buffered) = {
            let (tx, rx, pair) = mpsc_pair::<Bytes>(1);
            let chunk = bytes_from_vec(data);
            match queue(&tx, chunk) {
                Ok(queued) => (queued, pair, rx),
                Err(()) => {
                    return Err(HttpServerError::DownloadBufferFailed);
                },
            }
        };
        self.buffered = Some((pair, queued));
        self.send_content(FileContent::Stream(buffered))
    }

    /// Serves the bytes that arrive on `receiver`: `Stream(receiver)` is
    /// sent on the request's channel.
    pub fn provide_stream(&mut self, receiver: mpsc::Receiver<Bytes>) -> (r: Result<
        (),
        HttpServerError,
    >)
        ensures
            final(self).is_answered(),
            !old(self).is_answered() ==> (r is Ok <==> final(self).delivered()),
            final(self).buffered() == old(self).buffered(),
            final(self).buffer_channel() == old(self).buffer_channel(),
            reply_admits(
                old(self).is_answered(),
                r,
                HttpServerError::FileDownloadAnswered,
                HttpServerError::FileDownloadClosed,
            ),
            hands(
                old(self).reply_channel(),
                old(self).handed(),
                final(self).handed(),
                FileContent::Stream(receiver),
            ),
    {
        self.send_content(FileContent::Stream(receiver))
    }

    fn send_content(&mut self, content: FileContent) -> (r: Result<(), HttpServerError>)
        ensures
            final(self).is_answered(),
            !old(self).is_answered() ==> (r is Ok <==> final(self).delivered()),
            final(self).buffered() == old(self).buffered(),
            final(self).buffer_channel() == old(self).buffer_channel(),
            reply_admits(
                old(self).is_answered(),
                r,
                HttpServerError::FileDownloadAnswered,
                HttpServerError::FileDownloadClosed,
            ),
            hands(old(self).reply_channel(), old(self).handed(), final(self).handed(), content),
    {
        match self.content_tx.take() {
            None => Err(HttpServerError::FileDownloadAnswered),
            Some(tx) => {
                let (sent, handoff) = hand_over(tx, content);
                self.handed = Some(handoff);
                match sent {
                    Ok(()) => Ok(()),
                    Err(_) => Err(HttpServerError::FileDownloadClosed),
                }
            },
        }
    }
}

/// A request answers at most once: the first answer is never refused as
/// already answered, and every answer after it is.
pub proof fn lemma_reply_at_most_once(
    first: Result<(), HttpServerError>,
    second: Result<(), HttpServerError>,
    refused: HttpServerError,
    closed: HttpServerError,
)
    requires
        refused != closed,
        reply_admits(false, first, refused, closed),
        reply_admits(true, second, refused, closed),
    ensures
        first != Err::<(), HttpServerError>(refused),
        second == Err::<(), HttpServerError>(refused),
{
}

/// An answer is handed over once: after a first answer hands its value, a
/// request without its channel hands nothing more, so the record of what
/// was handed stays the first answer's.
pub proof fn lemma_handed_once<T>(
    tx: oneshot::Sender<T>,
    before: Option<(oneshot::Sender<T>, T)>,
    first_record: Option<(oneshot::Sender<T>, T)>,
    second_record: Option<(oneshot::Sender<T>, T)>,
    first: T,
    second: T,
)
    requires
        hands(Some(tx), before, first_record, first),
        hands(None, first_record, second_record, second),
    ensures
        second_record == Some((tx, first)),
{
}

/// The record of what was handed over after answering with each of
/// `values` in turn, on a request that holds `channel` and has `record`:
/// each answer acts as `hands` states.
pub open spec fn record_after_answers<T>(
    channel: Option<oneshot::Sender<T>>,
    record: Option<(oneshot::Sender<T>, T)>,
    values: Seq<T>,
) -> Option<(oneshot::Sender<T>, T)>
    decreases values.len(),
{
    if values.len() == 0 {
        record
    } else {
        let next = match channel {
            Some(tx) => Some((tx, values[0])),
            None => record,
        };
        record_after_answers(None, next, values.drop_first())
    }
}

proof fn lemma_no_channel_keeps_record<T>(
    record: Option<(oneshot::Sender<T>, T)>,
    values: Seq<T>,
)
    ensures
        record_after_answers(None, record, values) == record,
    decreases values.len(),
{
    if values.len() > 0 {
        lemma_no_channel_keeps_record(record, values.drop_first());
    }
}

/// Whatever answers follow one another on a request, only the first is
/// ever handed over, on the request's own channel; a request answered
/// before hands nothing at all. (Each answer gives up the channel, so
/// `hands` with no channel keeps the record.)
pub proof fn lemma_only_first_answer_handed<T>(
    tx: oneshot::Sender<T>,
    record: Option<(oneshot::Sender<T>, T)>,
    values: Seq<T>,
)
    requires
        values.len() > 0,
    ensures
        record_after_answers(Some(tx), record, values) == Some((tx, values[0])),
        record_after_answers(None, record, values) == record,
        forall|before: Option<(oneshot::Sender<T>, T)>, after: Option<(oneshot::Sender<T>, T)>, v: T|
            hands(Some(tx), before, after, v) <==> after == record_after_answers(
                Some(tx),
                before,
                seq![v],
            ),
{
    lemma_no_channel_keeps_record(Some((tx, values[0])), values.drop_first());
    lemma_no_channel_keeps_record(record, values);
    assert forall|before: Option<(oneshot::Sender<T>, T)>, after: Option<(oneshot::Sender<T>, T)>, v: T|
        hands(Some(tx), before, after, v) <==> after == record_after_answers(
            Some(tx),
            before,
            seq![v],
        ) by {
        lemma_no_channel_keeps_record(Some((tx, v)), seq![v].drop_first());
    }
}

/// One upload target per request: after `save_to_path`, `receive` or
/// `save_to_file_descriptor` took the channel, every later call of any of
/// them hands nothing, and the target handed first stays the record.
pub proof fn lemma_one_upload_target(
    tx: oneshot::Sender<FileUploadTarget>,
    before: Option<(oneshot::Sender<FileUploadTarget>, FileUploadTarget)>,
    first: Option<(oneshot::Sender<FileUploadTarget>, FileUploadTarget)>,
    second: Option<(oneshot::Sender<FileUploadTarget>, FileUploadTarget)>,
    first_wanted: spec_fn(FileUploadTarget) -> bool,
    second_wanted: spec_fn(FileUploadTarget) -> bool,
)
    requires
        hands_target(Some(tx), before, first, first_wanted),
        hands_target(None, first, second, second_wanted),
    ensures
        second == first,
        second matches Some((t, target)) && t == tx && first_wanted(target),
{
}

} // verus!
