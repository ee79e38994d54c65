//! Accounting of a streamed upload: the bytes that arrive are counted
//! against the announced size, and the stream ends with a result that is
//! also reported back to the server.
use crate::channel::{bytes_contents, bytes_len, bytes_to_vec, hand_over, Handoff};
use crate::error::{decimal_string, decimal_text, HttpServerError};
use bytes::Bytes;
use tokio::sync::oneshot;
use vstd::prelude::*;

verus! {

/// The state of a streamed upload: the announced size, the number of bytes
/// received so far, and the reason it failed, once it has.
pub struct UploadProgress {
    pub expected: int,
    pub received: int,
    pub failure: Option<Seq<char>>,
}

/// "Expected {expected} bytes, received at least {received}".
pub open spec fn overflow_text(expected: int, received: int) -> Seq<char> {
    "Expected "@ + decimal_text(expected as nat) + " bytes, received at least "@ + decimal_text(
        received as nat,
    )
}

/// "Expected {expected} bytes, received {received}".
pub open spec fn mismatch_text(expected: int, received: int) -> Seq<char> {
    "Expected "@ + decimal_text(expected as nat) + " bytes, received "@ + decimal_text(
        received as nat,
    )
}

/// The reason given when the Dart listener went away.
pub open spec fn listener_closed_text() -> Seq<char> {
    "File-upload stream listener closed"@
}

/// A stream that nothing has arrived on yet.
pub open spec fn fresh_upload(expected: int) -> UploadProgress {
    UploadProgress { expected, received: 0, failure: None }
}

/// The state after a chunk of `len` bytes arrived: the bytes are counted,
/// and the stream fails once more bytes arrived than were announced. A
/// stream that failed stays as it is.
pub open spec fn after_chunk(p: UploadProgress, len: int) -> UploadProgress {
    if p.failure is Some {
        p
    } else if p.received + len > p.expected {
        UploadProgress {
            received: p.received + len,
            failure: Some(overflow_text(p.expected, p.received + len)),
            ..p
        }
    } else {
        UploadProgress { received: p.received + len, ..p }
    }
}

/// The state after the Dart listener went away.
pub open spec fn after_listener_closed(p: UploadProgress) -> UploadProgress {
    if p.failure is Some {
        p
    } else {
        UploadProgress { failure: Some(listener_closed_text()), ..p }
    }
}

/// How a stream that ended in state `p` ended: its failure, if it failed;
/// otherwise success exactly when the announced number of bytes arrived.
pub open spec fn upload_result(p: UploadProgress) -> Result<(), Seq<char>> {
    match p.failure {
        Some(reason) => Err(reason),
        None => if p.received == p.expected {
            Ok(())
        } else {
            Err(mismatch_text(p.expected, p.received))
        },
    }
}

/// The library's side of a streamed upload.
pub struct UploadStream {
    expected: u64,
    received: u64,
    failure: Option<String>,
    result_tx: Option<oneshot::Sender<Result<(), String>>>,
    reported: Option<Handoff<Result<(), String>>>,
}

/// A result as text: success, or the reason of a failure.
pub open spec fn report_text(r: Result<(), String>) -> Result<(), Seq<char>> {
    match r {
        Ok(()) => Ok(()),
        Err(reason) => Err(reason@),
    }
}

impl View for UploadStream {
    type V = UploadProgress;

    closed spec fn view(&self) -> UploadProgress {
        UploadProgress {
            expected: self.expected as int,
            received: self.received as int,
            failure: match self.failure {
                Some(reason) => Some(reason@),
                None => None,
            },
        }
    }
}

fn overflow_message(expected: u64, received: u64) -> (s: String)
    ensures
        s@ == overflow_text(expected as int, received as int),
{
    let mut s = String::from_str("Expected ");
    let e = decimal_string(expected);
    s.append(e.as_str());
    s.append(" bytes, received at least ");
    let r = decimal_string(received);
    s.append(r.as_str());
    s
}

fn mismatch_message(expected: u64, received: u64) -> (s: String)
    ensures
        s@ == mismatch_text(expected as int, received as int),
{
    let mut s = String::from_str("Expected ");
    let e = decimal_string(expected);
    s.append(e.as_str());
    s.append(" bytes, received ");
    let r = decimal_string(received);
    s.append(r.as_str());
    s
}

impl UploadStream {
    /// A stream for `expected` bytes that reports its end on `result_tx`.
    pub fn new(expected: u64, result_tx: oneshot::Sender<Result<(), String>>) -> (r: Self)
        ensures
            r@ == fresh_upload(expected as int),
            r.report_channel() == Some(result_tx),
            r.reported() is None,
    {
        UploadStream {
            expected,
            received: 0,
            failure: None,
            result_tx: Some(result_tx),
            reported: None,
        }
    }

    /// The channel the stream's result is reported on, until reported.
    pub closed spec fn report_channel(&self) -> Option<oneshot::Sender<Result<(), String>>> {
        self.result_tx
    }

    /// The channel and the report given to its `send`, once reported.
    pub closed spec fn reported(&self) -> Option<(oneshot::Sender<Result<(), String>>, Result<(), String>)> {
        match self.reported {
            Some(h) => Some(h.record()),
            None => None,
        }
    }

    /// Whether `on_chunk` may be given `chunk`: the stream has failed (and
    /// counts nothing more), or its count stays within `u64`.
    pub fn fits(&self, chunk: &Bytes) -> (b: bool)
        ensures
            b == (self@.failure is Some || self@.received + bytes_contents(*chunk).len() <= u64::MAX),
    {
        if self.failure.is_some() {
            return true;
        }
        let len: u64 = bytes_len(chunk) as u64;
        len <= u64::MAX - self.received
    }

    /// The number of bytes received so far.
    pub fn received(&self) -> (n: u64)
        ensures
            n == self@.received,
    {
        self.received
    }

    /// Whether the stream has failed.
    pub fn has_failed(&self) -> (b: bool)
        ensures
            b == self@.failure is Some,
    {
        self.failure.is_some()
    }

    /// Counts a chunk that arrived. Gives the chunk's bytes to pass on to
    /// the Dart listener, or `None` when the stream has failed (now or
    /// before), in which case nothing is to be passed on and the stream is
    /// over. A count past `u64::MAX` is left out.
    pub fn on_chunk(&mut self, chunk: Bytes) -> (r: Option<Vec<u8>>)
        requires
            old(self)@.failure is None ==> old(self)@.received + bytes_contents(chunk).len()
                <= u64::MAX,
        ensures
            final(self)@ == after_chunk(old(self)@, bytes_contents(chunk).len() as int),
            final(self).report_channel() == old(self).report_channel(),
            final(self).reported() == old(self).reported(),
            r is Some <==> final(self)@.failure is None,
            r matches Some(v) ==> v@ == bytes_contents(chunk),
    {
        if self.failure.is_some() {
            return None;
        }
        let len: u64 = bytes_len(&chunk) as u64;
        self.received = self.received + len;
        if self.received > self.expected {
            self.failure = Some(overflow_message(self.expected, self.received));
            None
        } else {
            Some(bytes_to_vec(&chunk))
        }
    }

    /// Records that the Dart listener went away; the stream is over.
    pub fn listener_closed(&mut self)
        ensures
            final(self)@ == after_listener_closed(old(self)@),
            final(self).report_channel() == old(self).report_channel(),
            final(self).reported() == old(self).reported(),
    {
        if self.failure.is_none() {
            self.failure = Some(String::from_str("File-upload stream listener closed"));
        }
    }

    /// Ends the stream: reports its result on the report channel, if it was
    /// not reported before (whether or not the server still listens), and
    /// gives it, with a failure's reason as a transfer error. The report
    /// handed over is the result given.
    pub fn complete(&mut self) -> (r: Result<(), HttpServerError>)
        ensures
            final(self)@ == old(self)@,
            final(self).report_channel() is None,
            match upload_result(old(self)@) {
                Ok(()) => r == Ok::<(), HttpServerError>(()),
                Err(reason) => r matches Err(HttpServerError::Transfer(s)) && s@ == reason,
            },
            match old(self).report_channel() {
                Some(tx) => final(self).reported() matches Some((t, report)) && t == tx
                    && report_text(report) == upload_result(old(self)@),
                None => final(self).reported() == old(self).reported(),
            },
    {
        let result: Result<(), String> = match &self.failure {
            Some(reason) => Err(reason.clone()),
            None => if self.received == self.expected {
                Ok(())
            } else {
                Err(mismatch_message(self.expected, self.received))
            },
        };
        let report: Result<(), String> = match &result {
            Ok(()) => Ok(()),
            Err(reason) => Err(reason.clone()),
        };
        if let Some(tx) = self.result_tx.take() {
            let (_, handoff) = hand_over(tx, report);
            self.reported = Some(handoff);
        }
        match result {
            Ok(()) => Ok(()),
            Err(reason) => Err(HttpServerError::Transfer(reason)),
        }
    }
}

/// The total length of a sequence of chunks.
pub open spec fn total(lens: Seq<int>) -> int
    decreases lens.len(),
{
    if lens.len() == 0 {
        0
    } else {
        lens[0] + total(lens.drop_first())
    }
}

/// The state after chunks of the given lengths arrived, in order.
pub open spec fn after_chunks(p: UploadProgress, lens: Seq<int>) -> UploadProgress
    decreases lens.len(),
{
    if lens.len() == 0 {
        p
    } else {
        after_chunks(after_chunk(p, lens[0]), lens.drop_first())
    }
}

/// Chunk lengths are never negative.
pub open spec fn all_lengths(lens: Seq<int>) -> bool {
    forall|i: int| 0 <= i < lens.len() ==> 0 <= #[trigger] lens[i]
}

proof fn lemma_failed_stays(p: UploadProgress, lens: Seq<int>)
    requires
        p.failure is Some,
    ensures
        after_chunks(p, lens) == p,
    decreases lens.len(),
{
    if lens.len() > 0 {
        lemma_failed_stays(after_chunk(p, lens[0]), lens.drop_first());
    }
}

proof fn lemma_counting(p: UploadProgress, lens: Seq<int>)
    requires
        p.failure is None,
        p.received <= p.expected,
        all_lengths(lens),
    ensures
        after_chunks(p, lens).expected == p.expected,
        after_chunks(p, lens).failure is None <==> p.received + total(lens) <= p.expected,
        after_chunks(p, lens).failure is None ==> after_chunks(p, lens).received == p.received
            + total(lens),
        after_chunks(p, lens).failure is Some ==> exists|t: int|
            t > p.expected && after_chunks(p, lens).failure == Some(
                #[trigger] overflow_text(p.expected, t),
            ),
    decreases lens.len(),
{
    if lens.len() > 0 {
        let rest = lens.drop_first();
        assert(all_lengths(rest)) by {
            assert forall|i: int| 0 <= i < rest.len() implies 0 <= #[trigger] rest[i] by {
                assert(rest[i] == lens[i + 1]);
            }
        }
        assert(0 <= lens[0]);
        let q = after_chunk(p, lens[0]);
        if q.failure is Some {
            lemma_failed_stays(q, rest);
            lemma_total_nonneg(rest);
            let t = p.received + lens[0];
            assert(q.failure == Some(overflow_text(p.expected, t)));
        } else {
            lemma_counting(q, rest);
        }
    }
}

proof fn lemma_total_nonneg(lens: Seq<int>)
    requires
        all_lengths(lens),
    ensures
        total(lens) >= 0,
    decreases lens.len(),
{
    if lens.len() > 0 {
        let rest = lens.drop_first();
        assert(all_lengths(rest)) by {
            assert forall|i: int| 0 <= i < rest.len() implies 0 <= #[trigger] rest[i] by {
                assert(rest[i] == lens[i + 1]);
            }
        }
        assert(0 <= lens[0]);
        lemma_total_nonneg(rest);
    }
}

/// A streamed upload that ends after its chunks arrived succeeds exactly
/// when the chunks add up to the announced size. When they fall short, the
/// reason names the announced size and the bytes that arrived; when they
/// go beyond it, the stream failed as soon as they did.
pub proof fn lemma_upload_succeeds_iff_sizes_match(expected: nat, lens: Seq<int>)
    requires
        all_lengths(lens),
    ensures
        upload_result(after_chunks(fresh_upload(expected as int), lens)) is Ok <==> total(lens)
            == expected,
        total(lens) < expected ==> upload_result(after_chunks(fresh_upload(expected as int), lens))
            == Err::<(), Seq<char>>(mismatch_text(expected as int, total(lens))),
        total(lens) > expected ==> exists|t: int|
            t > expected && upload_result(after_chunks(fresh_upload(expected as int), lens))
                == Err::<(), Seq<char>>(#[trigger] overflow_text(expected as int, t)),
{
    lemma_counting(fresh_upload(expected as int), lens);
}

/// The number of bytes passed on to the Dart listener while chunks of the
/// given lengths arrive, in order: a chunk is passed on exactly when the
/// stream has not failed after counting it (as `on_chunk` states).
pub open spec fn forwarded(p: UploadProgress, lens: Seq<int>) -> int
    decreases lens.len(),
{
    if lens.len() == 0 {
        0
    } else {
        let q = after_chunk(p, lens[0]);
        (if q.failure is None { lens[0] } else { 0 }) + forwarded(q, lens.drop_first())
    }
}

proof fn lemma_failed_forwards_nothing(p: UploadProgress, lens: Seq<int>)
    requires
        p.failure is Some,
    ensures
        forwarded(p, lens) == 0,
    decreases lens.len(),
{
    if lens.len() > 0 {
        lemma_failed_forwards_nothing(after_chunk(p, lens[0]), lens.drop_first());
    }
}

proof fn lemma_forwarding(p: UploadProgress, lens: Seq<int>)
    requires
        p.failure is None,
        p.received <= p.expected,
        all_lengths(lens),
    ensures
        p.received + forwarded(p, lens) <= p.expected,
        after_chunks(p, lens).failure is None ==> forwarded(p, lens) == total(lens),
    decreases lens.len(),
{
    if lens.len() > 0 {
        let rest = lens.drop_first();
        assert(all_lengths(rest)) by {
            assert forall|i: int| 0 <= i < rest.len() implies 0 <= #[trigger] rest[i] by {
                assert(rest[i] == lens[i + 1]);
            }
        }
        assert(0 <= lens[0]);
        let q = after_chunk(p, lens[0]);
        if q.failure is Some {
            lemma_failed_forwards_nothing(q, rest);
            lemma_failed_stays(q, rest);
        } else {
            lemma_forwarding(q, rest);
        }
    }
}

/// A streamed upload never passes on more bytes than were announced, at any
/// point (for every prefix of the chunks), and it succeeds only after
/// passing on exactly the announced number of bytes.
pub proof fn lemma_upload_forwards_within_size(expected: nat, lens: Seq<int>)
    requires
        all_lengths(lens),
    ensures
        forwarded(fresh_upload(expected as int), lens) <= expected,
        upload_result(after_chunks(fresh_upload(expected as int), lens)) is Ok ==> forwarded(
            fresh_upload(expected as int),
            lens,
        ) == expected,
{
    lemma_forwarding(fresh_upload(expected as int), lens);
    lemma_counting(fresh_upload(expected as int), lens);
}

} // verus!
