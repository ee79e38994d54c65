use vstd::prelude::*;

verus! {

/// The decimal digit `d` (for `d < 10`) as a character.
pub open spec fn digit_char(d: nat) -> char {
    if d == 0 { '0' }
    else if d == 1 { '1' }
    else if d == 2 { '2' }
    else if d == 3 { '3' }
    else if d == 4 { '4' }
    else if d == 5 { '5' }
    else if d == 6 { '6' }
    else if d == 7 { '7' }
    else if d == 8 { '8' }
    else { '9' }
}

/// The decimal rendering of `n`, without sign or leading zeros.
pub open spec fn decimal_text(n: nat) -> Seq<char>
    decreases n,
{
    if n < 10 {
        seq![digit_char(n)]
    } else {
        decimal_text(n / 10).push(digit_char(n % 10))
    }
}

fn digit_str(d: u64) -> (s: &'static str)
    requires
        d < 10,
    ensures
        s@ == seq![digit_char(d as nat)],
{
    proof {
        reveal_strlit("0");
        reveal_strlit("1");
        reveal_strlit("2");
        reveal_strlit("3");
        reveal_strlit("4");
        reveal_strlit("5");
        reveal_strlit("6");
        reveal_strlit("7");
        reveal_strlit("8");
        reveal_strlit("9");
    }
    if d == 0 { "0" }
    else if d == 1 { "1" }
    else if d == 2 { "2" }
    else if d == 3 { "3" }
    else if d == 4 { "4" }
    else if d == 5 { "5" }
    else if d == 6 { "6" }
    else if d == 7 { "7" }
    else if d == 8 { "8" }
    else { "9" }
}

/// Renders `n` in decimal.
pub fn decimal_string(n: u64) -> (s: String)
    ensures
        s@ == decimal_text(n as nat),
    decreases n,
{
    if n < 10 {
        String::from_str(digit_str(n))
    } else {
        let mut s = decimal_string(n / 10);
        s.append(digit_str(n % 10));
        s
    }
}


/// Why an operation of the server or of one of its requests was refused or
/// failed. `message` gives the text that the Dart side is shown.
#[derive(Debug, PartialEq, Eq)]
pub enum HttpServerError {
    /// `start` while the server is running.
    AlreadyStarted,
    /// `start` after `stop`.
    AlreadyStopped,
    /// `listen` a second time.
    EventsAlreadyListened,
    /// The prepare-upload request was answered before.
    PrepareUploadAnswered,
    /// The peer no longer waits for the prepare-upload answer.
    PrepareUploadClosed,
    /// The file-upload request was answered before.
    FileUploadAnswered,
    /// The peer no longer waits for the file-upload target.
    FileUploadClosed,
    /// The server dropped the channel that reports how saving ended.
    FileUploadResultClosed,
    /// File descriptors can only be used on Android.
    FileDescriptorsUnsupported,
    /// The prepare-download request was answered before.
    PrepareDownloadAnswered,
    /// The peer no longer waits for the prepare-download answer.
    PrepareDownloadClosed,
    /// The file-download request was answered before.
    FileDownloadAnswered,
    /// The peer no longer waits for the file content.
    FileDownloadClosed,
    /// Bytes to download could not be put into their stream.
    DownloadBufferFailed,
    /// A transfer failed with the given reason.
    Transfer(String),
}

/// The text shown for each error.
pub open spec fn error_text(e: HttpServerError) -> Seq<char> {
    match e {
        HttpServerError::AlreadyStarted => "HTTP server already started"@,
        HttpServerError::AlreadyStopped => "HTTP server already stopped"@,
        HttpServerError::EventsAlreadyListened => "HTTP server events already listened to"@,
        HttpServerError::PrepareUploadAnswered => "Prepare-upload request already answered"@,
        HttpServerError::PrepareUploadClosed => "Prepare-upload request closed"@,
        HttpServerError::FileUploadAnswered => "File-upload request already answered"@,
        HttpServerError::FileUploadClosed => "File-upload request closed"@,
        HttpServerError::FileUploadResultClosed => "File-upload result channel closed"@,
        HttpServerError::FileDescriptorsUnsupported => "File descriptors are only supported on Android"@,
        HttpServerError::PrepareDownloadAnswered => "Prepare-download request already answered"@,
        HttpServerError::PrepareDownloadClosed => "Prepare-download request closed"@,
        HttpServerError::FileDownloadAnswered => "File-download request already answered"@,
        HttpServerError::FileDownloadClosed => "File-download request closed"@,
        HttpServerError::DownloadBufferFailed => "Failed to buffer download content"@,
        HttpServerError::Transfer(reason) => reason@,
    }
}

impl HttpServerError {
    /// The text of this error.
    pub fn message(&self) -> (s: String)
        ensures
            s@ == error_text(*self),
    {
        match self {
            HttpServerError::AlreadyStarted => String::from_str("HTTP server already started"),
            HttpServerError::AlreadyStopped => String::from_str("HTTP server already stopped"),
            HttpServerError::EventsAlreadyListened => String::from_str("HTTP server events already listened to"),
            HttpServerError::PrepareUploadAnswered => String::from_str("Prepare-upload request already answered"),
            HttpServerError::PrepareUploadClosed => String::from_str("Prepare-upload request closed"),
            HttpServerError::FileUploadAnswered => String::from_str("File-upload request already answered"),
            HttpServerError::FileUploadClosed => String::from_str("File-upload request closed"),
            HttpServerError::FileUploadResultClosed => String::from_str("File-upload result channel closed"),
            HttpServerError::FileDescriptorsUnsupported => String::from_str("File descriptors are only supported on Android"),
            HttpServerError::PrepareDownloadAnswered => String::from_str("Prepare-download request already answered"),
            HttpServerError::PrepareDownloadClosed => String::from_str("Prepare-download request closed"),
            HttpServerError::FileDownloadAnswered => String::from_str("File-download request already answered"),
            HttpServerError::FileDownloadClosed => String::from_str("File-download request closed"),
            HttpServerError::DownloadBufferFailed => String::from_str("Failed to buffer download content"),
            HttpServerError::Transfer(reason) => reason.clone(),
        }
    }
}

} // verus!
