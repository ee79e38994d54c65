//! The events that the server reports to the Dart side, what each of them
//! carries, and how the server's own events become them.
use crate::request::{
    FileContent, FileUploadTarget, PrepareUploadDecision, RsHttpServerFileDownloadRequest,
    RsHttpServerFileUploadRequest, RsHttpServerPrepareDownloadRequest,
    RsHttpServerPrepareUploadRequest,
};
use crate::wire::{register_dto_from_v2, spec_register_dto_from_v2, FileDto, RegisterDto, RegisterDtoV2};
use std::collections::HashMap;
use tokio::sync::oneshot;
use vstd::prelude::*;

verus! {

/// How a transfer session ended.
#[derive(Clone, Copy, Debug, PartialEq, Eq, Structural)]
pub enum RsHttpServerSessionEndReason {
    Finished,
    Cancelled,
}

/// Which event an `RsHttpServerEvent` is.
#[derive(Clone, Copy, Debug, PartialEq, Eq, Structural)]
pub enum RsHttpServerEventKind {
    Show,
    Register,
    PrepareUpload,
    FileUpload,
    SessionEnd,
    PrepareDownload,
    FileDownload,
}

/// An event that the server reports to the Dart side.
#[allow(inconsistent_fields)]
pub enum RsHttpServerEvent {
    /// Another instance asked this one to show itself.
    Show { args: Vec<String> },
    /// A peer registered.
    Register { ip: String, info: RegisterDto },
    /// A peer wants to send files.
    PrepareUpload {
        ip: String,
        info: RegisterDto,
        files: HashMap<String, FileDto>,
        request: Option<RsHttpServerPrepareUploadRequest>,
    },
    /// A file of an accepted upload arrives.
    FileUpload {
        session_id: String,
        file_id: String,
        file: FileDto,
        request: Option<RsHttpServerFileUploadRequest>,
    },
    /// A transfer session ended.
    SessionEnd { session_id: String, reason: RsHttpServerSessionEndReason },
    /// A browser wants to download the shared files.
    PrepareDownload {
        ip: String,
        session_id: String,
        user_agent: Option<String>,
        request: Option<RsHttpServerPrepareDownloadRequest>,
    },
    /// A browser downloads one file.
    FileDownload {
        session_id: String,
        file_id: String,
        file: FileDto,
        request: Option<RsHttpServerFileDownloadRequest>,
    },
}

/// The kind of an event.
pub open spec fn event_kind(e: &RsHttpServerEvent) -> RsHttpServerEventKind {
    match e {
        RsHttpServerEvent::Show { .. } => RsHttpServerEventKind::Show,
        RsHttpServerEvent::Register { .. } => RsHttpServerEventKind::Register,
        RsHttpServerEvent::PrepareUpload { .. } => RsHttpServerEventKind::PrepareUpload,
        RsHttpServerEvent::FileUpload { .. } => RsHttpServerEventKind::FileUpload,
        RsHttpServerEvent::SessionEnd { .. } => RsHttpServerEventKind::SessionEnd,
        RsHttpServerEvent::PrepareDownload { .. } => RsHttpServerEventKind::PrepareDownload,
        RsHttpServerEvent::FileDownload { .. } => RsHttpServerEventKind::FileDownload,
    }
}

/// The arguments of a show event.
pub open spec fn event_args(e: &RsHttpServerEvent) -> Option<Seq<String>> {
    match e {
        RsHttpServerEvent::Show { args } => Some(args@),
        _ => None,
    }
}

/// The peer address of a register, prepare-upload or prepare-download event.
pub open spec fn event_ip(e: &RsHttpServerEvent) -> Option<String> {
    match e {
        RsHttpServerEvent::Register { ip, .. } => Some(*ip),
        RsHttpServerEvent::PrepareUpload { ip, .. } => Some(*ip),
        RsHttpServerEvent::PrepareDownload { ip, .. } => Some(*ip),
        _ => None,
    }
}

/// The peer registration of a register or prepare-upload event.
pub open spec fn event_info(e: &RsHttpServerEvent) -> Option<RegisterDto> {
    match e {
        RsHttpServerEvent::Register { info, .. } => Some(*info),
        RsHttpServerEvent::PrepareUpload { info, .. } => Some(*info),
        _ => None,
    }
}

/// The offered files of a prepare-upload event.
pub open spec fn event_files(e: &RsHttpServerEvent) -> Option<Map<String, FileDto>> {
    match e {
        RsHttpServerEvent::PrepareUpload { files, .. } => Some(files@),
        _ => None,
    }
}

/// The session of a file-upload, session-end, prepare-download or
/// file-download event.
pub open spec fn event_session_id(e: &RsHttpServerEvent) -> Option<String> {
    match e {
        RsHttpServerEvent::FileUpload { session_id, .. } => Some(*session_id),
        RsHttpServerEvent::SessionEnd { session_id, .. } => Some(*session_id),
        RsHttpServerEvent::PrepareDownload { session_id, .. } => Some(*session_id),
        RsHttpServerEvent::FileDownload { session_id, .. } => Some(*session_id),
        _ => None,
    }
}

/// The file id of a file-upload or file-download event.
pub open spec fn event_file_id(e: &RsHttpServerEvent) -> Option<String> {
    match e {
        RsHttpServerEvent::FileUpload { file_id, .. } => Some(*file_id),
        RsHttpServerEvent::FileDownload { file_id, .. } => Some(*file_id),
        _ => None,
    }
}

/// The file of a file-upload or file-download event.
pub open spec fn event_file(e: &RsHttpServerEvent) -> Option<FileDto> {
    match e {
        RsHttpServerEvent::FileUpload { file, .. } => Some(*file),
        RsHttpServerEvent::FileDownload { file, .. } => Some(*file),
        _ => None,
    }
}

/// The reason of a session-end event.
pub open spec fn event_reason(e: &RsHttpServerEvent) -> Option<RsHttpServerSessionEndReason> {
    match e {
        RsHttpServerEvent::SessionEnd { reason, .. } => Some(*reason),
        _ => None,
    }
}

/// The browser's user agent of a prepare-download event, where it sent one.
pub open spec fn event_user_agent(e: &RsHttpServerEvent) -> Option<String> {
    match e {
        RsHttpServerEvent::PrepareDownload { user_agent, .. } => *user_agent,
        _ => None,
    }
}

impl RsHttpServerEvent {
    /// Which event this is.
    pub fn kind(&self) -> (k: RsHttpServerEventKind)
        ensures
            k == event_kind(self),
    {
        match self {
            RsHttpServerEvent::Show { .. } => RsHttpServerEventKind::Show,
            RsHttpServerEvent::Register { .. } => RsHttpServerEventKind::Register,
            RsHttpServerEvent::PrepareUpload { .. } => RsHttpServerEventKind::PrepareUpload,
            RsHttpServerEvent::FileUpload { .. } => RsHttpServerEventKind::FileUpload,
            RsHttpServerEvent::SessionEnd { .. } => RsHttpServerEventKind::SessionEnd,
            RsHttpServerEvent::PrepareDownload { .. } => RsHttpServerEventKind::PrepareDownload,
            RsHttpServerEvent::FileDownload { .. } => RsHttpServerEventKind::FileDownload,
        }
    }

    /// A copy of the arguments of a show event.
    pub fn args(&self) -> (r: Option<Vec<String>>)
        ensures
            r is Some == event_args(self) is Some,
            r matches Some(v) ==> v@ == event_args(self)->0,
    {
        match self {
            RsHttpServerEvent::Show { args } => Some(args.clone()),
            _ => None,
        }
    }

    /// A copy of the peer address.
    pub fn ip(&self) -> (r: Option<String>)
        ensures
            r == event_ip(self),
    {
        match self {
            RsHttpServerEvent::Register { ip, .. } => Some(ip.clone()),
            RsHttpServerEvent::PrepareUpload { ip, .. } => Some(ip.clone()),
            RsHttpServerEvent::PrepareDownload { ip, .. } => Some(ip.clone()),
            _ => None,
        }
    }

    /// A copy of the peer registration.
    pub fn info(&self) -> (r: Option<RegisterDto>)
        ensures
            r == event_info(self),
    {
        match self {
            RsHttpServerEvent::Register { info, .. } => Some(info.clone()),
            RsHttpServerEvent::PrepareUpload { info, .. } => Some(info.clone()),
            _ => None,
        }
    }

    /// A copy of the offered files.
    pub fn files(&self) -> (r: Option<HashMap<String, FileDto>>)
        ensures
            r is Some == event_files(self) is Some,
            r matches Some(m) ==> m@ == event_files(self)->0,
    {
        match self {
            RsHttpServerEvent::PrepareUpload { files, .. } => Some(files.clone()),
            _ => None,
        }
    }

    /// A copy of the session id.
    pub fn session_id(&self) -> (r: Option<String>)
        ensures
            r == event_session_id(self),
    {
        match self {
            RsHttpServerEvent::FileUpload { session_id, .. } => Some(session_id.clone()),
            RsHttpServerEvent::SessionEnd { session_id, .. } => Some(session_id.clone()),
            RsHttpServerEvent::PrepareDownload { session_id, .. } => Some(session_id.clone()),
            RsHttpServerEvent::FileDownload { session_id, .. } => Some(session_id.clone()),
            _ => None,
        }
    }

    /// A copy of the file id.
    pub fn file_id(&self) -> (r: Option<String>)
        ensures
            r == event_file_id(self),
    {
        match self {
            RsHttpServerEvent::FileUpload { file_id, .. } => Some(file_id.clone()),
            RsHttpServerEvent::FileDownload { file_id, .. } => Some(file_id.clone()),
            _ => None,
        }
    }

    /// A copy of the file description.
    pub fn file(&self) -> (r: Option<FileDto>)
        ensures
            r == event_file(self),
    {
        match self {
            RsHttpServerEvent::FileUpload { file, .. } => Some(file.clone()),
            RsHttpServerEvent::FileDownload { file, .. } => Some(file.clone()),
            _ => None,
        }
    }

    /// The reason a session ended.
    pub fn reason(&self) -> (r: Option<RsHttpServerSessionEndReason>)
        ensures
            r == event_reason(self),
    {
        match self {
            RsHttpServerEvent::SessionEnd { reason, .. } => Some(*reason),
            _ => None,
        }
    }

    /// A copy of the browser's user agent.
    pub fn user_agent(&self) -> (r: Option<String>)
        ensures
            r == event_user_agent(self),
    {
        match self {
            RsHttpServerEvent::PrepareDownload { user_agent, .. } => match user_agent {
                Some(agent) => Some(agent.clone()),
                None => None,
            },
            _ => None,
        }
    }
}


/// What an event looks like once its prepare-upload request was taken.
pub open spec fn without_prepare_upload_request(e: RsHttpServerEvent) -> RsHttpServerEvent {
    match e {
        RsHttpServerEvent::PrepareUpload { ip, info, files, .. } => RsHttpServerEvent::PrepareUpload {
            ip,
            info,
            files,
            request: None,
        },
        _ => e,
    }
}

/// The prepare-upload request an event still carries.
pub open spec fn prepare_upload_request_of(e: RsHttpServerEvent) -> Option<
    RsHttpServerPrepareUploadRequest,
> {
    match e {
        RsHttpServerEvent::PrepareUpload { request, .. } => request,
        _ => None,
    }
}

/// What an event looks like once its file-upload request was taken.
pub open spec fn without_file_upload_request(e: RsHttpServerEvent) -> RsHttpServerEvent {
    match e {
        RsHttpServerEvent::FileUpload { session_id, file_id, file, .. } => RsHttpServerEvent::FileUpload {
            session_id,
            file_id,
            file,
            request: None,
        },
        _ => e,
    }
}

/// The file-upload request an event still carries.
pub open spec fn file_upload_request_of(e: RsHttpServerEvent) -> Option<RsHttpServerFileUploadRequest> {
    match e {
        RsHttpServerEvent::FileUpload { request, .. } => request,
        _ => None,
    }
}

/// What an event looks like once its prepare-download request was taken.
pub open spec fn without_prepare_download_request(e: RsHttpServerEvent) -> RsHttpServerEvent {
    match e {
        RsHttpServerEvent::PrepareDownload { ip, session_id, user_agent, .. } => {
            RsHttpServerEvent::PrepareDownload { ip, session_id, user_agent, request: None }
        },
        _ => e,
    }
}

/// The prepare-download request an event still carries.
pub open spec fn prepare_download_request_of(e: RsHttpServerEvent) -> Option<
    RsHttpServerPrepareDownloadRequest,
> {
    match e {
        RsHttpServerEvent::PrepareDownload { request, .. } => request,
        _ => None,
    }
}

/// What an event looks like once its file-download request was taken.
pub open spec fn without_file_download_request(e: RsHttpServerEvent) -> RsHttpServerEvent {
    match e {
        RsHttpServerEvent::FileDownload { session_id, file_id, file, .. } => {
            RsHttpServerEvent::FileDownload { session_id, file_id, file, request: None }
        },
        _ => e,
    }
}

/// The file-download request an event still carries.
pub open spec fn file_download_request_of(e: RsHttpServerEvent) -> Option<
    RsHttpServerFileDownloadRequest,
> {
    match e {
        RsHttpServerEvent::FileDownload { request, .. } => request,
        _ => None,
    }
}

impl RsHttpServerEvent {
    /// Takes the prepare-upload request out of the event, once.
    pub fn take_prepare_upload_request(&mut self) -> (r: Option<RsHttpServerPrepareUploadRequest>)
        ensures
            r == prepare_upload_request_of(*old(self)),
            *final(self) == without_prepare_upload_request(*old(self)),
    {
        match self {
            RsHttpServerEvent::PrepareUpload { request, .. } => request.take(),
            _ => None,
        }
    }

    /// Takes the file-upload request out of the event, once.
    pub fn take_file_upload_request(&mut self) -> (r: Option<RsHttpServerFileUploadRequest>)
        ensures
            r == file_upload_request_of(*old(self)),
            *final(self) == without_file_upload_request(*old(self)),
    {
        match self {
            RsHttpServerEvent::FileUpload { request, .. } => request.take(),
            _ => None,
        }
    }

    /// Takes the prepare-download request out of the event, once.
    pub fn take_prepare_download_request(&mut self) -> (r: Option<RsHttpServerPrepareDownloadRequest>)
        ensures
            r == prepare_download_request_of(*old(self)),
            *final(self) == without_prepare_download_request(*old(self)),
    {
        match self {
            RsHttpServerEvent::PrepareDownload { request, .. } => request.take(),
            _ => None,
        }
    }

    /// Takes the file-download request out of the event, once.
    pub fn take_file_download_request(&mut self) -> (r: Option<RsHttpServerFileDownloadRequest>)
        ensures
            r == file_download_request_of(*old(self)),
            *final(self) == without_file_download_request(*old(self)),
    {
        match self {
            RsHttpServerEvent::FileDownload { request, .. } => request.take(),
            _ => None,
        }
    }
}

/// Each accessor answers exactly for the kinds of events that carry its
/// field; the user agent only ever comes with a prepare-download event.
pub proof fn lemma_accessors_follow_kind(e: RsHttpServerEvent)
    ensures
        event_args(&e) is Some <==> event_kind(&e) == RsHttpServerEventKind::Show,
        event_ip(&e) is Some <==> (event_kind(&e) == RsHttpServerEventKind::Register
            || event_kind(&e) == RsHttpServerEventKind::PrepareUpload || event_kind(&e)
            == RsHttpServerEventKind::PrepareDownload),
        event_info(&e) is Some <==> (event_kind(&e) == RsHttpServerEventKind::Register
            || event_kind(&e) == RsHttpServerEventKind::PrepareUpload),
        event_files(&e) is Some <==> event_kind(&e) == RsHttpServerEventKind::PrepareUpload,
        event_session_id(&e) is Some <==> (event_kind(&e) == RsHttpServerEventKind::FileUpload
            || event_kind(&e) == RsHttpServerEventKind::SessionEnd || event_kind(&e)
            == RsHttpServerEventKind::PrepareDownload || event_kind(&e)
            == RsHttpServerEventKind::FileDownload),
        event_file_id(&e) is Some <==> (event_kind(&e) == RsHttpServerEventKind::FileUpload
            || event_kind(&e) == RsHttpServerEventKind::FileDownload),
        event_file(&e) is Some <==> (event_kind(&e) == RsHttpServerEventKind::FileUpload
            || event_kind(&e) == RsHttpServerEventKind::FileDownload),
        event_reason(&e) is Some <==> event_kind(&e) == RsHttpServerEventKind::SessionEnd,
        event_user_agent(&e) is Some ==> event_kind(&e) == RsHttpServerEventKind::PrepareDownload,
{
}

/// The fields that an event shows through its accessors.
pub open spec fn shown_fields(e: RsHttpServerEvent) -> (
    RsHttpServerEventKind,
    Option<Seq<String>>,
    Option<String>,
    Option<RegisterDto>,
    Option<Map<String, FileDto>>,
    Option<String>,
    Option<String>,
    Option<FileDto>,
    Option<RsHttpServerSessionEndReason>,
    Option<String>,
) {
    (
        event_kind(&e),
        event_args(&e),
        event_ip(&e),
        event_info(&e),
        event_files(&e),
        event_session_id(&e),
        event_file_id(&e),
        event_file(&e),
        event_reason(&e),
        event_user_agent(&e),
    )
}

/// A request is taken out of an event once: taking it changes nothing that
/// the accessors show, and a second take gives nothing.
pub proof fn lemma_request_taken_once(e: RsHttpServerEvent)
    ensures
        prepare_upload_request_of(without_prepare_upload_request(e)) is None,
        shown_fields(without_prepare_upload_request(e)) == shown_fields(e),
        file_upload_request_of(without_file_upload_request(e)) is None,
        shown_fields(without_file_upload_request(e)) == shown_fields(e),
        prepare_download_request_of(without_prepare_download_request(e)) is None,
        shown_fields(without_prepare_download_request(e)) == shown_fields(e),
        file_download_request_of(without_file_download_request(e)) is None,
        shown_fields(without_file_download_request(e)) == shown_fields(e),
{
}

/// Every accessor reads its own field of the event, unchanged: the
/// arguments of a show event, the address and registration of the events
/// that carry them, the files offered, the session id, file id and file of
/// the events that carry them, the end reason, and the user agent.
pub proof fn lemma_accessors_read_their_fields(e: RsHttpServerEvent)
    ensures
        e matches RsHttpServerEvent::Show { args } ==> event_args(&e) == Some(args@),
        e matches RsHttpServerEvent::Register { ip, info } ==> event_ip(&e) == Some(ip)
            && event_info(&e) == Some(info),
        e matches RsHttpServerEvent::PrepareUpload { ip, info, files, .. } ==> event_ip(&e)
            == Some(ip) && event_info(&e) == Some(info) && event_files(&e) == Some(files@),
        e matches RsHttpServerEvent::FileUpload { session_id, file_id, file, .. } ==> event_session_id(
            &e,
        ) == Some(session_id) && event_file_id(&e) == Some(file_id) && event_file(&e) == Some(file),
        e matches RsHttpServerEvent::SessionEnd { session_id, reason } ==> event_session_id(&e)
            == Some(session_id) && event_reason(&e) == Some(reason),
        e matches RsHttpServerEvent::PrepareDownload { ip, session_id, user_agent, .. } ==> event_ip(
            &e,
        ) == Some(ip) && event_session_id(&e) == Some(session_id) && event_user_agent(&e)
            == user_agent,
        e matches RsHttpServerEvent::FileDownload { session_id, file_id, file, .. } ==> event_session_id(
            &e,
        ) == Some(session_id) && event_file_id(&e) == Some(file_id) && event_file(&e) == Some(file),
{
}

} // verus!
