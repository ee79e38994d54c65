//! The events that the server's parts raise, and how each becomes the
//! event reported to the Dart side. The forwarding loops themselves wait
//! on channels and live outside the library.
use crate::event::{RsHttpServerEvent, RsHttpServerSessionEndReason};
use crate::request::{
    FileContent, FileUploadTarget, PrepareUploadDecision, RsHttpServerFileDownloadRequest,
    RsHttpServerFileUploadRequest, RsHttpServerPrepareDownloadRequest,
    RsHttpServerPrepareUploadRequest,
};
use crate::wire::{register_dto_from_v2, spec_register_dto_from_v2, FileDto, RegisterDtoV2};
use std::collections::HashMap;
use tokio::sync::oneshot;
use vstd::prelude::*;

verus! {

/// An event of the server's internal endpoint.
pub enum InternalEvent {
    /// Another instance asked this one to show itself.
    Show { args: Vec<String> },
}

/// How a protocol v2 session ended.
#[derive(Clone, Copy, Debug, PartialEq, Eq, Structural)]
pub enum SessionEndReasonV2 {
    Finished,
    Cancelled,
}

/// An event of the protocol v2 endpoints. Peer addresses are given as text.
pub enum ServerEventV2 {
    Register { ip: String, info: RegisterDtoV2 },
    PrepareUpload {
        ip: String,
        info: RegisterDtoV2,
        files: HashMap<String, FileDto>,
        decision_tx: oneshot::Sender<PrepareUploadDecision>,
    },
    FileUpload {
        session_id: String,
        file_id: String,
        file: FileDto,
        target_tx: oneshot::Sender<FileUploadTarget>,
    },
    SessionEnd { session_id: String, reason: SessionEndReasonV2 },
}

/// An event of the web-send endpoints. Peer addresses are given as text.
pub enum WebSendEvent {
    PrepareDownload {
        ip: String,
        session_id: String,
        user_agent: Option<String>,
        decision_tx: oneshot::Sender<bool>,
    },
    FileDownload {
        session_id: String,
        file_id: String,
        file: FileDto,
        content_tx: oneshot::Sender<FileContent>,
    },
}

/// The session-end reason as the Dart side names it.
pub open spec fn session_end_reason_from_v2(r: SessionEndReasonV2) -> RsHttpServerSessionEndReason {
    match r {
        SessionEndReasonV2::Finished => RsHttpServerSessionEndReason::Finished,
        SessionEndReasonV2::Cancelled => RsHttpServerSessionEndReason::Cancelled,
    }
}

/// The event reported for an internal event.
pub fn internal_event_to_rs(event: InternalEvent) -> (r: RsHttpServerEvent)
    ensures
        match event {
            InternalEvent::Show { args } => r == (RsHttpServerEvent::Show { args }),
        },
{
    match event {
        InternalEvent::Show { args } => RsHttpServerEvent::Show { args },
    }
}

/// The event reported for a protocol v2 event: registrations are converted,
/// and each answer channel is wrapped in a fresh request that answers on
/// it; a file-upload request is announced with the file's size.
pub fn v2_event_to_rs(event: ServerEventV2) -> (r: RsHttpServerEvent)
    ensures
        match event {
            ServerEventV2::Register { ip, info } => r == (RsHttpServerEvent::Register {
                ip,
                info: spec_register_dto_from_v2(info),
            }),
            ServerEventV2::PrepareUpload { ip, info, files, decision_tx } => {
                &&& r is PrepareUpload
                &&& r->PrepareUpload_ip == ip
                &&& r->PrepareUpload_info == spec_register_dto_from_v2(info)
                &&& r->PrepareUpload_files == files
                &&& r->PrepareUpload_request matches Some(req)
                &&& req.reply_channel() == Some(decision_tx)
                &&& req.handed() is None
            },
            ServerEventV2::FileUpload { session_id, file_id, file, target_tx } => {
                &&& r is FileUpload
                &&& r->FileUpload_session_id == session_id
                &&& r->FileUpload_file_id == file_id
                &&& r->FileUpload_file == file
                &&& r->FileUpload_request matches Some(req)
                &&& req.reply_channel() == Some(target_tx)
                &&& req.handed() is None
                &&& req.announced_size() == file.size
            },
            ServerEventV2::SessionEnd { session_id, reason } => r == (RsHttpServerEvent::SessionEnd {
                session_id,
                reason: session_end_reason_from_v2(reason),
            }),
        },
{
    match event {
        ServerEventV2::Register { ip, info } => RsHttpServerEvent::Register {
            ip,
            info: register_dto_from_v2(info),
        },
        ServerEventV2::PrepareUpload { ip, info, files, decision_tx } => {
            RsHttpServerEvent::PrepareUpload {
                ip,
                info: register_dto_from_v2(info),
                files,
                request: Some(RsHttpServerPrepareUploadRequest::new(decision_tx)),
            }
        },
        ServerEventV2::FileUpload { session_id, file_id, file, target_tx } => {
            let file_size: u64 = file.size;
            RsHttpServerEvent::FileUpload {
                session_id,
                file_id,
                file,
                request: Some(RsHttpServerFileUploadRequest::new(file_size, target_tx)),
            }
        },
        ServerEventV2::SessionEnd { session_id, reason } => RsHttpServerEvent::SessionEnd {
            session_id,
            reason: match reason {
                SessionEndReasonV2::Finished => RsHttpServerSessionEndReason::Finished,
                SessionEndReasonV2::Cancelled => RsHttpServerSessionEndReason::Cancelled,
            },
        },
    }
}

/// The event reported for a web-send event: each answer channel is wrapped
/// in a fresh request that answers on it.
pub fn web_send_event_to_rs(event: WebSendEvent) -> (r: RsHttpServerEvent)
    ensures
        match event {
            WebSendEvent::PrepareDownload { ip, session_id, user_agent, decision_tx } => {
                &&& r is PrepareDownload
                &&& r->PrepareDownload_ip == ip
                &&& r->PrepareDownload_session_id == session_id
                &&& r->PrepareDownload_user_agent == user_agent
                &&& r->PrepareDownload_request matches Some(req)
                &&& req.reply_channel() == Some(decision_tx)
                &&& req.handed() is None
            },
            WebSendEvent::FileDownload { session_id, file_id, file, content_tx } => {
                &&& r is FileDownload
                &&& r->FileDownload_session_id == session_id
                &&& r->FileDownload_file_id == file_id
                &&& r->FileDownload_file == file
                &&& r->FileDownload_request matches Some(req)
                &&& req.reply_channel() == Some(content_tx)
                &&& req.handed() is None
            },
        },
{
    match event {
        WebSendEvent::PrepareDownload { ip, session_id, user_agent, decision_tx } => {
            RsHttpServerEvent::PrepareDownload {
                ip,
                session_id,
                user_agent,
                request: Some(RsHttpServerPrepareDownloadRequest::new(decision_tx)),
            }
        },
        WebSendEvent::FileDownload { session_id, file_id, file, content_tx } => {
            RsHttpServerEvent::FileDownload {
                session_id,
                file_id,
                file,
                request: Some(RsHttpServerFileDownloadRequest::new(content_tx)),
            }
        },
    }
}

} // verus!
