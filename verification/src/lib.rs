//! Verified core of the HTTP server bridge between the Dart side and the
//! LocalSend server: the server's lifecycle, the events it reports and how
//! they are read, the requests that travel with them and answer at most
//! once, and the accounting of streamed file uploads.

pub mod channel;
pub mod error;
pub mod event;
pub mod forward;
pub mod request;
pub mod server;
pub mod upload;
pub mod wire;

pub use error::HttpServerError;
pub use event::{RsHttpServerEvent, RsHttpServerEventKind, RsHttpServerSessionEndReason};
pub use request::{
    RsHttpServerFileDownloadRequest, RsHttpServerFileUploadRequest,
    RsHttpServerPrepareDownloadRequest, RsHttpServerPrepareUploadRequest,
};
pub use server::{
    create_http_server, RsHttpServer, RsHttpServerInfo, RsHttpServerInternalConfig,
    RsHttpServerTlsConfig, RsHttpServerV2Config, RsHttpServerWebSendConfig,
    RsHttpServerWebSendI18n,
};
