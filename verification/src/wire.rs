//! The values that the LocalSend server and the Dart side exchange: peer
//! registrations and file descriptions, held as plain values.
use vstd::prelude::*;

verus! {

/// The kind of device a peer says it is.
#[derive(Clone, Copy, Debug, PartialEq, Eq, Structural)]
pub enum DeviceType {
    Mobile,
    Desktop,
    Web,
    Headless,
    Server,
}

/// Transport of a peer, as the Dart side sees it.
#[derive(Clone, Copy, Debug, PartialEq, Eq, Structural)]
pub enum ProtocolType {
    Http,
    Https,
}

/// Transport of a peer, as the protocol v2 server reports it.
#[derive(Clone, Copy, Debug, PartialEq, Eq, Structural)]
pub enum ProtocolTypeV2 {
    Http,
    Https,
}

/// A peer's registration, as the Dart side sees it.
#[derive(Debug, PartialEq, Eq)]
pub struct RegisterDto {
    pub alias: String,
    pub version: String,
    pub device_model: Option<String>,
    pub device_type: Option<DeviceType>,
    pub token: String,
    pub port: u16,
    pub protocol: ProtocolType,
    pub has_web_interface: bool,
}

/// A peer's registration, as the protocol v2 server reports it.
#[derive(Debug, PartialEq, Eq)]
pub struct RegisterDtoV2 {
    pub alias: String,
    pub version: String,
    pub device_model: Option<String>,
    pub device_type: Option<DeviceType>,
    pub fingerprint: String,
    pub port: u16,
    pub protocol: ProtocolTypeV2,
    pub download: bool,
}

/// Optional timestamps of a file.
#[derive(Debug, PartialEq, Eq)]
pub struct FileMetadata {
    pub modified: Option<String>,
    pub accessed: Option<String>,
}

/// The description of one file of a transfer.
#[derive(Debug, PartialEq, Eq)]
pub struct FileDto {
    pub id: String,
    pub file_name: String,
    pub size: u64,
    pub file_type: String,
    pub sha256: Option<String>,
    pub preview: Option<String>,
    pub metadata: Option<FileMetadata>,
}

/// A copy of an optional string.
pub fn clone_opt_string(s: &Option<String>) -> (r: Option<String>)
    ensures
        r == *s,
{
    match s {
        Some(v) => Some(v.clone()),
        None => None,
    }
}

impl Clone for RegisterDto {
    fn clone(&self) -> (r: Self)
        ensures
            r == *self,
    {
        RegisterDto {
            alias: self.alias.clone(),
            version: self.version.clone(),
            device_model: clone_opt_string(&self.device_model),
            device_type: self.device_type,
            token: self.token.clone(),
            port: self.port,
            protocol: self.protocol,
            has_web_interface: self.has_web_interface,
        }
    }
}

impl Clone for FileMetadata {
    fn clone(&self) -> (r: Self)
        ensures
            r == *self,
    {
        FileMetadata {
            modified: clone_opt_string(&self.modified),
            accessed: clone_opt_string(&self.accessed),
        }
    }
}

impl Clone for FileDto {
    fn clone(&self) -> (r: Self)
        ensures
            r == *self,
    {
        FileDto {
            id: self.id.clone(),
            file_name: self.file_name.clone(),
            size: self.size,
            file_type: self.file_type.clone(),
            sha256: clone_opt_string(&self.sha256),
            preview: clone_opt_string(&self.preview),
            metadata: match &self.metadata {
                Some(m) => Some(m.clone()),
                None => None,
            },
        }
    }
}

/// The protocol v2 transport named as the Dart side names it.
pub open spec fn protocol_from_v2(p: ProtocolTypeV2) -> ProtocolType {
    match p {
        ProtocolTypeV2::Http => ProtocolType::Http,
        ProtocolTypeV2::Https => ProtocolType::Https,
    }
}

/// The registration that the Dart side is shown for a protocol v2
/// registration: the fingerprint becomes the token, the download flag
/// says whether the peer has a web interface, and the rest is kept.
pub open spec fn spec_register_dto_from_v2(info: RegisterDtoV2) -> RegisterDto {
    RegisterDto {
        alias: info.alias,
        version: info.version,
        device_model: info.device_model,
        device_type: info.device_type,
        token: info.fingerprint,
        port: info.port,
        protocol: protocol_from_v2(info.protocol),
        has_web_interface: info.download,
    }
}

/// Converts a protocol v2 registration into the one the Dart side sees.
pub fn register_dto_from_v2(info: RegisterDtoV2) -> (r: RegisterDto)
    ensures
        r == spec_register_dto_from_v2(info),
        r.alias == info.alias,
        r.version == info.version,
        r.device_model == info.device_model,
        r.device_type == info.device_type,
        r.token == info.fingerprint,
        r.port == info.port,
        (r.protocol == ProtocolType::Https) <==> (info.protocol == ProtocolTypeV2::Https),
        (r.protocol == ProtocolType::Http) <==> (info.protocol == ProtocolTypeV2::Http),
        r.has_web_interface == info.download,
{
    RegisterDto {
        alias: info.alias,
        version: info.version,
        device_model: info.device_model,
        device_type: info.device_type,
        token: info.fingerprint,
        port: info.port,
        protocol: match info.protocol {
            ProtocolTypeV2::Http => ProtocolType::Http,
            ProtocolTypeV2::Https => ProtocolType::Https,
        },
        has_web_interface: info.download,
    }
}

/// A protocol v2 registration is shown with the peer's own transport
/// (HTTPS exactly when the peer uses HTTPS, whatever its other fields say),
/// its fingerprint as the token, its download flag as the web interface,
/// and its alias, version, model, type and port unchanged.
pub proof fn lemma_registration_keeps_peer(info: RegisterDtoV2, other: RegisterDtoV2)
    ensures
        (spec_register_dto_from_v2(info).protocol == ProtocolType::Https) <==> (info.protocol
            == ProtocolTypeV2::Https),
        (spec_register_dto_from_v2(info).protocol == ProtocolType::Http) <==> (info.protocol
            == ProtocolTypeV2::Http),
        info.protocol == other.protocol ==> spec_register_dto_from_v2(info).protocol
            == spec_register_dto_from_v2(other).protocol,
        spec_register_dto_from_v2(info).token == info.fingerprint,
        spec_register_dto_from_v2(info).has_web_interface == info.download,
        spec_register_dto_from_v2(info).alias == info.alias,
        spec_register_dto_from_v2(info).version == info.version,
        spec_register_dto_from_v2(info).device_model == info.device_model,
        spec_register_dto_from_v2(info).device_type == info.device_type,
        spec_register_dto_from_v2(info).port == info.port,
{
}

} // verus!
