use vstd::prelude::*;

use crate::text::copy_str;

verus! {

#[verifier::external_type_specification]
#[verifier::external_body]
pub struct ExTransportError(tonic::transport::Error);

#[verifier::external_type_specification]
#[verifier::external_body]
pub struct ExJsonError(serde_json::Error);

#[verifier::external_type_specification]
#[verifier::external_body]
pub struct ExInvalidMetadataValue(tonic::metadata::errors::InvalidMetadataValue);

#[verifier::external_type_specification]
#[verifier::external_body]
pub struct ExStatus(tonic::Status);

#[verifier::external_type_specification]
pub struct ExCode(tonic::Code);

/// Everything that can go wrong between the caller and the service.
#[derive(Debug)]
pub enum BareunError {
    MissingApiKey,
    ConnectionFailed { host: String, port: u16, source: tonic::transport::Error },
    PermissionDenied { apikey: String, message: String },
    ServerUnavailable { host: String, port: u16, message: String },
    InvalidArgument { message: String },
    GrpcError(String),
    SerializationError(serde_json::Error),
    TransportError(tonic::transport::Error),
    InvalidMetadataValue(tonic::metadata::errors::InvalidMetadataValue),
    InvalidCustomDictName(String),
    StatusError(tonic::Status),
}

/// Put in place of a server message when the server sent none.
pub const NO_SERVER_MESSAGE: &'static str = "서버에서 추가 메시지를 제공하지 않았습니다.";

/// The message an error carries: the server's, or the placeholder.
pub open spec fn server_message(message: Seq<char>) -> Seq<char> {
    if message.len() == 0 {
        NO_SERVER_MESSAGE@
    } else {
        message
    }
}

/// Whether `r` is what a failed call with status `code` and text `message`
/// becomes, on a connection made with `apikey` to `host`:`port`.
pub open spec fn maps_status(
    r: BareunError,
    code: tonic::Code,
    message: Seq<char>,
    apikey: Seq<char>,
    host: Seq<char>,
    port: u16,
) -> bool {
    let m = server_message(message);
    match code {
        tonic::Code::PermissionDenied => r matches BareunError::PermissionDenied {
            apikey: a,
            message: t,
        } && a@ == apikey && t@ == m,
        tonic::Code::Unavailable => r matches BareunError::ServerUnavailable {
            host: h,
            port: p,
            message: t,
        } && h@ == host && p == port && t@ == m,
        tonic::Code::InvalidArgument => r matches BareunError::InvalidArgument { message: t } && t@
            == m,
        _ => r matches BareunError::GrpcError(t) && t@ == m,
    }
}

/// The error that a failed call with status `code` and text `message`
/// becomes, on a connection made with `apikey` to `host`:`port`.
pub fn map_status(code: tonic::Code, message: &str, apikey: &str, host: &str, port: u16) -> (r:
    BareunError)
    ensures
        maps_status(r, code, message@, apikey@, host@, port),
{
    let text = if message.is_empty() {
        copy_str(NO_SERVER_MESSAGE)
    } else {
        copy_str(message)
    };
    match code {
        tonic::Code::PermissionDenied => BareunError::PermissionDenied {
            apikey: copy_str(apikey),
            message: text,
        },
        tonic::Code::Unavailable => BareunError::ServerUnavailable {
            host: copy_str(host),
            port,
            message: text,
        },
        tonic::Code::InvalidArgument => BareunError::InvalidArgument { message: text },
        _ => BareunError::GrpcError(text),
    }
}

} // verus!
