use vstd::prelude::*;

verus! {

/// A request for a signed upload address for the file `file_key`.
pub struct GetSignedUrlUseCaseRequest {
    pub file_key: String,
    pub mime_type: String,
}

impl GetSignedUrlUseCaseRequest {
    pub fn new(file_key: String, mime_type: String) -> (r: Self)
        ensures
            r.file_key == file_key,
            r.mime_type == mime_type,
    {
        GetSignedUrlUseCaseRequest { file_key, mime_type }
    }
}

pub struct GetSignedUrlUseCaseResponse {
    pub url: String,
}

impl GetSignedUrlUseCaseResponse {
    pub fn new(url: String) -> (r: Self)
        ensures
            r.url == url,
    {
        GetSignedUrlUseCaseResponse { url }
    }
}

/// What the signing service is sent.
pub struct OutgoingPayload {
    pub file_key: String,
    pub content_type: String,
}

impl OutgoingPayload {
    pub fn new(file_key: String, content_type: String) -> (r: Self)
        ensures
            r.file_key == file_key,
            r.content_type == content_type,
    {
        OutgoingPayload { file_key, content_type }
    }
}

/// What the signing service answers.
pub struct IncomingPayload {
    pub url: String,
}

/// Obtains signed upload addresses from the file service.
pub struct GetSignedUrlUseCase {}

impl GetSignedUrlUseCase {
    pub fn new() -> (r: Self) {
        GetSignedUrlUseCase {  }
    }
}

} // verus!
