use vstd::prelude::*;
use crate::user_repository::{UserProfile, UserRepository};

verus! {

pub struct GetUserProfileRequest {
    pub user_id: String,
}

impl GetUserProfileRequest {
    pub fn new(user_id: String) -> (r: Self)
        ensures
            r.user_id == user_id,
    {
        GetUserProfileRequest { user_id }
    }
}

pub struct GetUserProfileResponse {
    pub user_profile: UserProfile,
}

impl GetUserProfileResponse {
    pub fn new(user_profile: UserProfile) -> (r: Self)
        ensures
            r.user_profile == user_profile,
    {
        GetUserProfileResponse { user_profile }
    }
}

/// What the file service answers: a readable address of the avatar.
pub struct IncomingPayload {
    pub url: String,
}

/// What the file service is asked about.
pub struct OutgoingPayload {
    pub file_key: String,
}

impl OutgoingPayload {
    pub fn new(file_key: String) -> (r: Self)
        ensures
            r.file_key == file_key,
    {
        OutgoingPayload { file_key }
    }
}

/// Reads a user's profile, with a readable address for the avatar.
pub struct GetUserProfileUseCase<R: UserRepository> {
    pub user_repository: R,
}

impl<R: UserRepository> GetUserProfileUseCase<R> {
    pub fn new(user_repository: R) -> (r: Self)
        ensures
            r.user_repository == user_repository,
    {
        GetUserProfileUseCase { user_repository }
    }
}

} // verus!
