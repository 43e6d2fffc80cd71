use vstd::prelude::*;
use crate::credentials::{
    has_argon2id_prefix, hash_password, password_verifies, MAX_PASSWORD_CHARS,
};
use crate::repository::RepositoryError;
use crate::user::User;
use crate::user_repository::UserRepository;

verus! {

pub struct RegisterUserRequest {
    pub email: String,
    pub username: String,
    pub password: String,
    pub file_key: String,
    pub mime_type: String,
}

impl RegisterUserRequest {
    pub fn new(
        email: String,
        username: String,
        password: String,
        file_key: String,
        mime_type: String,
    ) -> (r: Self)
        ensures
            r.email == email,
            r.username == username,
            r.password == password,
            r.file_key == file_key,
            r.mime_type == mime_type,
    {
        RegisterUserRequest { email, username, password, file_key, mime_type }
    }
}

/// What registering answers: where to upload the avatar.
pub struct RegisterUserResponse {
    pub url: String,
}

impl RegisterUserResponse {
    pub fn new(url: String) -> (r: Self)
        ensures
            r.url == url,
    {
        RegisterUserResponse { url }
    }
}

/// Why a registration did not happen.
#[derive(Clone, Copy, Debug, PartialEq, Eq, Structural)]
pub enum RegisterUserError {
    /// The password could not be hashed.
    HashingFailed,
    /// The user directory refused the write.
    Repository(RepositoryError),
}

/// Registers users: the password is stored only as an argon2 hash.
pub struct RegisterUserUseCase<R: UserRepository> {
    pub user_repository: R,
}

impl<R: UserRepository> RegisterUserUseCase<R> {
    pub fn new(user_repository: R) -> (r: Self)
        ensures
            r.user_repository == user_repository,
    {
        RegisterUserUseCase { user_repository }
    }

    /// Adds the user, with a hash of the password in place of the password,
    /// and the avatar `file_key` / `mime_type`.
    pub fn execute(&mut self, request: RegisterUserRequest) -> (r: Result<(), RegisterUserError>)
        requires
            old(self).user_repository.wf(),
        ensures
            final(self).user_repository.wf(),
            r is Ok ==> {
                let users = final(self).user_repository.users();
                let avatars = final(self).user_repository.avatars();
                let u = users.last();
                &&& users.drop_last() == old(self).user_repository.users()
                &&& users.len() == old(self).user_repository.users().len() + 1
                &&& u.email == request.email@
                &&& u.username == request.username@
                &&& password_verifies(request.password@, u.password)
                &&& has_argon2id_prefix(u.password)
                &&& !has_argon2id_prefix(request.password@) ==> u.password != request.password@
                &&& u.id is Some
                &&& avatars.drop_last() == old(self).user_repository.avatars()
                &&& avatars.len() == old(self).user_repository.avatars().len() + 1
                &&& avatars.last().user_id == u.id->0
                &&& avatars.last().file_key == request.file_key@
                &&& avatars.last().mime_type == request.mime_type@
            },
            request.password@.len() <= MAX_PASSWORD_CHARS ==> r != Err::<(), RegisterUserError>(
                RegisterUserError::HashingFailed,
            ),
            r is Err ==> final(self).user_repository.users() == old(self).user_repository.users()
                && final(self).user_repository.avatars() == old(self).user_repository.avatars(),
    {
        let hash = match hash_password(request.password.as_str()) {
            Some(h) => h,
            None => return Err(RegisterUserError::HashingFailed),
        };
        let user = User::new(request.email, request.username, hash);
        match self.user_repository.register(user, request.file_key, request.mime_type) {
            Ok(()) => Ok(()),
            Err(e) => Err(RegisterUserError::Repository(e)),
        }
    }
}

} // verus!
