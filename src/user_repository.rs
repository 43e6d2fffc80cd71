use vstd::prelude::*;
use crate::credentials::{hash_password, MAX_PASSWORD_CHARS};
use crate::ids::new_uuid_text;
use crate::repository::RepositoryError;
use crate::text::same_text;
use crate::user::{Avatar, AvatarView, User, UserView};

verus! {

/// A user together with the location of their avatar.
pub struct UserProfile {
    pub user: User,
    pub avatar_url: String,
}

impl UserProfile {
    pub fn set_avatar_url(&mut self, avatar_url: String)
        ensures
            final(self).user == old(self).user,
            final(self).avatar_url == avatar_url,
    {
        self.avatar_url = avatar_url;
    }
}

pub open spec fn has_email(users: Seq<UserView>, email: Seq<char>) -> bool {
    exists|i: int| 0 <= i < users.len() && users[i].email == email
}

/// The profile of user `user_id` that `users` and `avatars` give: the user
/// with that identifier and the file key of an avatar of theirs.
pub open spec fn is_profile_of(
    users: Seq<UserView>,
    avatars: Seq<AvatarView>,
    user_id: Seq<char>,
    user: UserView,
    avatar_url: Seq<char>,
) -> bool {
    &&& user.id == Some(user_id)
    &&& users.contains(user)
    &&& exists|j: int|
        0 <= j < avatars.len() && avatars[j].user_id == user_id && avatars[j].file_key
            == avatar_url
}

/// The directory of users and their avatars.
///
/// An implementation states its model by overriding the spec functions. The
/// defaults describe no directory: `wf` is false for them, so no verified
/// caller can rely on an implementation that gives no model.
pub trait UserRepository {
    /// The directory's own consistency, kept by every operation.
    closed spec fn wf(&self) -> bool {
        false
    }

    /// The users, in directory order.
    closed spec fn users(&self) -> Seq<UserView> {
        Seq::empty()
    }

    /// The avatars, in directory order.
    closed spec fn avatars(&self) -> Seq<AvatarView> {
        Seq::empty()
    }

    /// Adds `user`, giving it an identifier where it has none, with an avatar
    /// stored under `file_key`.
    fn register(&mut self, user: User, file_key: String, mime_type: String) -> (r: Result<
        (),
        RepositoryError,
    >)
        requires
            old(self).wf(),
        ensures
            final(self).wf(),
            r is Ok ==> {
                let u = final(self).users().last();
                &&& final(self).users().drop_last() == old(self).users()
                &&& final(self).users().len() == old(self).users().len() + 1
                &&& u.email == user@.email
                &&& u.username == user@.username
                &&& u.password == user@.password
                &&& u.id is Some
                &&& user@.id is Some ==> u.id == user@.id
                &&& final(self).avatars().drop_last() == old(self).avatars()
                &&& final(self).avatars().len() == old(self).avatars().len() + 1
                &&& final(self).avatars().last().user_id == u.id->0
                &&& final(self).avatars().last().file_key == file_key@
                &&& final(self).avatars().last().mime_type == mime_type@
            },
            r is Err ==> final(self).users() == old(self).users() && final(self).avatars() == old(
                self,
            ).avatars(),
    ;

    /// A user with this e-mail address.
    fn get_user_by_email(&self, email: String) -> (r: Result<Option<User>, RepositoryError>)
        requires
            self.wf(),
        ensures
            r matches Ok(Some(u)) ==> self.users().contains(u@) && u@.email == email@,
            r matches Ok(None) ==> !has_email(self.users(), email@),
            r matches Err(e) ==> e == RepositoryError::Persistence,
    ;

    /// The profile of user `user_id`: the user and the file key of their avatar.
    fn get_user_profile(&self, user_id: String) -> (r: Result<Option<UserProfile>, RepositoryError>)
        requires
            self.wf(),
        ensures
            r matches Ok(Some(p)) ==> is_profile_of(
                self.users(),
                self.avatars(),
                user_id@,
                p.user@,
                p.avatar_url@,
            ),
            r matches Ok(None) ==> !exists|u: UserView, url: Seq<char>|
                is_profile_of(self.users(), self.avatars(), user_id@, u, url),
            r matches Err(e) ==> e == RepositoryError::Persistence,
    ;
}

/// A user directory held in memory.
pub struct MockUserRepository {
    pub users: Vec<User>,
    pub avatars: Vec<Avatar>,
}

impl MockUserRepository {
    /// An empty directory.
    pub fn new() -> (r: Self)
        ensures
            r.users@.len() == 0,
            r.avatars@.len() == 0,
    {
        MockUserRepository { users: Vec::new(), avatars: Vec::new() }
    }

    /// Adds `user` with its password replaced by an argon2 hash of it, an
    /// identifier where it has none, and a placeholder avatar. Returns `false`,
    /// adding nothing, where hashing fails.
    pub fn add_user(&mut self, user: User) -> (r: bool)
        ensures
            user@.password.len() <= MAX_PASSWORD_CHARS ==> r,
            r ==> {
                let u = final(self).users@.last()@;
                &&& final(self).users@.drop_last() == old(self).users@
                &&& final(self).users@.len() == old(self).users@.len() + 1
                &&& u.email == user@.email
                &&& u.username == user@.username
                &&& password_hash_of(user@.password, u.password)
                &&& u.id is Some
                &&& user@.id is Some ==> u.id == user@.id
                &&& final(self).avatars@.drop_last() == old(self).avatars@
                &&& final(self).avatars@.len() == old(self).avatars@.len() + 1
                &&& final(self).avatars@.last()@.user_id == u.id->0
            },
            !r ==> final(self).users@ == old(self).users@ && final(self).avatars@ == old(
                self,
            ).avatars@,
    {
        let mut user = user;
        let hash = match hash_password(user.password()) {
            Some(h) => h,
            None => return false,
        };
        user.set_password(hash);
        if user.id().is_none() {
            user.set_id(new_uuid_text());
        }
        let owner = match user.id() {
            Some(id) => id.clone(),
            None => return false,
        };
        let avatar = Avatar::new(
            new_uuid_text(),
            owner,
            "file_key".to_owned(),
            "mime_type".to_owned(),
        );
        self.avatars.push(avatar);
        self.users.push(user);
        true
    }

    /// The first user with this e-mail address.
    pub fn find_user_by_email(&self, email: &str) -> (r: Option<User>)
        ensures
            r matches Some(u) ==> exists|i: int|
                0 <= i < self.users@.len() && self.users@[i]@ == u@ && u@.email == email@
                    && forall|k: int| 0 <= k < i ==> self.users@[k]@.email != email@,
            r is None ==> forall|k: int| 0 <= k < self.users@.len() ==> self.users@[k]@.email != email@,
    {
        let mut i: usize = 0;
        while i < self.users.len()
            invariant
                0 <= i <= self.users@.len(),
                forall|k: int| 0 <= k < i ==> self.users@[k]@.email != email@,
            decreases self.users@.len() - i,
        {
            if same_text(self.users[i].email(), email) {
                return Some(self.users[i].duplicate());
            }
            i += 1;
        }
        None
    }
}

/// `phc` is an argon2 hash string that accepts `password`.
pub open spec fn password_hash_of(password: Seq<char>, phc: Seq<char>) -> bool {
    crate::credentials::password_verifies(password, phc)
}

impl UserRepository for MockUserRepository {
    open spec fn wf(&self) -> bool {
        true
    }

    open spec fn users(&self) -> Seq<UserView> {
        self.users@.map_values(|u: User| u@)
    }

    open spec fn avatars(&self) -> Seq<AvatarView> {
        self.avatars@.map_values(|a: Avatar| a@)
    }

    fn register(&mut self, user: User, file_key: String, mime_type: String) -> (r: Result<
        (),
        RepositoryError,
    >)
        ensures
            r is Ok,
    {
        let mut user = user;
        if user.id().is_none() {
            user.set_id(new_uuid_text());
        }
        let owner = match user.id() {
            Some(id) => id.clone(),
            None => return Err(RepositoryError::Persistence),
        };
        let avatar = Avatar::new(new_uuid_text(), owner, file_key, mime_type);
        self.avatars.push(avatar);
        self.users.push(user);
        proof {
            assert(self.users().drop_last() =~= old(self).users());
            assert(self.avatars().drop_last() =~= old(self).avatars());
        }
        Ok(())
    }

    fn get_user_by_email(&self, email: String) -> (r: Result<Option<User>, RepositoryError>)
        ensures
            r is Ok,
    {
        let r = self.find_user_by_email(email.as_str());
        proof {
            if r is Some {
                let u = r->0;
                let i = choose|i: int|
                    0 <= i < self.users@.len() && self.users@[i]@ == u@ && u@.email == email@
                        && forall|k: int| 0 <= k < i ==> self.users@[k]@.email != email@;
                assert(self.users()[i] == u@);
            } else {
                assert forall|i: int| 0 <= i < self.users().len() implies self.users()[i].email
                    != email@ by {
                    assert(self.users()[i] == self.users@[i]@);
                }
            }
        }
        Ok(r)
    }

    fn get_user_profile(&self, user_id: String) -> (r: Result<Option<UserProfile>, RepositoryError>)
        ensures
            r is Ok,
    {
        let mut i: usize = 0;
        while i < self.users.len()
            invariant
                0 <= i <= self.users@.len(),
                forall|k: int| 0 <= k < i ==> self.users@[k]@.id != Some(user_id@),
            decreases self.users@.len() - i,
        {
            let matches = match self.users[i].id() {
                Some(id) => *id == user_id,
                None => false,
            };
            if matches {
                let mut j: usize = 0;
                while j < self.avatars.len()
                    invariant
                        0 <= i < self.users@.len(),
                        self.users@[i as int]@.id == Some(user_id@),
                        0 <= j <= self.avatars@.len(),
                        forall|k: int| 0 <= k < j ==> self.avatars@[k]@.user_id != user_id@,
                    decreases self.avatars@.len() - j,
                {
                    if same_text(self.avatars[j].user_id(), user_id.as_str()) {
                        let user = self.users[i].duplicate();
                        let avatar_url = self.avatars[j].file_key().to_owned();
                        proof {
                            assert(self.users()[i as int] == user@);
                            assert(self.avatars()[j as int] == self.avatars@[j as int]@);
                        }
                        return Ok(Some(UserProfile { user, avatar_url }));
                    }
                    j += 1;
                }
                proof {
                    assert forall|u: UserView, url: Seq<char>|
                        !is_profile_of(self.users(), self.avatars(), user_id@, u, url) by {
                        if is_profile_of(self.users(), self.avatars(), user_id@, u, url) {
                            let jj = choose|jj: int|
                                0 <= jj < self.avatars().len() && self.avatars()[jj].user_id
                                    == user_id@ && self.avatars()[jj].file_key == url;
                            assert(self.avatars()[jj] == self.avatars@[jj]@);
                        }
                    }
                }
                return Ok(None);
            }
            i += 1;
        }
        proof {
            assert forall|u: UserView, url: Seq<char>|
                !is_profile_of(self.users(), self.avatars(), user_id@, u, url) by {
                if is_profile_of(self.users(), self.avatars(), user_id@, u, url) {
                    let ii = choose|ii: int| 0 <= ii < self.users().len() && self.users()[ii] == u;
                    assert(self.users()[ii] == self.users@[ii]@);
                }
            }
        }
        Ok(None)
    }
}

} // verus!
