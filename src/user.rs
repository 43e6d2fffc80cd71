use vstd::prelude::*;

verus! {

/// A registered user. `password` holds the stored credential, a password
/// hash once the user directory has it; `id` is absent until it is assigned.
pub struct User {
    id: Option<String>,
    email: String,
    username: String,
    password: String,
}

/// The value of a user, with texts as character sequences.
pub struct UserView {
    pub id: Option<Seq<char>>,
    pub email: Seq<char>,
    pub username: Seq<char>,
    pub password: Seq<char>,
}

impl View for User {
    type V = UserView;

    closed spec fn view(&self) -> UserView {
        UserView {
            id: match self.id {
                Some(s) => Some(s@),
                None => None,
            },
            email: self.email@,
            username: self.username@,
            password: self.password@,
        }
    }
}

impl User {
    /// A user without identifier.
    pub fn new(email: String, username: String, password: String) -> (r: Self)
        ensures
            r@ == (UserView { id: None, email: email@, username: username@, password: password@ }),
    {
        User { id: None, email, username, password }
    }

    pub fn id(&self) -> (r: Option<&String>)
        ensures
            r is Some == self@.id is Some,
            r is Some ==> r->0@ == self@.id->0,
    {
        self.id.as_ref()
    }

    pub fn email(&self) -> (r: &str)
        ensures
            r@ == self@.email,
    {
        self.email.as_str()
    }

    pub fn username(&self) -> (r: &str)
        ensures
            r@ == self@.username,
    {
        self.username.as_str()
    }

    pub fn password(&self) -> (r: &str)
        ensures
            r@ == self@.password,
    {
        self.password.as_str()
    }

    pub fn set_id(&mut self, id: String)
        ensures
            final(self)@ == (UserView { id: Some(id@), ..old(self)@ }),
    {
        self.id = Some(id);
    }

    pub fn set_email(&mut self, email: String)
        ensures
            final(self)@ == (UserView { email: email@, ..old(self)@ }),
    {
        self.email = email;
    }

    pub fn set_username(&mut self, username: String)
        ensures
            final(self)@ == (UserView { username: username@, ..old(self)@ }),
    {
        self.username = username;
    }

    pub fn set_password(&mut self, password: String)
        ensures
            final(self)@ == (UserView { password: password@, ..old(self)@ }),
    {
        self.password = password;
    }

    /// A copy with the same value.
    pub fn duplicate(&self) -> (r: Self)
        ensures
            r@ == self@,
    {
        let id = match &self.id {
            Some(s) => Some(s.clone()),
            None => None,
        };
        User {
            id,
            email: self.email.clone(),
            username: self.username.clone(),
            password: self.password.clone(),
        }
    }
}

/// The avatar image of a user: where the file is kept, and its type.
pub struct Avatar {
    id: String,
    user_id: String,
    file_key: String,
    mime_type: String,
}

pub struct AvatarView {
    pub id: Seq<char>,
    pub user_id: Seq<char>,
    pub file_key: Seq<char>,
    pub mime_type: Seq<char>,
}

impl View for Avatar {
    type V = AvatarView;

    closed spec fn view(&self) -> AvatarView {
        AvatarView {
            id: self.id@,
            user_id: self.user_id@,
            file_key: self.file_key@,
            mime_type: self.mime_type@,
        }
    }
}

impl Avatar {
    pub fn new(id: String, user_id: String, file_key: String, mime_type: String) -> (r: Self)
        ensures
            r@ == (AvatarView {
                id: id@,
                user_id: user_id@,
                file_key: file_key@,
                mime_type: mime_type@,
            }),
    {
        Avatar { id, user_id, file_key, mime_type }
    }

    pub fn id(&self) -> (r: &str)
        ensures
            r@ == self@.id,
    {
        self.id.as_str()
    }

    pub fn user_id(&self) -> (r: &str)
        ensures
            r@ == self@.user_id,
    {
        self.user_id.as_str()
    }

    pub fn file_key(&self) -> (r: &str)
        ensures
            r@ == self@.file_key,
    {
        self.file_key.as_str()
    }

    pub fn mime_type(&self) -> (r: &str)
        ensures
            r@ == self@.mime_type,
    {
        self.mime_type.as_str()
    }

    pub fn set_id(&mut self, id: String)
        ensures
            final(self)@ == (AvatarView { id: id@, ..old(self)@ }),
    {
        self.id = id;
    }

    pub fn set_user_id(&mut self, user_id: String)
        ensures
            final(self)@ == (AvatarView { user_id: user_id@, ..old(self)@ }),
    {
        self.user_id = user_id;
    }

    pub fn set_file_key(&mut self, file_key: String)
        ensures
            final(self)@ == (AvatarView { file_key: file_key@, ..old(self)@ }),
    {
        self.file_key = file_key;
    }

    pub fn set_mime_type(&mut self, mime_type: String)
        ensures
            final(self)@ == (AvatarView { mime_type: mime_type@, ..old(self)@ }),
    {
        self.mime_type = mime_type;
    }
}

} // verus!
